//! The namespace schema.

use vstd::prelude::*;
use crate::error::{JsonError, JsonErrorV};
use crate::json::{spec_req_str, Json, JsonV};
use crate::codec::{parse_json, parsed_json};

verus! {

/// An administrative namespace of the server.
#[derive(Debug, PartialEq)]
pub struct Namespace {
    pub id: String,
    pub path: String,
}

/// The mathematical value of a [`Namespace`].
pub struct NamespaceV {
    pub id: Seq<char>,
    pub path: Seq<char>,
}

impl View for Namespace {
    type V = NamespaceV;

    open spec fn view(&self) -> NamespaceV {
        NamespaceV { id: self.id@, path: self.path@ }
    }
}

/// The namespace read from a document, both fields required.
pub open spec fn spec_namespace_from(j: JsonV) -> Result<NamespaceV, JsonErrorV> {
    match spec_req_str(j, "id"@) {
        Err(e) => Err(e),
        Ok(id) => match spec_req_str(j, "path"@) {
            Err(e) => Err(e),
            Ok(path) => Ok(NamespaceV { id, path }),
        },
    }
}

impl Namespace {
    /// The namespace of document `j`.
    pub fn from_json(j: &Json) -> (r: Result<Namespace, JsonError>)
        ensures
            match r {
                Ok(v) => spec_namespace_from(j@) == Ok::<NamespaceV, JsonErrorV>(v@),
                Err(e) => spec_namespace_from(j@) == Err::<NamespaceV, JsonErrorV>(e@),
            },
    {
        let id = match j.req_str("id") {
            Ok(v) => v,
            Err(e) => return Err(e),
        };
        let path = match j.req_str("path") {
            Ok(v) => v,
            Err(e) => return Err(e),
        };
        Ok(Namespace { id, path })
    }

    /// The namespace read out of a JSON text.
    pub fn decode(text: &str) -> (r: Result<Namespace, JsonError>)
        ensures
            match parsed_json(text@) {
                None => r matches Err(e) && e@ == JsonErrorV::Syntax,
                Some(j) => match r {
                    Ok(v) => spec_namespace_from(j) == Ok::<NamespaceV, JsonErrorV>(v@),
                    Err(e) => spec_namespace_from(j) == Err::<NamespaceV, JsonErrorV>(e@),
                },
            },
    {
        match parse_json(text) {
            Some(j) => Namespace::from_json(&j),
            None => Err(JsonError::Syntax),
        }
    }
}

} // verus!
