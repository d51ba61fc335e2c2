//! The library's model of a JSON document.
//!
//! The server speaks JSON, and every schema this crate decodes is a tree of
//! objects, arrays, strings, booleans and unsigned integers.  [`Json`] is the
//! executable form of such a tree and [`JsonV`] its mathematical value; every
//! decoder's contract is stated over [`JsonV`].  Numbers are modelled as
//! unsigned 64-bit integers: the schemas decoded here carry counts, sizes and
//! durations, and a document holding any other kind of number is rejected at
//! the parsing boundary.

use vstd::prelude::*;
use vstd::string::StringExecFns;
use crate::error::{JsonError, JsonErrorV};

verus! {

/// A JSON document tree, as the library models it.
#[derive(Debug, PartialEq)]
pub enum Json {
    Null,
    Bool(bool),
    UInt(u64),
    Str(String),
    Arr(Vec<Json>),
    Obj(Vec<(String, Json)>),
}

/// The mathematical value of a [`Json`] tree.
pub enum JsonV {
    Null,
    Bool(bool),
    UInt(u64),
    Str(Seq<char>),
    Arr(Seq<JsonV>),
    Obj(Seq<(Seq<char>, JsonV)>),
}

/// The values of a sequence of array elements.
pub open spec fn elems_v(a: Seq<Json>) -> Seq<JsonV>
    decreases a,
{
    Seq::new(
        a.len(),
        |i: int|
            if 0 <= i < a.len() {
                a[i]@
            } else {
                JsonV::Null
            },
    )
}

/// The values of a sequence of object fields.
pub open spec fn fields_v(o: Seq<(String, Json)>) -> Seq<(Seq<char>, JsonV)>
    decreases o,
{
    Seq::new(
        o.len(),
        |i: int|
            if 0 <= i < o.len() {
                (o[i].0@, o[i].1@)
            } else {
                (Seq::<char>::empty(), JsonV::Null)
            },
    )
}

impl View for Json {
    type V = JsonV;

    open spec fn view(&self) -> JsonV
        decreases self,
    {
        match self {
            Json::Null => JsonV::Null,
            Json::Bool(b) => JsonV::Bool(*b),
            Json::UInt(n) => JsonV::UInt(*n),
            Json::Str(s) => JsonV::Str(s@),
            Json::Arr(a) => JsonV::Arr(elems_v(a@)),
            Json::Obj(o) => JsonV::Obj(fields_v(o@)),
        }
    }
}

/// The first binding of `key` among the fields of `o` at position `i` or
/// later, if any.
pub open spec fn fields_get_from(o: Seq<(Seq<char>, JsonV)>, key: Seq<char>, i: int) -> Option<
    JsonV,
>
    decreases o.len() - i,
{
    if i < 0 || i >= o.len() {
        None
    } else if o[i].0 == key {
        Some(o[i].1)
    } else {
        fields_get_from(o, key, i + 1)
    }
}

/// The first binding of `key` among an object's fields, if any.
pub open spec fn fields_get(o: Seq<(Seq<char>, JsonV)>, key: Seq<char>) -> Option<JsonV> {
    fields_get_from(o, key, 0)
}

/// The value of field `key`, if `j` is an object that has it.
pub open spec fn lookup(j: JsonV, key: Seq<char>) -> Option<JsonV> {
    match j {
        JsonV::Obj(o) => fields_get(o, key),
        _ => None,
    }
}

/// The value of field `key`, if it is a string.
pub open spec fn lookup_str(j: JsonV, key: Seq<char>) -> Option<Seq<char>> {
    match lookup(j, key) {
        Some(JsonV::Str(s)) => Some(s),
        _ => None,
    }
}

/// The value of field `key`, if it is a number.
pub open spec fn lookup_uint(j: JsonV, key: Seq<char>) -> Option<u64> {
    match lookup(j, key) {
        Some(JsonV::UInt(n)) => Some(n),
        _ => None,
    }
}

/// The value of field `key`, if it is a boolean.
pub open spec fn lookup_bool(j: JsonV, key: Seq<char>) -> Option<bool> {
    match lookup(j, key) {
        Some(JsonV::Bool(b)) => Some(b),
        _ => None,
    }
}

/// The elements of an array, if every one is a string.
pub open spec fn as_str_seq(a: Seq<JsonV>) -> Option<Seq<Seq<char>>> {
    if forall|i: int| 0 <= i < a.len() ==> a[i] is Str {
        Some(Seq::new(a.len(), |i: int| a[i]->Str_0))
    } else {
        None
    }
}

/// The value of field `key`, if it is an array of strings.
pub open spec fn lookup_str_arr(j: JsonV, key: Seq<char>) -> Option<Seq<Seq<char>>> {
    match lookup(j, key) {
        Some(JsonV::Arr(a)) => as_str_seq(a),
        _ => None,
    }
}

/// The first field named `key` of a field list, by linear search.
fn fields_find<'a>(o: &'a Vec<(String, Json)>, key: &str) -> (r: Option<&'a Json>)
    ensures
        match r {
            Some(v) => fields_get(fields_v(o@), key@) == Some(v@),
            None => fields_get(fields_v(o@), key@) is None,
        },
{
    let ks = String::from_str(key);
    let n = o.len();
    for i in 0..n
        invariant
            n == o.len(),
            ks@ == key@,
            fields_get(fields_v(o@), key@) == fields_get_from(fields_v(o@), key@, i as int),
    {
        if o[i].0 == ks {
            return Some(&o[i].1);
        }
    }
    None
}

impl Json {
    /// The field `key` of this document, if it is an object that has it.
    pub fn get<'a>(&'a self, key: &str) -> (r: Option<&'a Json>)
        ensures
            match r {
                Some(v) => lookup(self@, key@) == Some(v@),
                None => lookup(self@, key@) is None,
            },
    {
        match self {
            Json::Obj(o) => fields_find(o, key),
            _ => None,
        }
    }

    /// The field `key` of this document, if it is a string.
    pub fn get_str<'a>(&'a self, key: &str) -> (r: Option<&'a String>)
        ensures
            match r {
                Some(s) => lookup_str(self@, key@) == Some(s@),
                None => lookup_str(self@, key@) is None,
            },
    {
        match self.get(key) {
            Some(Json::Str(s)) => Some(s),
            _ => None,
        }
    }

    /// The field `key` of this document, if it is a number.
    pub fn get_uint(&self, key: &str) -> (r: Option<u64>)
        ensures
            r == lookup_uint(self@, key@),
    {
        match self.get(key) {
            Some(Json::UInt(n)) => Some(*n),
            _ => None,
        }
    }

    /// The field `key` of this document, if it is a boolean.
    pub fn get_bool(&self, key: &str) -> (r: Option<bool>)
        ensures
            r == lookup_bool(self@, key@),
    {
        match self.get(key) {
            Some(Json::Bool(b)) => Some(*b),
            _ => None,
        }
    }

    /// The field `key` of this document, copied out, if it is an array of strings.
    pub fn get_str_arr(&self, key: &str) -> (r: Option<Vec<String>>)
        ensures
            match r {
                Some(v) => lookup_str_arr(self@, key@) == Some(strs_v(v@)),
                None => lookup_str_arr(self@, key@) is None,
            },
    {
        match self.get(key) {
            Some(v) => match v {
                Json::Arr(a) => arr_strs(a),
                _ => None,
            },
            _ => None,
        }
    }
}

/// The elements of `a`, copied out, if every one is a string.
fn arr_strs(a: &Vec<Json>) -> (r: Option<Vec<String>>)
    ensures
        match r {
            Some(v) => as_str_seq(elems_v(a@)) == Some(strs_v(v@)),
            None => as_str_seq(elems_v(a@)) is None,
        },
{
    let mut out: Vec<String> = Vec::new();
    let n = a.len();
    for i in 0..n
        invariant
            n == a.len(),
            out@.len() == i as int,
            forall|k: int| 0 <= k < i ==> elems_v(a@)[k] is Str,
            forall|k: int| 0 <= k < i ==> out@[k]@ == elems_v(a@)[k]->Str_0,
    {
        match &a[i] {
            Json::Str(s) => {
                out.push(s.clone());
            },
            _ => {
                proof {
                    let ev = elems_v(a@);
                    assert(exists|k: int| 0 <= k < ev.len() && !(ev[k] is Str)) by {
                        assert(!(ev[i as int] is Str));
                    }
                }
                return None;
            },
        }
    }
    proof {
        let ev = elems_v(a@);
        assert(as_str_seq(ev) matches Some(sv) && sv =~= strs_v(out@));
    }
    Some(out)
}

/// The mathematical values of a sequence of strings.
pub open spec fn strs_v(v: Seq<String>) -> Seq<Seq<char>> {
    Seq::new(v.len(), |i: int| v[i]@)
}

/// The mathematical value of an optional string.
pub open spec fn opt_strs_v(o: Option<String>) -> Option<Seq<char>> {
    match o {
        Some(s) => Some(s@),
        None => None,
    }
}

/// Field `key` of `j`, which must be a string.
pub open spec fn spec_req_str(j: JsonV, key: Seq<char>) -> Result<Seq<char>, JsonErrorV> {
    match lookup(j, key) {
        Some(JsonV::Str(s)) => Ok(s),
        Some(_) => Err(JsonErrorV::WrongType(key)),
        None => Err(JsonErrorV::MissingField(key)),
    }
}

/// Field `key` of `j`, a string if present; absence and `null` both read as
/// nothing.
pub open spec fn spec_opt_str(j: JsonV, key: Seq<char>) -> Result<Option<Seq<char>>, JsonErrorV> {
    match lookup(j, key) {
        Some(JsonV::Str(s)) => Ok(Some(s)),
        Some(JsonV::Null) => Ok(None),
        Some(_) => Err(JsonErrorV::WrongType(key)),
        None => Ok(None),
    }
}

/// Field `key` of `j`, which must be an unsigned 64-bit number.
pub open spec fn spec_req_u64(j: JsonV, key: Seq<char>) -> Result<u64, JsonErrorV> {
    match lookup(j, key) {
        Some(JsonV::UInt(n)) => Ok(n),
        Some(_) => Err(JsonErrorV::WrongType(key)),
        None => Err(JsonErrorV::MissingField(key)),
    }
}

/// Field `key` of `j`, which must be a number that fits in `usize`.
pub open spec fn spec_req_usize(j: JsonV, key: Seq<char>) -> Result<usize, JsonErrorV> {
    match spec_req_u64(j, key) {
        Ok(n) => if n <= usize::MAX as u64 {
            Ok(n as usize)
        } else {
            Err(JsonErrorV::WrongType(key))
        },
        Err(e) => Err(e),
    }
}

/// Field `key` of `j`, which must be a boolean.
pub open spec fn spec_req_bool(j: JsonV, key: Seq<char>) -> Result<bool, JsonErrorV> {
    match lookup(j, key) {
        Some(JsonV::Bool(b)) => Ok(b),
        Some(_) => Err(JsonErrorV::WrongType(key)),
        None => Err(JsonErrorV::MissingField(key)),
    }
}

/// Field `key` of `j`, which must be an array of strings.
pub open spec fn spec_req_str_arr(j: JsonV, key: Seq<char>) -> Result<
    Seq<Seq<char>>,
    JsonErrorV,
> {
    match lookup(j, key) {
        Some(JsonV::Arr(a)) => match as_str_seq(a) {
            Some(sv) => Ok(sv),
            None => Err(JsonErrorV::WrongType(key)),
        },
        Some(_) => Err(JsonErrorV::WrongType(key)),
        None => Err(JsonErrorV::MissingField(key)),
    }
}

/// Field `key` of `j` as a `usize` number, if present; absence and `null`
/// both read as nothing.
pub open spec fn spec_opt_usize(j: JsonV, key: Seq<char>) -> Result<Option<usize>, JsonErrorV> {
    match lookup(j, key) {
        None => Ok(None),
        Some(JsonV::Null) => Ok(None),
        Some(JsonV::UInt(n)) => if n <= usize::MAX as u64 {
            Ok(Some(n as usize))
        } else {
            Err(JsonErrorV::WrongType(key))
        },
        Some(_) => Err(JsonErrorV::WrongType(key)),
    }
}

/// Field `key` of `j`, which must be a number that fits in 32 bits.
pub open spec fn spec_req_u32(j: JsonV, key: Seq<char>) -> Result<u32, JsonErrorV> {
    match spec_req_u64(j, key) {
        Ok(n) => if n <= u32::MAX as u64 {
            Ok(n as u32)
        } else {
            Err(JsonErrorV::WrongType(key))
        },
        Err(e) => Err(e),
    }
}

/// Field `key` of `j` as a 32-bit number, or `default` when absent.
pub open spec fn spec_u32_or(j: JsonV, key: Seq<char>, default: u32) -> Result<u32, JsonErrorV> {
    match lookup(j, key) {
        None => Ok(default),
        Some(_) => spec_req_u32(j, key),
    }
}

/// Field `key` of `j` as a `usize` number, or `default` when absent.
pub open spec fn spec_usize_or(j: JsonV, key: Seq<char>, default: usize) -> Result<
    usize,
    JsonErrorV,
> {
    match lookup(j, key) {
        None => Ok(default),
        Some(_) => spec_req_usize(j, key),
    }
}

/// Field `key` of `j` as a string, or `default` when absent.
pub open spec fn spec_str_or(j: JsonV, key: Seq<char>, default: Seq<char>) -> Result<
    Seq<char>,
    JsonErrorV,
> {
    match lookup(j, key) {
        None => Ok(default),
        Some(JsonV::Str(s)) => Ok(s),
        Some(_) => Err(JsonErrorV::WrongType(key)),
    }
}

impl Json {
    /// Field `key`, copied out, which must be a string.
    pub fn req_str(&self, key: &str) -> (r: Result<String, JsonError>)
        ensures
            match r {
                Ok(s) => spec_req_str(self@, key@) == Ok::<Seq<char>, JsonErrorV>(s@),
                Err(e) => spec_req_str(self@, key@) == Err::<Seq<char>, JsonErrorV>(e@),
            },
    {
        match self.get(key) {
            Some(v) => match v {
                Json::Str(s) => Ok(s.clone()),
                _ => Err(JsonError::WrongType(String::from_str(key))),
            },
            None => Err(JsonError::MissingField(String::from_str(key))),
        }
    }

    /// Field `key`, copied out if present; absence and `null` both yield `None`.
    pub fn opt_str(&self, key: &str) -> (r: Result<Option<String>, JsonError>)
        ensures
            match r {
                Ok(Some(s)) => spec_opt_str(self@, key@) == Ok::<Option<Seq<char>>, JsonErrorV>(
                    Some(s@),
                ),
                Ok(None) => spec_opt_str(self@, key@) == Ok::<Option<Seq<char>>, JsonErrorV>(
                    None,
                ),
                Err(e) => spec_opt_str(self@, key@) == Err::<Option<Seq<char>>, JsonErrorV>(e@),
            },
    {
        match self.get(key) {
            Some(v) => match v {
                Json::Str(s) => Ok(Some(s.clone())),
                Json::Null => Ok(None),
                _ => Err(JsonError::WrongType(String::from_str(key))),
            },
            None => Ok(None),
        }
    }

    /// Field `key`, which must be an unsigned 64-bit number.
    pub fn req_u64(&self, key: &str) -> (r: Result<u64, JsonError>)
        ensures
            match r {
                Ok(n) => spec_req_u64(self@, key@) == Ok::<u64, JsonErrorV>(n),
                Err(e) => spec_req_u64(self@, key@) == Err::<u64, JsonErrorV>(e@),
            },
    {
        match self.get(key) {
            Some(v) => match v {
                Json::UInt(n) => Ok(*n),
                _ => Err(JsonError::WrongType(String::from_str(key))),
            },
            None => Err(JsonError::MissingField(String::from_str(key))),
        }
    }

    /// Field `key`, which must be a number that fits in `usize`.
    pub fn req_usize(&self, key: &str) -> (r: Result<usize, JsonError>)
        ensures
            match r {
                Ok(n) => spec_req_usize(self@, key@) == Ok::<usize, JsonErrorV>(n),
                Err(e) => spec_req_usize(self@, key@) == Err::<usize, JsonErrorV>(e@),
            },
    {
        match self.req_u64(key) {
            Ok(n) => {
                if n <= usize::MAX as u64 {
                    Ok(n as usize)
                } else {
                    Err(JsonError::WrongType(String::from_str(key)))
                }
            },
            Err(e) => Err(e),
        }
    }

    /// Field `key`, which must be a boolean.
    pub fn req_bool(&self, key: &str) -> (r: Result<bool, JsonError>)
        ensures
            match r {
                Ok(b) => spec_req_bool(self@, key@) == Ok::<bool, JsonErrorV>(b),
                Err(e) => spec_req_bool(self@, key@) == Err::<bool, JsonErrorV>(e@),
            },
    {
        match self.get(key) {
            Some(v) => match v {
                Json::Bool(b) => Ok(*b),
                _ => Err(JsonError::WrongType(String::from_str(key))),
            },
            None => Err(JsonError::MissingField(String::from_str(key))),
        }
    }

    /// Field `key` as a `usize` number, if present; absence and `null` both
    /// yield `None`.
    pub fn opt_usize(&self, key: &str) -> (r: Result<Option<usize>, JsonError>)
        ensures
            match r {
                Ok(n) => spec_opt_usize(self@, key@) == Ok::<Option<usize>, JsonErrorV>(n),
                Err(e) => spec_opt_usize(self@, key@) == Err::<Option<usize>, JsonErrorV>(e@),
            },
    {
        match self.get(key) {
            None => Ok(None),
            Some(v) => match v {
                Json::Null => Ok(None),
                Json::UInt(n) => {
                    if *n <= usize::MAX as u64 {
                        Ok(Some(*n as usize))
                    } else {
                        Err(JsonError::WrongType(String::from_str(key)))
                    }
                },
                _ => Err(JsonError::WrongType(String::from_str(key))),
            },
        }
    }

    /// Field `key`, which must be a number that fits in 32 bits.
    pub fn req_u32(&self, key: &str) -> (r: Result<u32, JsonError>)
        ensures
            match r {
                Ok(n) => spec_req_u32(self@, key@) == Ok::<u32, JsonErrorV>(n),
                Err(e) => spec_req_u32(self@, key@) == Err::<u32, JsonErrorV>(e@),
            },
    {
        match self.req_u64(key) {
            Ok(n) => {
                if n <= u32::MAX as u64 {
                    Ok(n as u32)
                } else {
                    Err(JsonError::WrongType(String::from_str(key)))
                }
            },
            Err(e) => Err(e),
        }
    }

    /// Field `key` as a 32-bit number, or `default` when absent.
    pub fn u32_or(&self, key: &str, default: u32) -> (r: Result<u32, JsonError>)
        ensures
            match r {
                Ok(n) => spec_u32_or(self@, key@, default) == Ok::<u32, JsonErrorV>(n),
                Err(e) => spec_u32_or(self@, key@, default) == Err::<u32, JsonErrorV>(e@),
            },
    {
        match self.get(key) {
            None => Ok(default),
            Some(_) => self.req_u32(key),
        }
    }

    /// Field `key` as a `usize` number, or `default` when absent.
    pub fn usize_or(&self, key: &str, default: usize) -> (r: Result<usize, JsonError>)
        ensures
            match r {
                Ok(n) => spec_usize_or(self@, key@, default) == Ok::<usize, JsonErrorV>(n),
                Err(e) => spec_usize_or(self@, key@, default) == Err::<usize, JsonErrorV>(e@),
            },
    {
        match self.get(key) {
            None => Ok(default),
            Some(_) => self.req_usize(key),
        }
    }

    /// Field `key`, copied out as a string, or `default` when absent.
    pub fn str_or(&self, key: &str, default: &str) -> (r: Result<String, JsonError>)
        ensures
            match r {
                Ok(s) => spec_str_or(self@, key@, default@) == Ok::<Seq<char>, JsonErrorV>(s@),
                Err(e) => spec_str_or(self@, key@, default@) == Err::<Seq<char>, JsonErrorV>(
                    e@,
                ),
            },
    {
        match self.get(key) {
            None => Ok(String::from_str(default)),
            Some(v) => match v {
                Json::Str(s) => Ok(s.clone()),
                _ => Err(JsonError::WrongType(String::from_str(key))),
            },
        }
    }

    /// Field `key`, copied out, which must be an array of strings.
    pub fn req_str_arr(&self, key: &str) -> (r: Result<Vec<String>, JsonError>)
        ensures
            match r {
                Ok(v) => spec_req_str_arr(self@, key@) == Ok::<Seq<Seq<char>>, JsonErrorV>(
                    strs_v(v@),
                ),
                Err(e) => spec_req_str_arr(self@, key@) == Err::<Seq<Seq<char>>, JsonErrorV>(e@),
            },
    {
        match self.get(key) {
            Some(v) => match v {
                Json::Arr(a) => match arr_strs(a) {
                    Some(out) => Ok(out),
                    None => Err(JsonError::WrongType(String::from_str(key))),
                },
                _ => Err(JsonError::WrongType(String::from_str(key))),
            },
            None => Err(JsonError::MissingField(String::from_str(key))),
        }
    }
}

/// The first position of `c` in `s`, if any.
pub open spec fn find_char(s: Seq<char>, c: char) -> Option<int>
    decreases s.len(),
{
    if s.len() == 0 {
        None
    } else if s[0] == c {
        Some(0)
    } else {
        match find_char(s.drop_first(), c) {
            Some(i) => Some(i + 1),
            None => None,
        }
    }
}

/// A position returned by [`find_char`] lies within the string and carries `c`,
/// and everything before it differs from `c`.
pub proof fn lemma_find_char(s: Seq<char>, c: char)
    ensures
        match find_char(s, c) {
            Some(i) => 0 <= i < s.len() && s[i] == c && forall|k: int| 0 <= k < i ==> s[k] != c,
            None => forall|k: int| 0 <= k < s.len() ==> s[k] != c,
        },
    decreases s.len(),
{
    if s.len() > 0 && s[0] != c {
        lemma_find_char(s.drop_first(), c);
        let t = s.drop_first();
        match find_char(t, c) {
            Some(i) => {
                assert(s[i + 1] == t[i]);
                assert forall|k: int| 0 <= k < i + 1 implies s[k] != c by {
                    if k > 0 {
                        assert(t[k - 1] == s[k]);
                    }
                }
            },
            None => {
                assert forall|k: int| 0 <= k < s.len() implies s[k] != c by {
                    if k > 0 {
                        assert(t[k - 1] == s[k]);
                    }
                }
            },
        }
    }
}

/// The pieces of `s` between occurrences of `c`: one piece more than there are
/// occurrences, each piece free of `c`, in order.
pub open spec fn split_on(s: Seq<char>, c: char) -> Seq<Seq<char>>
    decreases s.len(),
    via split_on_decreases
{
    match find_char(s, c) {
        None => seq![s],
        Some(i) => seq![s.take(i)] + split_on(s.skip(i + 1), c),
    }
}

#[via_fn]
proof fn split_on_decreases(s: Seq<char>, c: char) {
    lemma_find_char(s, c);
}

/// The first position of `c` in `s`, by linear scan.
pub fn find_char_at(s: &str, c: char) -> (r: Option<usize>)
    ensures
        match r {
            Some(i) => find_char(s@, c) == Some(i as int),
            None => find_char(s@, c) is None,
        },
{
    let n = s.unicode_len();
    for i in 0..n
        invariant
            n as int == s@.len(),
            forall|k: int| 0 <= k < i ==> s@[k] != c,
    {
        if s.get_char(i) == c {
            proof {
                lemma_find_char(s@, c);
            }
            return Some(i);
        }
    }
    proof {
        lemma_find_char(s@, c);
    }
    None
}

/// The pieces of `s` between occurrences of `c`, copied out in order.
pub fn split_str(s: &str, c: char) -> (r: Vec<String>)
    ensures
        strs_v(r@) == split_on(s@, c),
    decreases s@.len(),
{
    match find_char_at(s, c) {
        None => {
            let mut out: Vec<String> = Vec::new();
            out.push(String::from_str(s));
            proof {
                assert(strs_v(out@) =~= split_on(s@, c));
            }
            out
        },
        Some(i) => {
            proof {
                lemma_find_char(s@, c);
            }
            let n = s.unicode_len();
            let head = s.substring_char(0, i);
            let tail = s.substring_char(i + 1, n);
            proof {
                assert(head@ =~= s@.take(i as int));
                assert(tail@ =~= s@.skip(i + 1));
            }
            let mut out: Vec<String> = Vec::new();
            out.push(String::from_str(head));
            let mut rest = split_str(tail, c);
            out.append(&mut rest);
            proof {
                assert(strs_v(out@) =~= split_on(s@, c));
            }
            out
        },
    }
}

} // verus!
