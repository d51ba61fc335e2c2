//! The schemas and request builders of the server's system endpoints.

pub mod auth;
pub mod health;
pub mod init;
pub mod key;
pub mod lease;
pub mod mount;
pub mod namespace;
pub mod seal;

pub use self::health::HealthInfo;
pub use self::init::KeysInfo;
pub use self::lease::{LeaseStatus, ListLeaseData, Status};
pub use self::mount::{Additional, KeyPairs, Mount, MountConfig, MountConfigInfo, MountInfo, Visibility};
pub use self::namespace::Namespace;
pub use self::seal::{ClusterInfo, SealInfo, SealStatus, Sealed, Unsealed};
