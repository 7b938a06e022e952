//! Verified core of an Internet Gateway Device (UPnP IGD) client: the error
//! types and their messages, address formatting, and the anti-spoofing checks
//! that guard gateway discovery.

pub mod aio;
pub mod common;
pub mod errors;
pub mod net;
pub mod search;
pub mod text;
pub mod uri;

pub use aio::soap::Action;
pub use common::random_port;
pub use errors::{
    AddAnyPortError, AddPortError, Error, GetExternalIpError, GetGenericPortMappingEntryError, Result,
    RemovePortError, RequestError, SearchError,
};
pub use net::{IpAddress, SocketAddress};
pub use search::{check_is_ip_spoofed, validate_url};
pub use uri::Url;
