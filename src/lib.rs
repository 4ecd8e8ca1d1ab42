//! Building, signing, executing and decoding requests against a
//! resource-oriented storage REST API.

pub mod credential;
pub mod decoder;
pub mod error;
pub mod executor;
pub mod primitives;
pub mod request;
pub mod responses;

pub use credential::AuthorizationToken;
pub use decoder::{decode_headers, FieldKind, FieldValue, HeaderRule};
pub use error::Error;
pub use executor::{check_status, execute_request, RawResponse, Transport};
pub use request::{ContainerClient, GetACLBuilder, Method, RequestDescription};
pub use responses::{GetACLResponse, ReleaseLeaseResponse};
