//! Core value and identity model of a WAMP peer: identifiers, strict URIs,
//! roles and the payload value type.

mod entropy;
pub mod id;
pub mod role;
pub mod unicode;
pub mod uri;
pub mod value;

pub use id::WampId;
pub use role::{ClientRole, ServerRole};
pub use uri::{is_valid_strict_uri, strict_uri_violation, CharFault, UriViolation};
pub use value::{
    Arg, WampArgs, WampBool, WampDict, WampInteger, WampKwArgs, WampList, WampString, WampUri,
    WireShape,
};
