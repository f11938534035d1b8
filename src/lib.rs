//! A stand-in for a vendor web-service protocol: it matches incoming function
//! calls against configured mock resources, wraps every answer in the standard
//! result envelope, and issues and checks the session credentials.

pub mod comresult;
pub mod config;
pub mod exec;
pub mod hex;
pub mod method;
pub mod pattern;
pub mod request;
pub mod resource;
pub mod service_pass;

pub use comresult::{BuildError, ComResult, ComResultBuilder, ServiceResponse};
pub use config::{AppConfig, CredentialsConfig, ServerConfig, WebservicesConfig, WebwareConfig};
pub use exec::{exec_json, OptionalJson};
pub use method::MockResourceMethod;
pub use pattern::DeserializedRegex;
pub use request::{WebserviceFunction, WebserviceParameter, WebservicePassInfo, WebserviceRequest};
pub use resource::{FileOrString, MatchValue, MockResource, ResourceParameter};
pub use service_pass::{
    handle_deregister, handle_register, handle_register_path, DeregisterHeaders,
    DeregisterOutcome, RegisterResponse, ServicePass,
};
