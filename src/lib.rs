//! Verified core of a one-shot command-line HTTP client: the request
//! descriptor and its builder, the resolution of credentials and proxy
//! settings against an environment snapshot, argument parsing, error
//! classification, the response model, and the plans that the two transport
//! backends apply.

pub mod args;
pub mod backend;
pub mod client;
pub mod config;
pub mod error;
pub mod outcome;
pub mod render;
pub mod resolve;
pub mod response;
pub mod text;
pub mod transfer;

pub use args::{effective_method, parse_args, parse_credentials, parse_invocation, parse_method, Invocation};
pub use backend::{CurlBackend, ReqwestBackend};
pub use client::{build_client, prepare_request, split_headers, ClientAuth, ClientSettings, ProxySetup, RequestSetup};
pub use config::{Method, RequestConfig};
pub use error::{FailureKind, RequestError, TransportFailure};
pub use outcome::{conclude, Captured, Conclusion, OutputWrite};
pub use render::{decimal, phase_field};
pub use resolve::{resolve_noproxy, resolve_password, resolve_proxy, resolve_username, Environment};
pub use response::{Response, Timing};
pub use transfer::{
    apply_auth, apply_method, apply_options, apply_resolve, build_headers, collect_timing, transfer_plan,
    AuthScheme, AuthSetup, MethodAction, MethodSetup, TransferOptions, TransferPlan,
};
