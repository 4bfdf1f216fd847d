//! Credentials for Kubernetes clients, made from dynamic secrets.
//!
//! A lease on AWS credentials becomes an exec credential for EKS: a
//! `GetCallerIdentity` request to STS is presigned, and its URL, in URL-safe
//! base64 behind the prefix `k8s-aws-v1.`, is the bearer token. A token for
//! Google Cloud, from a broker or from the cloud SDK, becomes a token with the
//! date at which it lapses.
//!
//! The library decides and computes; reading secrets and writing the document
//! is left to the program around it. `dispatch::plan` says what to fetch for a
//! type of credential, and `dispatch::produce` turns what was fetched into the
//! document.

pub mod aws;
pub mod credential;
pub mod dispatch;
pub mod encoding;
pub mod error;
pub mod gcp;
pub mod lease_path;
pub mod number;
pub mod output;
pub mod text;
pub mod time;

pub use crate::aws::{EksCredential, EksCredentialStatus};
pub use crate::credential::CredentialType;
pub use crate::error::{Error, IntErrorKind};
pub use crate::gcp::GcpAccessToken;
pub use crate::lease_path::LeasePath;
pub use crate::output::read_token;
pub use crate::time::Instant;
