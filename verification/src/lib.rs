//! Verification of remote-attestation reports for secure enclaves.
//!
//! A report is accepted only if every gate passes: the declared build mode,
//! the wire decoding, the freshness window, the attestation service's verdict,
//! the quote layout and, where asked for, the binding of the report data.
//! Any failure rejects the whole report with a typed error.
//!
//! The contracts are stated over mathematical values: each type has a view,
//! and each stage has a spec function that says what it yields. [`laws`]
//! holds what is proved of the stages taken together.

pub mod attestation;
pub mod clock;
pub mod error;
pub mod freshness;
pub mod hex;
pub mod laws;
pub mod platform_info;
pub mod quote;
pub mod report;
pub mod sidechain;
pub mod status;

pub use attestation::BuildMode;
pub use error::{AttestationError, ErrorModel, ReportField};
pub use freshness::FreshnessPolicy;
pub use platform_info::{PlatformInfo, PLATFORM_INFO_SIZE};
pub use quote::{Quote, ReportBody};
pub use report::AttestationReport;
pub use sidechain::{GetSidechainRequestHandler, SidechainRpcClient};
pub use status::StatusClass;
