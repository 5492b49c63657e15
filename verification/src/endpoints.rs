//! What the registry sends back: the status message every response carries,
//! the envelope that wraps a response body, and the bulk registry dump.

pub mod archive;
pub mod base;
pub mod corp_code_meta;
pub mod corp_codes;
pub mod envelope;
pub mod ingest;

pub use base::{is_success, Message, ResponseCheck};
pub use corp_code_meta::{CorpCodeMeta, CorpMetas};
pub use corp_codes::{CorpInfo, CorpInfos};
pub use envelope::{resolve, Envelope};
