//! Safety layer for a native music-player-daemon client library.
//!
//! The native library reports failures through per-connection error codes, a
//! message string, an operating-system errno and a protocol-level sub-code.
//! This crate holds the verified core of a safe wrapper around it: the typed
//! error model, the classification of daemon sub-codes, the translation of
//! every native error report into that model, and the validation of host
//! strings before they are handed to the native side. The unverifiable edge
//! (the raw pointer calls themselves, ownership and release of the native
//! connection resource) lives outside this crate and consults these functions
//! for every decision.

pub mod error;
pub mod translate;

pub use error::IoError;
pub use error::MpdError;
pub use error::MpdErrorKind;
pub use error::ServerError;
pub use error::server_error_from_code;
pub use translate::ErrorAction;
pub use translate::host_has_interior_nul;
pub use translate::translate_error;
