//! Verified core of a small utility that obtains an encrypted application
//! ticket from a locally running Steam client and persists it, together with
//! the account's numeric identity, as a flat INI-style configuration file.
//!
//! The library holds everything that can be stated and proved: the decimal
//! rendering of identifiers, the exact text of the configuration file and a
//! parser-level round trip for it, the rule that picks the matching completed
//! callback out of a drained callback queue, and the step function of the
//! whole acquisition flow. The binary around it only performs the native SDK
//! calls, the prompts and the file write, and feeds the results back in as
//! plain values.

pub mod callbacks;
pub mod config;
pub mod decimal;
pub mod encode;
pub mod flow;
