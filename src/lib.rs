//! Records a line-delimited stream of price updates into time-bucketed files.
//!
//! The library holds the decisions: how a line is classified, which file a
//! record goes to and when a file rotates out, how raw bytes are framed into
//! lines, and what the reconnect loop does after a session fails.

pub mod protocol;
pub mod sink;
pub mod session;
pub mod framing;
pub mod supervisor;
pub mod endpoint;
