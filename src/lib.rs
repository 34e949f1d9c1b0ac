//! Client side of a graph-store session protocol: typed operations are
//! tagged with increasing call identifiers, sent over one stream, and their
//! replies (one value, or values ended by an `Empty` terminator) are matched
//! back to the call that awaits them.

pub mod error;
pub mod model;
pub mod wire;
pub mod messages;
pub mod convert;
pub mod transaction;
pub mod ops;
pub mod laws;
pub mod bulk;
