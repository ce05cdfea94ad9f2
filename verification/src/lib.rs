//! A declarative policy engine: compiles a configuration document into a
//! label transform table and a path-prefix authorization table, and resolves
//! request-time decisions against them.  Label policies say how values tagged
//! with a label are redacted and on which request paths the redaction is
//! skipped; path rules say which usernames may call the endpoints under a
//! declared path prefix, with the longest declared prefix governing.

pub mod authorization;
pub mod compile;
pub mod document;
pub mod error;
pub mod labels;
pub mod path_match;
pub mod pattern;
pub mod text;
pub mod transform;
