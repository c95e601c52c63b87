//! Scans of the unspent-output set: the matching rules that a node is asked
//! to track, the handle that a registration yields, and what is made of the
//! node's replies.

pub mod predicate;
pub mod meaning;
pub mod description;
pub mod scan;
pub mod document;
pub mod catalog;
