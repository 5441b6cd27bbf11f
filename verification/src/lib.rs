//! A pattern-driven front end for a cluster CLI: a command line names a verb
//! (get or delete), a resource kind (pod or service) and a pattern; the
//! library parses the command line, filters a resource listing by the
//! pattern, gates destructive actions behind a confirmation, and plans the
//! CLI invocations that carry the verb out, one per matched resource.

pub mod command;
pub mod flow;
pub mod gate;
pub mod pattern;
pub mod text;
