//! `automatic` runs commands collected in run lists, as described by a user
//! supplied script document.
//!
//! Commands are value-level descriptors ([`runitem::RunItem`]) that bind to an
//! executor ([`runner::Runner`]) when run. Lists of commands come in three
//! policies (silent, promiscuous and interactive), all of which stop at the
//! first item that fails.

pub mod interactive_list;
pub mod promiscuous_list;
pub mod run;
pub mod runitem;
pub mod runner;
pub mod script;
pub mod silent_list;
pub mod text;
pub mod yaml;
