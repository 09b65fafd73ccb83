//! Core of a directory-listing tool: concurrent path resolution with a
//! bounded admission gate, and an explicit-stack, depth-bounded directory
//! traversal that preserves display order.

pub mod depth;
pub mod driver;
pub mod file;
pub mod gate;
pub mod options;
pub mod probe;

pub use driver::Exa;
pub use file::{File, Stat};
pub use gate::Gate;
pub use options::{DirAction, Options, RecurseOptions, ViewKind};
pub use probe::StatResult;
