//! Search paths: an ordered set of directories and web base locations, built from a
//! delimiter-separated variable value, in which a bare name is resolved to its first match.
//!
//! The library holds no I/O of its own. What it needs to know of the host (the value of a
//! variable, whether a directory exists and can be read, what a directory holds, whether a
//! web location answers) is handed to it as plain values.


pub mod entries;
pub mod host;
pub mod laws;
pub mod lookup;
pub mod remote;
pub mod simpath;

pub use entries::{classify, split_entries, Entry, UNIX_SEPARATOR, WINDOWS_SEPARATOR};
pub use host::{DirectoryStatus, Host, Variable};
pub use lookup::{Child, EntryKind, FileType, FoundType, Listing, Lookup, LookupError, Step, is_reachable};
pub use remote::{Location, LocationView};
pub use simpath::{PathError, Simpath, SimpathView};
