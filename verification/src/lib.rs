//! A request router: an ordered, shared table of (pattern, handler) pairs.
//! `dispatch` selects the first handler whose pattern matches the request's
//! path; `add` appends a new route, rejecting pattern sources that do not
//! compile.

pub mod handler;
pub mod message;
pub mod pattern;
pub mod router;
pub mod table;

pub use handler::{Handler, StatusHandler};
pub use router::Router;
pub use message::{Request, Response, NOT_FOUND};
pub use pattern::{Pattern, PatternCompileError};
pub use table::RouteTable;
