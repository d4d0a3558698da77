//! Search-engine backends behind one small, verified core.
//!
//! The library holds the logic of a search client: the query model and its
//! rendering, the request URLs that each backend builds, the mapping of HTTP
//! outcomes onto errors, and the extraction of ranked hits from a result page.
//! The network and the HTML tree come from outside crates, reached through a
//! few trusted items whose contracts are stated next to them.

pub mod duckduckgo;
pub mod engine;
pub mod error;
pub mod google;
pub mod html;
pub mod http;
pub mod laws;
pub mod text;
pub mod urls;

pub use engine::{Query, SafeSearch, SearchHit};
pub use error::{DorkError, Result};
