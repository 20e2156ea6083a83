//! A read-only store of structured documents kept in a git repository's
//! branch snapshot.  Files are resolved to bytes by path, split into an
//! optional front matter block and a body along `---` delimiter lines, and
//! the block is parsed against a typed metadata schema with defaults.  The
//! splitting, the schema filling, the prefix filtering of listings and the
//! pagination are verified; reads from the repository and the YAML parse go
//! through a small trusted boundary.

pub mod config;
pub mod endpoint;
pub mod content_types;
pub mod file;
pub mod front_matter;
pub mod store;
pub mod text;
pub mod utils;
pub mod yaml;

pub use content_types::post::Post;
pub use store::Store;
