//! The per-resource facades. Each is a thin composition: resolve a path,
//! optionally attach a listing cursor, and delegate to the dispatcher —
//! header attachment, token handling and shape detection all live in the
//! core, never here.

pub mod me;
pub mod subreddit;
pub mod user;

pub use me::Me;
pub use subreddit::Subreddit;
pub use subreddit::Subreddits;
pub use user::User;
