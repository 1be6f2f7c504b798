//! Classification, templating and session logic of a self-hosted media
//! recommendation server, verified with Verus.

// Text, numbers, clock and hashing.
pub mod text;
pub mod parsing;
pub mod clock;
pub mod random;
pub mod errorext;
pub mod hashing;

// Indexing: paths, classification and filing.
pub mod media_path;
pub mod db_types;
pub mod classify;
pub mod video_name;
pub mod indexing;

// Pages and their routes.
pub mod templating;
pub mod frontend;
pub mod pages;
pub mod library;
pub mod admin_pages;

// Accounts, settings and the server's life cycle.
pub mod auth;
pub mod settings;
pub mod server;

// Streaming sessions.
pub mod stream_ident;
pub mod segment_cache;
pub mod playlist;
pub mod transcode;
pub mod session;
pub mod notification;
pub mod recommendation;
