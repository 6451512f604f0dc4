pub mod activitypub;
pub mod actor;
pub mod actor_cache;
pub mod config;
pub mod digest;
pub mod endpoint;
pub mod error;
pub mod fanout;
pub mod fetch;
pub mod inbox;
pub mod info;
pub mod relay;
pub mod send;
pub mod stream;
pub mod text;
pub mod webfinger;
pub mod worker;
