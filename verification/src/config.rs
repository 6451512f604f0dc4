use vstd::prelude::*;

verus! {

/// Where posts that came in are published to, if anywhere.
#[derive(Debug)]
pub struct RedisConfig {
    pub connection: String,
    pub password_file: String,
    pub in_topic: String,
}

/// The configuration of a relay.
#[derive(Debug)]
pub struct Config {
    pub streams: Vec<String>,
    pub db: String,
    pub hostname: String,
    pub listen_port: u16,
    pub priv_key_file: String,
    pub pub_key_file: String,
    pub redis: Option<RedisConfig>,
}

} // verus!
