use vstd::prelude::*;

verus! {

/// Startup configuration of the proxy.
pub struct Args {
    /// Port to listen on.
    pub port: u16,
    /// The single upstream origin URL.
    pub origin: String,
    /// Time-to-live of cache entries, in seconds.
    pub cache_ttl: u64,
    /// Connection string of the external cache backend.
    pub redis_url: String,
    /// Flush the cache and exit instead of serving.
    pub clear_cache: bool,
}

/// What one run of the process does; the two are mutually exclusive.
#[derive(Clone, Copy, Debug, PartialEq, Eq, Structural)]
pub enum Mode {
    /// Remove every cache entry, then exit without listening.
    FlushAll,
    /// Serve requests.
    Serve,
}

pub const DEFAULT_PORT: u16 = 3000;

pub const DEFAULT_CACHE_TTL: u64 = 60;

impl Args {
    /// The mode chosen by the administrative flag.
    pub fn mode(&self) -> (r: Mode)
        ensures
            r == (if self.clear_cache {
                Mode::FlushAll
            } else {
                Mode::Serve
            }),
    {
        if self.clear_cache {
            Mode::FlushAll
        } else {
            Mode::Serve
        }
    }
}

impl Default for Args {
    fn default() -> (r: Args)
        ensures
            r.port == DEFAULT_PORT,
            r.origin@ == "http://localhost"@,
            r.cache_ttl == DEFAULT_CACHE_TTL,
            r.redis_url@ == "redis://127.0.0.1/"@,
            !r.clear_cache,
    {
        Args {
            port: DEFAULT_PORT,
            origin: "http://localhost".to_string(),
            cache_ttl: DEFAULT_CACHE_TTL,
            redis_url: "redis://127.0.0.1/".to_string(),
            clear_cache: false,
        }
    }
}

} // verus!
