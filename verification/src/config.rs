//! What the configuration file says, as plain values.
//!
//! Network addresses are of a type `A` of the host program. The path of the Unix
//! socket of 9P is any sequence of bytes; that of NBD is text.

use vstd::prelude::*;

verus! {

/// Where NFS is served.
#[derive(Debug, PartialEq, Eq)]
pub struct NfsConfig<A> {
    pub addresses: Vec<A>,
}

/// Where 9P is served.
#[derive(Debug, PartialEq, Eq)]
pub struct NinePConfig<A> {
    pub addresses: Option<Vec<A>>,
    pub unix_socket: Option<Vec<u8>>,
}

/// Where NBD is served.
#[derive(Debug, PartialEq, Eq)]
pub struct NbdConfig<A> {
    pub addresses: Option<Vec<A>>,
    pub unix_socket: Option<String>,
}

/// The protocols that are served; one that is absent is not.
#[derive(Debug, PartialEq, Eq)]
pub struct ServerConfig<A> {
    pub nfs: Option<NfsConfig<A>>,
    pub ninep: Option<NinePConfig<A>>,
    pub nbd: Option<NbdConfig<A>>,
}

/// The local cache.
#[derive(Debug, PartialEq, Eq)]
pub struct CacheConfig {
    pub root_folder: String,
    pub max_cache_size_bytes: usize,
    pub memory_cache_size_bytes: Option<u64>,
}

/// A [`CacheConfig`] with its folder as a sequence of characters.
pub struct CacheConfigView {
    pub root_folder: Seq<char>,
    pub max_cache_size_bytes: usize,
    pub memory_cache_size_bytes: Option<u64>,
}

impl View for CacheConfig {
    type V = CacheConfigView;

    open spec fn view(&self) -> CacheConfigView {
        CacheConfigView {
            root_folder: self.root_folder@,
            max_cache_size_bytes: self.max_cache_size_bytes,
            memory_cache_size_bytes: self.memory_cache_size_bytes,
        }
    }
}

/// Limits of the log-structured merge tree.
#[derive(Clone, Copy, Debug, PartialEq, Eq, Structural)]
pub struct LsmConfig {
    pub l0_max_ssts: usize,
    pub max_unflushed_bytes: usize,
    pub max_concurrent_compactions: usize,
}

/// Options of one storage provider, as names and values.
pub type ProviderOptions = Vec<(String, String)>;

/// Storage, cache and limits of the file system.
#[derive(PartialEq, Eq)]
pub struct Settings {
    pub url: String,
    pub encryption_password: String,
    pub cache: CacheConfig,
    pub aws: Option<ProviderOptions>,
    pub azure: Option<ProviderOptions>,
    pub gcp: Option<ProviderOptions>,
    pub lsm: Option<LsmConfig>,
    pub max_bytes: Option<u64>,
}

} // verus!
