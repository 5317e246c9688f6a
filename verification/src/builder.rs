//! The builders of the file store and of the tree store.

use vstd::prelude::*;
use crate::config::get_opt_byte_count;
use crate::config::get_opt_string;
use crate::config::get_or_bool;
use crate::config::get_or_default_bool;
use crate::config::get_or_default_i32;
use crate::config::get_or_u64;
use crate::config::get_text;
use crate::config::StoreConfig;
use crate::errors::optional_text;
use crate::store::cache_limits;
use crate::store::cache_path;
use crate::store::cache_path_of;
use crate::store::compile_logging_regex;
use crate::store::component;
use crate::store::edenapi_component;
use crate::store::edenapi_wanted;
use crate::store::failure_of;
use crate::store::indexedlog_cache_plan;
use crate::store::indexedlog_local_plan;
use crate::store::lfs_threshold;
use crate::store::logging_regex;
use crate::store::logging_regex_of;
use crate::store::metadata_mode_of;
use crate::store::plan_indexedlog_cache;
use crate::store::plan_indexedlog_local;
use crate::store::read_edenapi_wanted;
use crate::store::settle;
use crate::store::settle_edenapi;
use crate::store::clone_text;
use crate::store::tree_metadata_mode;
use crate::store::unreadable;
use crate::store::AuxOpen;
use crate::store::BuildError;
use crate::store::BuildFailure;
use crate::store::CachePathError;
use crate::store::Component;
use crate::store::ExtStoredPolicy;
use crate::store::FromConfig;
use crate::store::IndexedLogOpen;
use crate::store::LfsOpen;
use crate::store::Location;
use crate::store::StoreType;
use crate::store::TreeMetadataMode;

verus! {

/// The number of files fetched ahead at once where nothing is set.
pub const DEFAULT_MAX_PREFETCH_SIZE: u64 = 100_000;

/// Collects what a file store is made of. `I` is an indexed log store, `L`
/// a store for large files, `E` a remote client and `C` a fallback store.
pub struct FileStoreBuilder<'a, I, L, E, C> {
    pub config: &'a StoreConfig,
    /// What the lookup of the cache path came to.
    pub cache: Result<String, CachePathError>,
    pub local_path: Option<String>,
    pub suffix: Option<String>,
    pub override_edenapi: Option<bool>,
    pub indexedlog_local: Option<I>,
    pub indexedlog_cache: Option<I>,
    pub lfs_local: Option<L>,
    pub lfs_cache: Option<L>,
    pub edenapi: Option<E>,
    pub contentstore: Option<C>,
}

/// What a file store is made of, settled.
pub struct FileStorePlan<I, L, E, C> {
    /// The cache path to check for a cache reset, if it is to be checked.
    pub check_cache_buster: Option<String>,
    pub extstored_policy: ExtStoredPolicy,
    pub lfs_threshold_bytes: Option<u64>,
    pub edenapi_retries: i32,
    pub allow_write_lfs_ptrs: bool,
    pub prefetch_aux_data: bool,
    pub compute_aux_data: bool,
    pub max_prefetch_size: u64,
    pub indexedlog_local: Component<I, IndexedLogOpen>,
    pub lfs_local: Component<L, LfsOpen>,
    pub indexedlog_cache: Component<I, IndexedLogOpen>,
    pub lfs_cache: Component<L, LfsOpen>,
    pub edenapi: Component<E, FromConfig>,
    /// Whether a client for the large file server is made, over the large
    /// file cache.
    pub lfs_remote: bool,
    /// The file to log activity to, opened for appending.
    pub activity_log: Option<String>,
    pub contentstore: Option<C>,
    pub logging_regex: Option<regex::Regex>,
    pub aux_cache: Option<AuxOpen>,
    pub flush_on_drop: bool,
}

/// How to open a store for large files under the local path, if large files
/// are in use and there is a local path.
pub open spec fn lfs_local_plan(
    threshold: Option<u64>,
    local_path: Option<String>,
    suffix: Option<String>,
) -> Option<LfsOpen> {
    if threshold is Some && local_path is Some {
        Some(
            LfsOpen {
                location: Location::Local(local_path->Some_0, suffix),
                store_type: StoreType::Permanent,
            },
        )
    } else {
        None
    }
}

/// How to open a cache for large files, if large files are in use and there
/// is a cache path.
pub open spec fn lfs_cache_plan(threshold: Option<u64>, cache: Option<String>) -> Option<LfsOpen> {
    if threshold is Some && cache is Some {
        Some(LfsOpen { location: Location::Cache(cache->Some_0), store_type: StoreType::Rotated })
    } else {
        None
    }
}

/// How to open the cache for auxiliary data, if there is a cache path.
pub open spec fn aux_cache_plan(cache: Option<String>) -> Option<AuxOpen> {
    match cache {
        Some(p) => Some(AuxOpen { location: Location::Cache(p), store_type: StoreType::Rotated }),
        None => None,
    }
}

impl<'a, I, L, E, C> FileStoreBuilder<'a, I, L, E, C> {
    /// The limits of the file cache.
    pub open spec fn limits(self) -> Result<
        crate::store::IndexedLogHgIdDataStoreConfig,
        BuildFailure,
    > {
        cache_limits(
            *self.config,
            "data.max-log-count"@,
            "data.max-bytes-per-log"@,
            "cachelimit"@,
        )
    }

    /// Why no plan can be made, if none can. `compiled` is what compiling
    /// the pattern for undesired files came to, if a pattern is set.
    pub open spec fn failure(self, compiled: Option<Result<regex::Regex, String>>) -> Option<
        BuildFailure,
    > {
        let c = *self.config;
        if self.contentstore is None && cache_path_of(self.cache) is Err {
            Some(BuildFailure::CachePath)
        } else if lfs_threshold(c) is Err {
            Some(BuildFailure::Config)
        } else if self.indexedlog_cache is None && indexedlog_cache_plan(self.cache, self.limits())
            is Err {
            Some(indexedlog_cache_plan(self.cache, self.limits())->Err_0)
        } else if cache_path_of(self.cache) is Err {
            Some(BuildFailure::CachePath)
        } else if edenapi_wanted(self.override_edenapi, self.edenapi is Some, c) is Err {
            Some(BuildFailure::Config)
        } else if c.read_bool("scmstore"@, "contentstorefallback"@) is Invalid {
            Some(BuildFailure::Config)
        } else if logging_regex_of(compiled) is Err {
            Some(BuildFailure::Regex)
        } else if c.read_bool("scmstore"@, "lfsptrwrites"@) is Invalid || c.read_bool(
            "scmstore"@,
            "compute-aux-data"@,
        ) is Invalid || c.read_bool("scmstore"@, "prefetch-aux-data"@) is Invalid || c.read_u64(
            "scmstore"@,
            "max-prefetch-size"@,
        ) is Invalid {
            Some(BuildFailure::Config)
        } else {
            None
        }
    }

    /// `plan` is the plan for this builder, where one can be made.
    pub open spec fn planned(
        self,
        compiled: Option<Result<regex::Regex, String>>,
        plan: FileStorePlan<I, L, E, C>,
    ) -> bool {
        let c = *self.config;
        let cache = cache_path_of(self.cache)->Ok_0;
        let threshold = lfs_threshold(c)->Ok_0;
        &&& plan.check_cache_buster == if self.contentstore is None {
            cache
        } else {
            None
        }
        &&& plan.extstored_policy == ExtStoredPolicy::Use
        &&& plan.lfs_threshold_bytes == threshold
        &&& plan.edenapi_retries == c.read_i32("scmstore"@, "retries"@).or(0)
        &&& plan.indexedlog_local == component(
            self.indexedlog_local,
            indexedlog_local_plan(self.local_path, self.suffix),
        )
        &&& plan.indexedlog_cache == component(
            self.indexedlog_cache,
            indexedlog_cache_plan(self.cache, self.limits())->Ok_0,
        )
        &&& plan.lfs_local == component(
            self.lfs_local,
            lfs_local_plan(threshold, self.local_path, self.suffix),
        )
        &&& plan.lfs_cache == component(self.lfs_cache, lfs_cache_plan(threshold, cache))
        &&& plan.aux_cache == aux_cache_plan(cache)
        &&& plan.lfs_remote == (threshold is Some && !(plan.lfs_cache is Absent))
        &&& plan.edenapi == edenapi_component(
            edenapi_wanted(self.override_edenapi, self.edenapi is Some, c)->Ok_0,
            self.edenapi,
        )
        &&& plan.contentstore == if c.read_bool("scmstore"@, "contentstorefallback"@).or(false) {
            self.contentstore
        } else {
            None
        }
        &&& plan.logging_regex == logging_regex_of(compiled)->Ok_0
        &&& plan.allow_write_lfs_ptrs == c.read_bool("scmstore"@, "lfsptrwrites"@).or(false)
        &&& plan.compute_aux_data == c.read_bool("scmstore"@, "compute-aux-data"@).or(true)
        &&& plan.prefetch_aux_data == c.read_bool("scmstore"@, "prefetch-aux-data"@).or(true)
        &&& optional_text(plan.activity_log) == c.text("scmstore"@, "activitylog"@)
        &&& plan.max_prefetch_size == c.read_u64("scmstore"@, "max-prefetch-size"@).or(
            DEFAULT_MAX_PREFETCH_SIZE,
        )
        &&& plan.flush_on_drop
    }

    /// A builder over `config` with nothing supplied and no cache path.
    pub fn new(config: &'a StoreConfig) -> (b: Self)
        ensures
            b == (FileStoreBuilder::<'a, I, L, E, C> {
                config,
                cache: Err(CachePathError::NotSet),
                local_path: None,
                suffix: None,
                override_edenapi: None,
                indexedlog_local: None,
                indexedlog_cache: None,
                lfs_local: None,
                lfs_cache: None,
                edenapi: None,
                contentstore: None,
            }),
    {
        FileStoreBuilder {
            config,
            cache: Err(CachePathError::NotSet),
            local_path: None,
            suffix: None,
            override_edenapi: None,
            indexedlog_local: None,
            indexedlog_cache: None,
            lfs_local: None,
            lfs_cache: None,
            edenapi: None,
            contentstore: None,
        }
    }

    /// Records what the lookup of the cache path came to.
    pub fn cache_path(self, found: Result<String, CachePathError>) -> (b: Self)
        ensures
            b == (FileStoreBuilder { cache: found, ..self }),
    {
        FileStoreBuilder { cache: found, ..self }
    }

    pub fn local_path(self, path: String) -> (b: Self)
        ensures
            b == (FileStoreBuilder { local_path: Some(path), ..self }),
    {
        FileStoreBuilder { local_path: Some(path), ..self }
    }

    pub fn suffix(self, suffix: String) -> (b: Self)
        ensures
            b == (FileStoreBuilder { suffix: Some(suffix), ..self }),
    {
        FileStoreBuilder { suffix: Some(suffix), ..self }
    }

    pub fn override_edenapi(self, use_edenapi: bool) -> (b: Self)
        ensures
            b == (FileStoreBuilder { override_edenapi: Some(use_edenapi), ..self }),
    {
        FileStoreBuilder { override_edenapi: Some(use_edenapi), ..self }
    }

    pub fn edenapi(self, edenapi: E) -> (b: Self)
        ensures
            b == (FileStoreBuilder { edenapi: Some(edenapi), ..self }),
    {
        FileStoreBuilder { edenapi: Some(edenapi), ..self }
    }

    pub fn indexedlog_cache(self, indexedlog: I) -> (b: Self)
        ensures
            b == (FileStoreBuilder { indexedlog_cache: Some(indexedlog), ..self }),
    {
        FileStoreBuilder { indexedlog_cache: Some(indexedlog), ..self }
    }

    pub fn indexedlog_local(self, indexedlog: I) -> (b: Self)
        ensures
            b == (FileStoreBuilder { indexedlog_local: Some(indexedlog), ..self }),
    {
        FileStoreBuilder { indexedlog_local: Some(indexedlog), ..self }
    }

    pub fn lfs_cache(self, lfs_cache: L) -> (b: Self)
        ensures
            b == (FileStoreBuilder { lfs_cache: Some(lfs_cache), ..self }),
    {
        FileStoreBuilder { lfs_cache: Some(lfs_cache), ..self }
    }

    pub fn lfs_local(self, lfs_local: L) -> (b: Self)
        ensures
            b == (FileStoreBuilder { lfs_local: Some(lfs_local), ..self }),
    {
        FileStoreBuilder { lfs_local: Some(lfs_local), ..self }
    }

    pub fn contentstore(self, contentstore: C) -> (b: Self)
        ensures
            b == (FileStoreBuilder { contentstore: Some(contentstore), ..self }),
    {
        FileStoreBuilder { contentstore: Some(contentstore), ..self }
    }

    fn get_extstored_policy(&self) -> (p: ExtStoredPolicy)
        ensures
            p == ExtStoredPolicy::Use,
    {
        ExtStoredPolicy::Use
    }

    fn get_lfs_threshold(&self) -> (r: Result<Option<u64>, BuildError>)
        ensures
            failure_of(r) == lfs_threshold(*self.config),
    {
        let enable_lfs = match get_or_default_bool(self.config, "remotefilelog", "lfs") {
            Ok(b) => b,
            Err(e) => {
                return Err(unreadable(e));
            },
        };
        if enable_lfs {
            match get_opt_byte_count(self.config, "lfs", "threshold") {
                Ok(t) => Ok(t),
                Err(e) => Err(unreadable(e)),
            }
        } else {
            Ok(None)
        }
    }

    fn get_edenapi_retries(&self) -> (n: i32)
        ensures
            n == self.config.read_i32("scmstore"@, "retries"@).or(0),
    {
        match get_or_default_i32(self.config, "scmstore", "retries") {
            Ok(n) => n,
            Err(_) => 0,
        }
    }

    fn use_edenapi(&self) -> (r: Result<bool, BuildError>)
        ensures
            failure_of(r) == edenapi_wanted(
                self.override_edenapi,
                self.edenapi is Some,
                *self.config,
            ),
    {
        read_edenapi_wanted(self.override_edenapi, self.edenapi.is_some(), self.config)
    }

    fn use_lfs(&self) -> (r: Result<bool, BuildError>)
        ensures
            match lfs_threshold(*self.config) {
                Ok(t) => r == Ok::<bool, BuildError>(t is Some),
                Err(f) => r is Err && r->Err_0.spec_kind() == f,
            },
    {
        match self.get_lfs_threshold() {
            Ok(t) => Ok(t.is_some()),
            Err(e) => Err(e),
        }
    }

    /// Plans the permanent indexed log.
    pub fn build_indexedlog_local(&self) -> (r: Option<IndexedLogOpen>)
        ensures
            r == indexedlog_local_plan(self.local_path, self.suffix),
    {
        plan_indexedlog_local(&self.local_path, &self.suffix)
    }

    /// Plans the indexed log cache.
    pub fn build_indexedlog_cache(&self) -> (r: Result<Option<IndexedLogOpen>, BuildError>)
        ensures
            failure_of(r) == indexedlog_cache_plan(self.cache, self.limits()),
    {
        plan_indexedlog_cache(
            self.config,
            &self.cache,
            "data.max-log-count",
            "data.max-bytes-per-log",
            "cachelimit",
        )
    }

    /// Plans the cache for auxiliary data.
    pub fn build_aux_cache(&self) -> (r: Result<Option<AuxOpen>, BuildError>)
        ensures
            match cache_path_of(self.cache) {
                Ok(p) => r == Ok::<Option<AuxOpen>, BuildError>(aux_cache_plan(p)),
                Err(f) => r is Err && r->Err_0.spec_kind() == f,
            },
    {
        match cache_path(&self.cache) {
            Ok(Some(p)) => Ok(
                Some(AuxOpen { location: Location::Cache(p), store_type: StoreType::Rotated }),
            ),
            Ok(None) => Ok(None),
            Err(e) => Err(e),
        }
    }

    /// Plans the permanent store for large files.
    pub fn build_lfs_local(&self) -> (r: Result<Option<LfsOpen>, BuildError>)
        ensures
            match lfs_threshold(*self.config) {
                Ok(t) => r == Ok::<Option<LfsOpen>, BuildError>(
                    lfs_local_plan(t, self.local_path, self.suffix),
                ),
                Err(f) => r is Err && r->Err_0.spec_kind() == f,
            },
    {
        match self.use_lfs() {
            Err(e) => Err(e),
            Ok(false) => Ok(None),
            Ok(true) => match &self.local_path {
                Some(p) => Ok(
                    Some(
                        LfsOpen {
                            location: Location::Local(p.clone(), clone_text(&self.suffix)),
                            store_type: StoreType::Permanent,
                        },
                    ),
                ),
                None => Ok(None),
            },
        }
    }

    /// Plans the cache for large files.
    pub fn build_lfs_cache(&self) -> (r: Result<Option<LfsOpen>, BuildError>)
        ensures
            match lfs_threshold(*self.config) {
                Err(f) => r is Err && r->Err_0.spec_kind() == f,
                Ok(None) => r == Ok::<Option<LfsOpen>, BuildError>(None),
                Ok(Some(t)) => match cache_path_of(self.cache) {
                    Ok(p) => r == Ok::<Option<LfsOpen>, BuildError>(lfs_cache_plan(Some(t), p)),
                    Err(f) => r is Err && r->Err_0.spec_kind() == f,
                },
            },
    {
        match self.use_lfs() {
            Err(e) => Err(e),
            Ok(false) => Ok(None),
            Ok(true) => match cache_path(&self.cache) {
                Ok(Some(p)) => Ok(
                    Some(LfsOpen { location: Location::Cache(p), store_type: StoreType::Rotated }),
                ),
                Ok(None) => Ok(None),
                Err(e) => Err(e),
            },
        }
    }

    /// Settles the plan, given what compiling the pattern for undesired
    /// files came to (nothing where no pattern is set).
    pub fn build_with(self, compiled: Option<Result<regex::Regex, String>>) -> (r: Result<
        FileStorePlan<I, L, E, C>,
        BuildError,
    >)
        ensures
            self.failure(compiled) matches Some(f) ==> r is Err && r->Err_0.spec_kind() == f,
            self.failure(compiled) is None ==> r is Ok && self.planned(compiled, r->Ok_0),
    {
        let check_cache_buster = if self.contentstore.is_none() {
            match cache_path(&self.cache) {
                Ok(p) => p,
                Err(e) => {
                    return Err(e);
                },
            }
        } else {
            None
        };
        let extstored_policy = self.get_extstored_policy();
        let lfs_threshold_bytes = match self.get_lfs_threshold() {
            Ok(t) => t,
            Err(e) => {
                return Err(e);
            },
        };
        let edenapi_retries = self.get_edenapi_retries();
        let open_local = self.build_indexedlog_local();
        let open_cache = if self.indexedlog_cache.is_some() {
            None
        } else {
            match self.build_indexedlog_cache() {
                Ok(o) => o,
                Err(e) => {
                    return Err(e);
                },
            }
        };
        let open_lfs_local = match self.build_lfs_local() {
            Ok(o) => o,
            Err(e) => {
                return Err(e);
            },
        };
        let open_lfs_cache = if self.lfs_cache.is_some() {
            None
        } else {
            match self.build_lfs_cache() {
                Ok(o) => o,
                Err(e) => {
                    return Err(e);
                },
            }
        };
        let aux_cache = match self.build_aux_cache() {
            Ok(o) => o,
            Err(e) => {
                return Err(e);
            },
        };
        let use_edenapi = match self.use_edenapi() {
            Ok(b) => b,
            Err(e) => {
                return Err(e);
            },
        };
        let fallback = match get_or_default_bool(self.config, "scmstore", "contentstorefallback") {
            Ok(b) => b,
            Err(e) => {
                return Err(unreadable(e));
            },
        };
        let logging_regex = match logging_regex(compiled) {
            Ok(r) => r,
            Err(e) => {
                return Err(e);
            },
        };
        let allow_write_lfs_ptrs = match get_or_default_bool(self.config, "scmstore", "lfsptrwrites") {
            Ok(b) => b,
            Err(e) => {
                return Err(unreadable(e));
            },
        };
        let compute_aux_data = match get_or_bool(self.config, "scmstore", "compute-aux-data", true) {
            Ok(b) => b,
            Err(e) => {
                return Err(unreadable(e));
            },
        };
        let prefetch_aux_data = match get_or_bool(
            self.config,
            "scmstore",
            "prefetch-aux-data",
            true,
        ) {
            Ok(b) => b,
            Err(e) => {
                return Err(unreadable(e));
            },
        };
        let activity_log = match get_opt_string(self.config, "scmstore", "activitylog") {
            Ok(p) => p,
            Err(e) => {
                return Err(unreadable(e));
            },
        };
        let max_prefetch_size = match get_or_u64(
            self.config,
            "scmstore",
            "max-prefetch-size",
            DEFAULT_MAX_PREFETCH_SIZE,
        ) {
            Ok(n) => n,
            Err(e) => {
                return Err(unreadable(e));
            },
        };
        let indexedlog_local = settle(self.indexedlog_local, open_local);
        let indexedlog_cache = settle(self.indexedlog_cache, open_cache);
        let lfs_local = settle(self.lfs_local, open_lfs_local);
        let lfs_cache = settle(self.lfs_cache, open_lfs_cache);
        let lfs_remote = lfs_threshold_bytes.is_some() && !matches!(lfs_cache, Component::Absent);
        let edenapi = settle_edenapi(use_edenapi, self.edenapi);
        let contentstore = if fallback {
            self.contentstore
        } else {
            None
        };
        Ok(
            FileStorePlan {
                check_cache_buster,
                extstored_policy,
                lfs_threshold_bytes,
                edenapi_retries,
                allow_write_lfs_ptrs,
                prefetch_aux_data,
                compute_aux_data,
                max_prefetch_size,
                indexedlog_local,
                lfs_local,
                indexedlog_cache,
                lfs_cache,
                edenapi,
                lfs_remote,
                activity_log,
                contentstore,
                logging_regex,
                aux_cache,
                flush_on_drop: true,
            },
        )
    }

    /// Settles the plan. The pattern for undesired files, if one is set, is
    /// compiled on the way; whether it compiles is for the pattern library
    /// to say.
    pub fn build(self) -> (r: Result<FileStorePlan<I, L, E, C>, BuildError>)
        ensures
            self.config.text("remotefilelog"@, "undesiredfileregex"@) is None ==> (match self.failure(
                None,
            ) {
                Some(f) => r is Err && r->Err_0.spec_kind() == f,
                None => r is Ok && self.planned(None, r->Ok_0),
            }),
            r matches Ok(plan) ==> (exists|compiled: Option<Result<regex::Regex, String>>|
                #![trigger self.planned(compiled, plan)]
                self.failure(compiled) is None && self.planned(compiled, plan) && (compiled is Some
                    <==> self.config.text("remotefilelog"@, "undesiredfileregex"@) is Some)),
            r matches Err(e) ==> (exists|compiled: Option<Result<regex::Regex, String>>|
                #![trigger self.failure(compiled)]
                self.failure(compiled) == Some(e.spec_kind()) && (compiled is Some
                    <==> self.config.text("remotefilelog"@, "undesiredfileregex"@) is Some)),
    {
        let pattern = match get_opt_string(self.config, "remotefilelog", "undesiredfileregex") {
            Ok(p) => p,
            Err(e) => {
                return Err(unreadable(e));
            },
        };
        let compiled = compile_logging_regex(&pattern);
        self.build_with(compiled)
    }
}

/// Collects what a tree store is made of. `I` is an indexed log store, `E`
/// a remote client, `C` a fallback store and `F` a file store.
pub struct TreeStoreBuilder<'a, I, E, C, F> {
    pub config: &'a StoreConfig,
    /// What the lookup of the cache path came to.
    pub cache: Result<String, CachePathError>,
    pub local_path: Option<String>,
    pub suffix: Option<String>,
    pub override_edenapi: Option<bool>,
    pub indexedlog_local: Option<I>,
    pub indexedlog_cache: Option<I>,
    pub edenapi: Option<E>,
    pub contentstore: Option<C>,
    pub filestore: Option<F>,
}

/// What a tree store is made of, settled.
pub struct TreeStorePlan<I, E, C, F> {
    /// The cache path to check for a cache reset, if it is to be checked.
    pub check_cache_buster: Option<String>,
    pub indexedlog_local: Component<I, IndexedLogOpen>,
    pub indexedlog_cache: Component<I, IndexedLogOpen>,
    pub cache_to_local_cache: bool,
    pub edenapi: Component<E, FromConfig>,
    pub contentstore: Option<C>,
    pub filestore: Option<F>,
    pub tree_metadata_mode: TreeMetadataMode,
    pub flush_on_drop: bool,
}

impl<'a, I, E, C, F> TreeStoreBuilder<'a, I, E, C, F> {
    /// The limits of the tree cache.
    pub open spec fn limits(self) -> Result<
        crate::store::IndexedLogHgIdDataStoreConfig,
        BuildFailure,
    > {
        cache_limits(
            *self.config,
            "manifest.max-log-count"@,
            "manifest.max-bytes-per-log"@,
            "manifestlimit"@,
        )
    }

    /// Why no plan can be made, if none can.
    pub open spec fn failure(self) -> Option<BuildFailure> {
        let c = *self.config;
        if self.contentstore is None && cache_path_of(self.cache) is Err {
            Some(BuildFailure::CachePath)
        } else if self.indexedlog_cache is None && indexedlog_cache_plan(self.cache, self.limits())
            is Err {
            Some(indexedlog_cache_plan(self.cache, self.limits())->Err_0)
        } else if edenapi_wanted(self.override_edenapi, self.edenapi is Some, c) is Err {
            Some(BuildFailure::Config)
        } else if c.read_bool("scmstore"@, "contentstorefallback"@) is Invalid {
            Some(BuildFailure::Config)
        } else {
            None
        }
    }

    /// `plan` is the plan for this builder, where one can be made.
    pub open spec fn planned(self, plan: TreeStorePlan<I, E, C, F>) -> bool {
        let c = *self.config;
        &&& plan.check_cache_buster == if self.contentstore is None {
            cache_path_of(self.cache)->Ok_0
        } else {
            None
        }
        &&& plan.indexedlog_local == component(
            self.indexedlog_local,
            indexedlog_local_plan(self.local_path, self.suffix),
        )
        &&& plan.indexedlog_cache == component(
            self.indexedlog_cache,
            indexedlog_cache_plan(self.cache, self.limits())->Ok_0,
        )
        &&& plan.cache_to_local_cache
        &&& plan.edenapi == edenapi_component(
            edenapi_wanted(self.override_edenapi, self.edenapi is Some, c)->Ok_0,
            self.edenapi,
        )
        &&& plan.contentstore == if c.read_bool("scmstore"@, "contentstorefallback"@).or(false) {
            self.contentstore
        } else {
            None
        }
        &&& plan.filestore == self.filestore
        &&& plan.tree_metadata_mode == metadata_mode_of(c.text("scmstore"@, "tree-metadata-mode"@))
        &&& plan.flush_on_drop
    }

    /// A builder over `config` with nothing supplied and no cache path.
    pub fn new(config: &'a StoreConfig) -> (b: Self)
        ensures
            b == (TreeStoreBuilder::<'a, I, E, C, F> {
                config,
                cache: Err(CachePathError::NotSet),
                local_path: None,
                suffix: None,
                override_edenapi: None,
                indexedlog_local: None,
                indexedlog_cache: None,
                edenapi: None,
                contentstore: None,
                filestore: None,
            }),
    {
        TreeStoreBuilder {
            config,
            cache: Err(CachePathError::NotSet),
            local_path: None,
            suffix: None,
            override_edenapi: None,
            indexedlog_local: None,
            indexedlog_cache: None,
            edenapi: None,
            contentstore: None,
            filestore: None,
        }
    }

    /// Records what the lookup of the cache path came to.
    pub fn cache_path(self, found: Result<String, CachePathError>) -> (b: Self)
        ensures
            b == (TreeStoreBuilder { cache: found, ..self }),
    {
        TreeStoreBuilder { cache: found, ..self }
    }

    pub fn local_path(self, path: String) -> (b: Self)
        ensures
            b == (TreeStoreBuilder { local_path: Some(path), ..self }),
    {
        TreeStoreBuilder { local_path: Some(path), ..self }
    }

    /// The suffix of the cache path for the indexed log. For trees it is
    /// `manifests`.
    pub fn suffix(self, suffix: String) -> (b: Self)
        ensures
            b == (TreeStoreBuilder { suffix: Some(suffix), ..self }),
    {
        TreeStoreBuilder { suffix: Some(suffix), ..self }
    }

    pub fn edenapi(self, edenapi: E) -> (b: Self)
        ensures
            b == (TreeStoreBuilder { edenapi: Some(edenapi), ..self }),
    {
        TreeStoreBuilder { edenapi: Some(edenapi), ..self }
    }

    pub fn indexedlog_cache(self, indexedlog: I) -> (b: Self)
        ensures
            b == (TreeStoreBuilder { indexedlog_cache: Some(indexedlog), ..self }),
    {
        TreeStoreBuilder { indexedlog_cache: Some(indexedlog), ..self }
    }

    pub fn indexedlog_local(self, indexedlog: I) -> (b: Self)
        ensures
            b == (TreeStoreBuilder { indexedlog_local: Some(indexedlog), ..self }),
    {
        TreeStoreBuilder { indexedlog_local: Some(indexedlog), ..self }
    }

    pub fn contentstore(self, contentstore: C) -> (b: Self)
        ensures
            b == (TreeStoreBuilder { contentstore: Some(contentstore), ..self }),
    {
        TreeStoreBuilder { contentstore: Some(contentstore), ..self }
    }

    pub fn override_edenapi(self, use_edenapi: bool) -> (b: Self)
        ensures
            b == (TreeStoreBuilder { override_edenapi: Some(use_edenapi), ..self }),
    {
        TreeStoreBuilder { override_edenapi: Some(use_edenapi), ..self }
    }

    pub fn filestore(self, filestore: F) -> (b: Self)
        ensures
            b == (TreeStoreBuilder { filestore: Some(filestore), ..self }),
    {
        TreeStoreBuilder { filestore: Some(filestore), ..self }
    }

    fn use_edenapi(&self) -> (r: Result<bool, BuildError>)
        ensures
            failure_of(r) == edenapi_wanted(
                self.override_edenapi,
                self.edenapi is Some,
                *self.config,
            ),
    {
        read_edenapi_wanted(self.override_edenapi, self.edenapi.is_some(), self.config)
    }

    /// Plans the permanent indexed log.
    pub fn build_indexedlog_local(&self) -> (r: Option<IndexedLogOpen>)
        ensures
            r == indexedlog_local_plan(self.local_path, self.suffix),
    {
        plan_indexedlog_local(&self.local_path, &self.suffix)
    }

    /// Plans the indexed log cache.
    pub fn build_indexedlog_cache(&self) -> (r: Result<Option<IndexedLogOpen>, BuildError>)
        ensures
            failure_of(r) == indexedlog_cache_plan(self.cache, self.limits()),
    {
        plan_indexedlog_cache(
            self.config,
            &self.cache,
            "manifest.max-log-count",
            "manifest.max-bytes-per-log",
            "manifestlimit",
        )
    }

    /// Settles the plan.
    pub fn build(self) -> (r: Result<TreeStorePlan<I, E, C, F>, BuildError>)
        ensures
            self.failure() matches Some(f) ==> r is Err && r->Err_0.spec_kind() == f,
            self.failure() is None ==> r is Ok && self.planned(r->Ok_0),
    {
        let check_cache_buster = if self.contentstore.is_none() {
            match cache_path(&self.cache) {
                Ok(p) => p,
                Err(e) => {
                    return Err(e);
                },
            }
        } else {
            None
        };
        let open_local = self.build_indexedlog_local();
        let open_cache = if self.indexedlog_cache.is_some() {
            None
        } else {
            match self.build_indexedlog_cache() {
                Ok(o) => o,
                Err(e) => {
                    return Err(e);
                },
            }
        };
        let use_edenapi = match self.use_edenapi() {
            Ok(b) => b,
            Err(e) => {
                return Err(e);
            },
        };
        let fallback = match get_or_default_bool(self.config, "scmstore", "contentstorefallback") {
            Ok(b) => b,
            Err(e) => {
                return Err(unreadable(e));
            },
        };
        let mode = get_text(self.config, "scmstore", "tree-metadata-mode");
        let tree_metadata_mode = tree_metadata_mode(&mode);
        let indexedlog_local = settle(self.indexedlog_local, open_local);
        let indexedlog_cache = settle(self.indexedlog_cache, open_cache);
        let edenapi = settle_edenapi(use_edenapi, self.edenapi);
        let contentstore = if fallback {
            self.contentstore
        } else {
            None
        };
        Ok(
            TreeStorePlan {
                check_cache_buster,
                indexedlog_local,
                indexedlog_cache,
                cache_to_local_cache: true,
                edenapi,
                contentstore,
                filestore: self.filestore,
                tree_metadata_mode,
                flush_on_drop: true,
            },
        )
    }
}

} // verus!
