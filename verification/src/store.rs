//! Assembling a client store from its configuration.
//!
//! A builder collects what the caller supplies, reads the configuration,
//! and settles on a plan: which parts of the store are taken as supplied,
//! which are opened and where, which are left out, and with which settings.
//! Opening a store on disk is the caller's part.

use vstd::prelude::*;
use vstd::string::StringExecFns;
use crate::config::config_error_text;
use crate::config::get_opt_byte_count;
use crate::config::get_opt_string;
use crate::config::get_opt_u8;
use crate::config::get_or_default_bool;
use crate::config::Reading;
use crate::config::StoreConfig;
use crate::errors::optional_text;

verus! {

/// `regex::Regex`, a compiled pattern. It is carried into the plan unread.
#[verifier::external_type_specification]
#[verifier::external_body]
pub struct ExRegex(regex::Regex);

/// `regex::Error`, the error of compiling a pattern.
#[verifier::external_type_specification]
#[verifier::external_body]
pub struct ExRegexError(regex::Error);

/// `regex::Regex::new`: the compiled pattern, or why it cannot be had.
#[verifier::external_body]
fn compile_regex(pattern: &str) -> (r: Result<regex::Regex, regex::Error>) {
    regex::Regex::new(pattern)
}

/// `ToString::to_string` of `regex::Error`: the error in words.
#[verifier::external_body]
fn regex_error_text(e: &regex::Error) -> (text: String) {
    e.to_string()
}

/// Why a plan cannot be made.
#[derive(Clone, Copy, Debug, PartialEq, Eq, Structural)]
pub enum BuildFailure {
    /// A setting cannot be read.
    Config,
    /// The pattern for undesired files does not compile.
    Regex,
    /// The cache path cannot be determined, for another reason than that
    /// none is set.
    CachePath,
}

/// Why a plan cannot be made, with the words of whoever found out.
#[derive(Clone, Debug, PartialEq, Eq)]
pub enum BuildError {
    Config(String),
    Regex(String),
    CachePath(String),
}

impl BuildError {
    pub open spec fn spec_kind(&self) -> BuildFailure {
        match self {
            BuildError::Config(_) => BuildFailure::Config,
            BuildError::Regex(_) => BuildFailure::Regex,
            BuildError::CachePath(_) => BuildFailure::CachePath,
        }
    }

    #[verifier::when_used_as_spec(spec_kind)]
    pub fn kind(&self) -> (k: BuildFailure)
        ensures
            k == self.spec_kind(),
    {
        match self {
            BuildError::Config(_) => BuildFailure::Config,
            BuildError::Regex(_) => BuildFailure::Regex,
            BuildError::CachePath(_) => BuildFailure::CachePath,
        }
    }
}

/// An outcome without the words of its error.
pub open spec fn failure_of<T>(r: Result<T, BuildError>) -> Result<T, BuildFailure> {
    match r {
        Ok(v) => Ok(v),
        Err(e) => Err(e.spec_kind()),
    }
}

/// The failure for a setting that the configuration could not read. Its
/// words are those of the configuration's error, whatever they are.
pub(crate) fn unreadable(e: configmodel::Error) -> (b: BuildError)
    ensures
        b.spec_kind() == BuildFailure::Config,
{
    unreadable_setting(config_error_text(&e))
}

/// The failure for a setting that cannot be read, with these words.
pub fn unreadable_setting(words: String) -> (b: BuildError)
    ensures
        b == BuildError::Config(words),
{
    BuildError::Config(words)
}

/// Whether a store on disk lives as long as the repository or is rotated
/// out as a cache.
#[derive(Clone, Copy, Debug, PartialEq, Eq, Structural)]
pub enum StoreType {
    Permanent,
    Rotated,
}

/// What to do with pointers to large files that sit in an ordinary store.
#[derive(Clone, Copy, Debug, PartialEq, Eq, Structural)]
pub enum ExtStoredPolicy {
    Use,
    Ignore,
}

/// When tree stores fetch tree metadata.
#[derive(Clone, Copy, Debug, PartialEq, Eq, Structural)]
pub enum TreeMetadataMode {
    Never,
    Always,
    OptIn,
}

/// The limits of an indexed log store.
#[derive(Clone, Copy, Debug, PartialEq, Eq)]
pub struct IndexedLogHgIdDataStoreConfig {
    pub max_log_count: Option<u8>,
    pub max_bytes_per_log: Option<u64>,
    pub max_bytes: Option<u64>,
}

/// Where a store on disk lives.
#[derive(Clone, Debug, PartialEq, Eq)]
pub enum Location {
    /// Under the repository's own path, below the suffix if there is one.
    Local(String, Option<String>),
    /// Under the cache path.
    Cache(String),
}

/// How to open an indexed log store.
#[derive(Clone, Debug, PartialEq, Eq)]
pub struct IndexedLogOpen {
    pub location: Location,
    pub extstored_policy: ExtStoredPolicy,
    pub config: IndexedLogHgIdDataStoreConfig,
    pub store_type: StoreType,
}

/// How to open a store for large files.
#[derive(Clone, Debug, PartialEq, Eq)]
pub struct LfsOpen {
    pub location: Location,
    pub store_type: StoreType,
}

/// How to open the store for auxiliary data.
#[derive(Clone, Debug, PartialEq, Eq)]
pub struct AuxOpen {
    pub location: Location,
    pub store_type: StoreType,
}

/// The remote client is made from the configuration.
#[derive(Clone, Copy, Debug, PartialEq, Eq, Structural)]
pub struct FromConfig;

/// One part of a store, as the plan has it.
#[derive(Clone, Debug, PartialEq, Eq)]
pub enum Component<H, O> {
    /// The caller supplied it.
    Given(H),
    /// It is to be made as described.
    Open(O),
    /// The store does without it.
    Absent,
}

/// The part that was supplied, else the part to be opened, else none.
pub open spec fn component<H, O>(given: Option<H>, open: Option<O>) -> Component<H, O> {
    match given {
        Some(h) => Component::Given(h),
        None => match open {
            Some(o) => Component::Open(o),
            None => Component::Absent,
        },
    }
}

pub(crate) fn settle<H, O>(given: Option<H>, open: Option<O>) -> (c: Component<H, O>)
    ensures
        c == component(given, open),
{
    match given {
        Some(h) => Component::Given(h),
        None => match open {
            Some(o) => Component::Open(o),
            None => Component::Absent,
        },
    }
}

/// Why a cache path was not found.
#[derive(Clone, Debug, PartialEq, Eq)]
pub enum CachePathError {
    /// No cache path is set, for instance because the repository has no
    /// name.
    NotSet,
    /// Anything else, in words.
    Other(String),
}

/// The cache path that was found, none where none is set.
pub open spec fn cache_path_of(found: Result<String, CachePathError>) -> Result<
    Option<String>,
    BuildFailure,
> {
    match found {
        Ok(p) => Ok(Some(p)),
        Err(CachePathError::NotSet) => Ok(None),
        Err(CachePathError::Other(_)) => Err(BuildFailure::CachePath),
    }
}

/// Sorts out a cache path lookup: that no cache path is set is not an
/// error.
pub fn cache_path(found: &Result<String, CachePathError>) -> (r: Result<Option<String>, BuildError>)
    ensures
        failure_of(r) == cache_path_of(*found),
{
    match found {
        Ok(p) => Ok(Some(p.clone())),
        Err(CachePathError::NotSet) => Ok(None),
        Err(CachePathError::Other(m)) => Err(BuildError::CachePath(m.clone())),
    }
}

pub(crate) fn clone_text(t: &Option<String>) -> (c: Option<String>)
    ensures
        c == *t,
{
    match t {
        Some(s) => Some(s.clone()),
        None => None,
    }
}

/// The size from which files are stored as large files, if large files are
/// enabled and a size is set.
pub open spec fn lfs_threshold(c: StoreConfig) -> Result<Option<u64>, BuildFailure> {
    match c.read_bool("remotefilelog"@, "lfs"@) {
        Reading::Invalid => Err(BuildFailure::Config),
        Reading::Value(true) => match c.read_byte_count("lfs"@, "threshold"@) {
            Reading::Invalid => Err(BuildFailure::Config),
            found => Ok(found.optional()),
        },
        _ => Ok(None),
    }
}

/// Whether the configuration asks for the remote client: it has to be
/// switched on, and the repository has to have a default path.
pub open spec fn edenapi_via_config(c: StoreConfig) -> Result<bool, BuildFailure> {
    match c.read_bool("remotefilelog"@, "http"@) {
        Reading::Invalid => Err(BuildFailure::Config),
        Reading::Value(true) => Ok(c.text("paths"@, "default"@) is Some),
        _ => Ok(false),
    }
}

/// Whether to use the remote client: as the caller says; else yes if the
/// caller supplied one; else as the configuration says.
pub open spec fn edenapi_wanted(
    override_edenapi: Option<bool>,
    supplied: bool,
    c: StoreConfig,
) -> Result<bool, BuildFailure> {
    match override_edenapi {
        Some(wanted) => Ok(wanted),
        None => if supplied {
            Ok(true)
        } else {
            edenapi_via_config(c)
        },
    }
}

/// The limits of a cache, from the three settings that hold them.
pub open spec fn cache_limits(
    c: StoreConfig,
    count: Seq<char>,
    bytes_per_log: Seq<char>,
    limit: Seq<char>,
) -> Result<IndexedLogHgIdDataStoreConfig, BuildFailure> {
    if c.read_u8("indexedlog"@, count) is Invalid || c.read_byte_count("indexedlog"@, bytes_per_log)
        is Invalid || c.read_byte_count("remotefilelog"@, limit) is Invalid {
        Err(BuildFailure::Config)
    } else {
        Ok(
            IndexedLogHgIdDataStoreConfig {
                max_log_count: c.read_u8("indexedlog"@, count).optional(),
                max_bytes_per_log: c.read_byte_count("indexedlog"@, bytes_per_log).optional(),
                max_bytes: c.read_byte_count("remotefilelog"@, limit).optional(),
            },
        )
    }
}

/// How to open the permanent indexed log: under the local path, without
/// limits. Without a local path there is none.
pub open spec fn indexedlog_local_plan(
    local_path: Option<String>,
    suffix: Option<String>,
) -> Option<IndexedLogOpen> {
    match local_path {
        Some(p) => Some(
            IndexedLogOpen {
                location: Location::Local(p, suffix),
                extstored_policy: ExtStoredPolicy::Use,
                config: IndexedLogHgIdDataStoreConfig {
                    max_log_count: None,
                    max_bytes_per_log: None,
                    max_bytes: None,
                },
                store_type: StoreType::Permanent,
            },
        ),
        None => None,
    }
}

/// How to open the indexed log cache: under the cache path, with the
/// limits that the configuration sets. Without a cache path there is none.
pub open spec fn indexedlog_cache_plan(
    found: Result<String, CachePathError>,
    limits: Result<IndexedLogHgIdDataStoreConfig, BuildFailure>,
) -> Result<Option<IndexedLogOpen>, BuildFailure> {
    match cache_path_of(found) {
        Err(f) => Err(f),
        Ok(None) => Ok(None),
        Ok(Some(p)) => match limits {
            Err(f) => Err(f),
            Ok(config) => Ok(
                Some(
                    IndexedLogOpen {
                        location: Location::Cache(p),
                        extstored_policy: ExtStoredPolicy::Use,
                        config,
                        store_type: StoreType::Rotated,
                    },
                ),
            ),
        },
    }
}

pub(crate) fn read_cache_limits(c: &StoreConfig, count: &str, bytes_per_log: &str, limit: &str) -> (r: Result<
    IndexedLogHgIdDataStoreConfig,
    BuildError,
>)
    ensures
        failure_of(r) == cache_limits(*c, count@, bytes_per_log@, limit@),
{
    let max_log_count = match get_opt_u8(c, "indexedlog", count) {
        Ok(v) => v,
        Err(e) => {
            return Err(unreadable(e));
        },
    };
    let max_bytes_per_log = match get_opt_byte_count(c, "indexedlog", bytes_per_log) {
        Ok(v) => v,
        Err(e) => {
            return Err(unreadable(e));
        },
    };
    let max_bytes = match get_opt_byte_count(c, "remotefilelog", limit) {
        Ok(v) => v,
        Err(e) => {
            return Err(unreadable(e));
        },
    };
    Ok(IndexedLogHgIdDataStoreConfig { max_log_count, max_bytes_per_log, max_bytes })
}

pub(crate) fn plan_indexedlog_local(local_path: &Option<String>, suffix: &Option<String>) -> (r: Option<
    IndexedLogOpen,
>)
    ensures
        r == indexedlog_local_plan(*local_path, *suffix),
{
    match local_path {
        Some(p) => Some(
            IndexedLogOpen {
                location: Location::Local(p.clone(), clone_text(suffix)),
                extstored_policy: ExtStoredPolicy::Use,
                config: IndexedLogHgIdDataStoreConfig {
                    max_log_count: None,
                    max_bytes_per_log: None,
                    max_bytes: None,
                },
                store_type: StoreType::Permanent,
            },
        ),
        None => None,
    }
}

pub(crate) fn plan_indexedlog_cache(
    c: &StoreConfig,
    found: &Result<String, CachePathError>,
    count: &str,
    bytes_per_log: &str,
    limit: &str,
) -> (r: Result<Option<IndexedLogOpen>, BuildError>)
    ensures
        failure_of(r) == indexedlog_cache_plan(
            *found,
            cache_limits(*c, count@, bytes_per_log@, limit@),
        ),
{
    let path = match cache_path(found) {
        Ok(Some(p)) => p,
        Ok(None) => {
            return Ok(None);
        },
        Err(e) => {
            return Err(e);
        },
    };
    match read_cache_limits(c, count, bytes_per_log, limit) {
        Err(e) => Err(e),
        Ok(config) => Ok(
            Some(
                IndexedLogOpen {
                    location: Location::Cache(path),
                    extstored_policy: ExtStoredPolicy::Use,
                    config,
                    store_type: StoreType::Rotated,
                },
            ),
        ),
    }
}

pub(crate) fn read_edenapi_via_config(c: &StoreConfig) -> (r: Result<bool, BuildError>)
    ensures
        failure_of(r) == edenapi_via_config(*c),
{
    let mut use_edenapi = match get_or_default_bool(c, "remotefilelog", "http") {
        Ok(b) => b,
        Err(e) => {
            return Err(unreadable(e));
        },
    };
    if use_edenapi {
        match get_opt_string(c, "paths", "default") {
            Ok(path) => {
                if path.is_none() {
                    use_edenapi = false;
                }
            },
            Err(e) => {
                return Err(unreadable(e));
            },
        }
    }
    Ok(use_edenapi)
}

/// Says whether the configuration asks for the remote client.
pub fn use_edenapi_via_config(c: &StoreConfig) -> (r: Result<bool, BuildError>)
    ensures
        failure_of(r) == edenapi_via_config(*c),
{
    read_edenapi_via_config(c)
}

pub(crate) fn read_edenapi_wanted(override_edenapi: Option<bool>, supplied: bool, c: &StoreConfig) -> (r:
    Result<bool, BuildError>)
    ensures
        failure_of(r) == edenapi_wanted(override_edenapi, supplied, *c),
{
    match override_edenapi {
        Some(wanted) => Ok(wanted),
        None => if supplied {
            Ok(true)
        } else {
            read_edenapi_via_config(c)
        },
    }
}

/// The remote client of a plan: none unless wanted; the supplied one if
/// there is one; else one made from the configuration.
pub open spec fn edenapi_component<E>(wanted: bool, supplied: Option<E>) -> Component<
    E,
    FromConfig,
> {
    if wanted {
        match supplied {
            Some(e) => Component::Given(e),
            None => Component::Open(FromConfig),
        }
    } else {
        Component::Absent
    }
}

pub(crate) fn settle_edenapi<E>(wanted: bool, supplied: Option<E>) -> (c: Component<E, FromConfig>)
    ensures
        c == edenapi_component(wanted, supplied),
{
    if wanted {
        match supplied {
            Some(e) => Component::Given(e),
            None => Component::Open(FromConfig),
        }
    } else {
        Component::Absent
    }
}

/// The mode that a setting names: `always`, `opt-in` (also where nothing is
/// set), and never for anything else.
pub open spec fn metadata_mode_of(text: Option<Seq<char>>) -> TreeMetadataMode {
    match text {
        None => TreeMetadataMode::OptIn,
        Some(t) => if t == "always"@ {
            TreeMetadataMode::Always
        } else if t == "opt-in"@ {
            TreeMetadataMode::OptIn
        } else {
            TreeMetadataMode::Never
        },
    }
}

/// Reads the tree metadata mode off the text of its setting.
pub fn tree_metadata_mode(text: &Option<String>) -> (mode: TreeMetadataMode)
    ensures
        mode == metadata_mode_of(optional_text(*text)),
{
    match text {
        None => TreeMetadataMode::OptIn,
        Some(t) => {
            if *t == String::from_str("always") {
                TreeMetadataMode::Always
            } else if *t == String::from_str("opt-in") {
                TreeMetadataMode::OptIn
            } else {
                TreeMetadataMode::Never
            }
        },
    }
}

/// What becomes of the pattern for undesired files: none where none is
/// set, the compiled pattern where it compiled, a failure where it did not.
pub open spec fn logging_regex_of(compiled: Option<Result<regex::Regex, String>>) -> Result<
    Option<regex::Regex>,
    BuildFailure,
> {
    match compiled {
        None => Ok(None),
        Some(Ok(r)) => Ok(Some(r)),
        Some(Err(_)) => Err(BuildFailure::Regex),
    }
}

/// Settles the pattern for undesired files once it has been compiled.
pub fn logging_regex(compiled: Option<Result<regex::Regex, String>>) -> (r: Result<
    Option<regex::Regex>,
    BuildError,
>)
    ensures
        failure_of(r) == logging_regex_of(compiled),
{
    match compiled {
        None => Ok(None),
        Some(Ok(r)) => Ok(Some(r)),
        Some(Err(m)) => Err(BuildError::Regex(m)),
    }
}

pub(crate) fn compile_logging_regex(pattern: &Option<String>) -> (compiled: Option<
    Result<regex::Regex, String>,
>)
    ensures
        compiled is Some <==> pattern is Some,
{
    match pattern {
        None => None,
        Some(p) => match compile_regex(p.as_str()) {
            Ok(r) => Some(Ok(r)),
            Err(e) => Some(Err(regex_error_text(&e))),
        },
    }
}

} // verus!
