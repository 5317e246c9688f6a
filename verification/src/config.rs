//! Reading typed settings from a configuration.
//!
//! The configuration itself, and the rules by which a text is read as a
//! flag, a number or a byte count, belong to the `configmodel` crate. What
//! is believed of them is stated here, at the items that call into it.

use vstd::prelude::*;
use std::collections::BTreeMap;

verus! {

/// A configuration: texts filed under a section and a name.
pub struct StoreConfig {
    values: BTreeMap<String, String>,
}

/// `configmodel::Error`, the error of reading a setting.
#[verifier::external_type_specification]
#[verifier::external_body]
pub struct ExConfigError(configmodel::Error);

/// The key under which a setting is filed: its section, a dot, its name.
pub open spec fn dotted(section: Seq<char>, name: Seq<char>) -> Seq<char> {
    section + seq!['.'] + name
}

/// The flag that a text is read as, if it can be read as one.
pub uninterp spec fn parsed_bool(text: Seq<char>) -> Option<bool>;

/// The number of bytes that a text such as `10 MB` is read as, if it can be
/// read.
pub uninterp spec fn parsed_byte_count(text: Seq<char>) -> Option<u64>;

/// The number that a text is read as, if it is a number that fits.
pub uninterp spec fn parsed_i32(text: Seq<char>) -> Option<i32>;

/// The number that a text is read as, if it is a number that fits.
pub uninterp spec fn parsed_u8(text: Seq<char>) -> Option<u8>;

/// The number that a text is read as, if it is a number that fits.
pub uninterp spec fn parsed_u64(text: Seq<char>) -> Option<u64>;

/// What reading a setting comes to.
pub enum Reading<T> {
    /// The configuration holds no such setting.
    Unset,
    /// The setting is there and reads as this.
    Value(T),
    /// The setting is there and cannot be read.
    Invalid,
}

impl<T> Reading<T> {
    /// The value read, or `default` where the setting is not there.
    pub open spec fn or(self, default: T) -> T {
        match self {
            Reading::Value(v) => v,
            _ => default,
        }
    }

    /// The value read, if the setting is there.
    pub open spec fn optional(self) -> Option<T> {
        match self {
            Reading::Value(v) => Some(v),
            _ => None,
        }
    }
}

impl StoreConfig {
    /// The texts that the configuration holds, each under its key.
    pub closed spec fn entries(self) -> Map<Seq<char>, Seq<char>> {
        self.values.deep_view()
    }

    /// The text filed under `section` and `name`, if there is one.
    pub open spec fn text(self, section: Seq<char>, name: Seq<char>) -> Option<Seq<char>> {
        if self.entries().contains_key(dotted(section, name)) {
            Some(self.entries()[dotted(section, name)])
        } else {
            None
        }
    }

    pub open spec fn read_bool(self, section: Seq<char>, name: Seq<char>) -> Reading<bool> {
        match self.text(section, name) {
            None => Reading::Unset,
            Some(t) => match parsed_bool(t) {
                Some(v) => Reading::Value(v),
                None => Reading::Invalid,
            },
        }
    }

    pub open spec fn read_byte_count(self, section: Seq<char>, name: Seq<char>) -> Reading<u64> {
        match self.text(section, name) {
            None => Reading::Unset,
            Some(t) => match parsed_byte_count(t) {
                Some(v) => Reading::Value(v),
                None => Reading::Invalid,
            },
        }
    }

    pub open spec fn read_i32(self, section: Seq<char>, name: Seq<char>) -> Reading<i32> {
        match self.text(section, name) {
            None => Reading::Unset,
            Some(t) => match parsed_i32(t) {
                Some(v) => Reading::Value(v),
                None => Reading::Invalid,
            },
        }
    }

    pub open spec fn read_u8(self, section: Seq<char>, name: Seq<char>) -> Reading<u8> {
        match self.text(section, name) {
            None => Reading::Unset,
            Some(t) => match parsed_u8(t) {
                Some(v) => Reading::Value(v),
                None => Reading::Invalid,
            },
        }
    }

    pub open spec fn read_u64(self, section: Seq<char>, name: Seq<char>) -> Reading<u64> {
        match self.text(section, name) {
            None => Reading::Unset,
            Some(t) => match parsed_u64(t) {
                Some(v) => Reading::Value(v),
                None => Reading::Invalid,
            },
        }
    }

    /// A configuration over a map whose keys are a section, a dot and a
    /// name.
    pub fn new(values: BTreeMap<String, String>) -> (c: StoreConfig)
        ensures
            c.entries() == values.deep_view(),
    {
        StoreConfig { values }
    }
}

/// `configmodel::Config::get`: the text of a setting, or nothing where the
/// setting does not exist.
#[verifier::external_body]
pub(crate) fn get_text(c: &StoreConfig, section: &str, name: &str) -> (r: Option<String>)
    ensures
        r is Some <==> c.entries().contains_key(dotted(section@, name@)),
        r is Some ==> r->Some_0@ == c.entries()[dotted(section@, name@)],
{
    configmodel::Config::get(&c.values, section, name).map(|t| t.to_string())
}

/// `configmodel::ConfigExt::get_opt` for a `String`: the text of a setting
/// as it stands. It never fails.
#[verifier::external_body]
pub(crate) fn get_opt_string(c: &StoreConfig, section: &str, name: &str) -> (r: Result<
    Option<String>,
    configmodel::Error,
>)
    ensures
        r is Ok,
        r->Ok_0 is Some <==> c.entries().contains_key(dotted(section@, name@)),
        r->Ok_0 is Some ==> r->Ok_0->Some_0@ == c.entries()[dotted(section@, name@)],
{
    configmodel::ConfigExt::get_opt::<String>(&c.values, section, name)
}

/// `configmodel::ConfigExt::get_or_default` for a `bool`: the flag that the
/// setting reads as, `false` where the setting does not exist, an error
/// where it cannot be read.
#[verifier::external_body]
pub(crate) fn get_or_default_bool(c: &StoreConfig, section: &str, name: &str) -> (r: Result<
    bool,
    configmodel::Error,
>)
    ensures
        !c.entries().contains_key(dotted(section@, name@)) ==> (r is Ok && r->Ok_0 == false),
        (c.entries().contains_key(dotted(section@, name@)) && parsed_bool(c.entries()[dotted(section@, name@)]) is Some) ==> (r is Ok
            && r->Ok_0 == parsed_bool(c.entries()[dotted(section@, name@)])->Some_0),
        (c.entries().contains_key(dotted(section@, name@)) && parsed_bool(c.entries()[dotted(section@, name@)]) is None) ==> (r is Err),
{
    configmodel::ConfigExt::get_or_default::<bool>(&c.values, section, name)
}

/// `configmodel::ConfigExt::get_or` for a `bool`: the flag that the setting
/// reads as, `default` where the setting does not exist, an error where it
/// cannot be read.
#[verifier::external_body]
pub(crate) fn get_or_bool(c: &StoreConfig, section: &str, name: &str, default: bool) -> (r: Result<
    bool,
    configmodel::Error,
>)
    ensures
        !c.entries().contains_key(dotted(section@, name@)) ==> (r is Ok && r->Ok_0 == default),
        (c.entries().contains_key(dotted(section@, name@)) && parsed_bool(c.entries()[dotted(section@, name@)]) is Some) ==> (r is Ok
            && r->Ok_0 == parsed_bool(c.entries()[dotted(section@, name@)])->Some_0),
        (c.entries().contains_key(dotted(section@, name@)) && parsed_bool(c.entries()[dotted(section@, name@)]) is None) ==> (r is Err),
{
    configmodel::ConfigExt::get_or::<bool>(&c.values, section, name, move || default)
}

/// `configmodel::ConfigExt::get_or` for a `u64`: the number that the
/// setting reads as, `default` where the setting does not exist, an error
/// where it cannot be read.
#[verifier::external_body]
pub(crate) fn get_or_u64(c: &StoreConfig, section: &str, name: &str, default: u64) -> (r: Result<
    u64,
    configmodel::Error,
>)
    ensures
        !c.entries().contains_key(dotted(section@, name@)) ==> (r is Ok && r->Ok_0 == default),
        (c.entries().contains_key(dotted(section@, name@)) && parsed_u64(c.entries()[dotted(section@, name@)]) is Some) ==> (r is Ok
            && r->Ok_0 == parsed_u64(c.entries()[dotted(section@, name@)])->Some_0),
        (c.entries().contains_key(dotted(section@, name@)) && parsed_u64(c.entries()[dotted(section@, name@)]) is None) ==> (r is Err),
{
    configmodel::ConfigExt::get_or::<u64>(&c.values, section, name, move || default)
}

/// `configmodel::ConfigExt::get_or_default` for an `i32`: the number that
/// the setting reads as, zero where the setting does not exist, an error
/// where it cannot be read.
#[verifier::external_body]
pub(crate) fn get_or_default_i32(c: &StoreConfig, section: &str, name: &str) -> (r: Result<
    i32,
    configmodel::Error,
>)
    ensures
        !c.entries().contains_key(dotted(section@, name@)) ==> (r is Ok && r->Ok_0 == 0i32),
        (c.entries().contains_key(dotted(section@, name@)) && parsed_i32(c.entries()[dotted(section@, name@)]) is Some) ==> (r is Ok
            && r->Ok_0 == parsed_i32(c.entries()[dotted(section@, name@)])->Some_0),
        (c.entries().contains_key(dotted(section@, name@)) && parsed_i32(c.entries()[dotted(section@, name@)]) is None) ==> (r is Err),
{
    configmodel::ConfigExt::get_or_default::<i32>(&c.values, section, name)
}

/// `configmodel::ConfigExt::get_opt` for a `u8`: the number that the setting
/// reads as, nothing where the setting does not exist, an error where it
/// cannot be read.
#[verifier::external_body]
pub(crate) fn get_opt_u8(c: &StoreConfig, section: &str, name: &str) -> (r: Result<
    Option<u8>,
    configmodel::Error,
>)
    ensures
        !c.entries().contains_key(dotted(section@, name@)) ==> (r is Ok && r->Ok_0 == None::<u8>),
        (c.entries().contains_key(dotted(section@, name@)) && parsed_u8(c.entries()[dotted(section@, name@)]) is Some) ==> (r is Ok
            && r->Ok_0 == Some(parsed_u8(c.entries()[dotted(section@, name@)])->Some_0)),
        (c.entries().contains_key(dotted(section@, name@)) && parsed_u8(c.entries()[dotted(section@, name@)]) is None) ==> (r is Err),
{
    configmodel::ConfigExt::get_opt::<u8>(&c.values, section, name)
}

/// `configmodel::ConfigExt::get_opt` for a `ByteCount`, with
/// `ByteCount::value` on what it finds: the number of bytes that the setting
/// reads as, nothing where the setting does not exist, an error where it
/// cannot be read.
#[verifier::external_body]
pub(crate) fn get_opt_byte_count(c: &StoreConfig, section: &str, name: &str) -> (r: Result<
    Option<u64>,
    configmodel::Error,
>)
    ensures
        !c.entries().contains_key(dotted(section@, name@)) ==> (r is Ok && r->Ok_0 == None::<u64>),
        (c.entries().contains_key(dotted(section@, name@)) && parsed_byte_count(c.entries()[dotted(section@, name@)]) is Some) ==> (r is Ok
            && r->Ok_0 == Some(parsed_byte_count(c.entries()[dotted(section@, name@)])->Some_0)),
        (c.entries().contains_key(dotted(section@, name@)) && parsed_byte_count(c.entries()[dotted(section@, name@)]) is None) ==> (r is Err),
{
    let found = configmodel::ConfigExt::get_opt::<configmodel::convert::ByteCount>(
        &c.values,
        section,
        name,
    );
    found.map(|count| count.map(|bytes| bytes.value()))
}

/// `ToString::to_string` of `configmodel::Error`: the error in words.
#[verifier::external_body]
pub(crate) fn config_error_text(e: &configmodel::Error) -> (text: String) {
    e.to_string()
}

} // verus!
