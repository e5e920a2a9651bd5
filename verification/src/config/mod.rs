//! The token settings and the server's configuration sources.
use vstd::prelude::*;
use rocket::figment::Figment;
use rocket::figment::providers::{Format, Serialized, Toml};

verus! {

/// The login token settings: the header that carries the token, the signing
/// key, and how long a token lasts, in seconds.
#[derive(Debug, Clone, PartialEq, Eq)]
pub struct TokenInfo {
    pub token_field: String,
    pub token_key: String,
    pub exp: u64,
}

/// One week, in seconds.
pub open spec fn one_week() -> u64 {
    604800
}

impl Default for TokenInfo {
    fn default() -> (r: Self)
        ensures
            r.token_field@ == "_token"@,
            r.token_key@ == "xiyuxx"@,
            r.exp == one_week(),
    {
        Self {
            token_field: String::from_str("_token"),
            token_key: String::from_str("xiyuxx"),
            exp: 24 * 60 * 60 * 7,
        }
    }
}

/// `figment::Figment` (through rocket), held opaque: what it holds is spoken
/// of only through the two names below.
#[verifier::external_type_specification]
#[verifier::external_body]
pub struct ExFigment(Figment);

/// The text values of the default profile of a figment's configuration, by
/// key; `None` where a provider merged into it failed.
pub uninterp spec fn figment_default_texts(figment: Figment) -> Option<Map<Seq<char>, Seq<char>>>;

/// The numeric values of the default profile of a figment's configuration,
/// by key; `None` where a provider merged into it failed.
pub uninterp spec fn figment_default_numbers(figment: Figment) -> Option<Map<Seq<char>, int>>;

/// Calls `Figment::from(rocket::Config::default())`: Rocket's built-in
/// settings. Nothing is stated of what they hold.
#[verifier::external_body]
fn rocket_default_figment() -> (r: Figment) {
    Figment::from(rocket::Config::default())
}

/// Merges `Toml::file(path).nested()` into the figment: the settings of the
/// file, by profile, where it exists. What the file holds is read from disk
/// when the call is made, so nothing is stated of the result.
#[verifier::external_body]
fn merge_toml_file(figment: Figment, path: &str) -> (r: Figment) {
    figment.merge(Toml::file(path).nested())
}

/// Merges `Serialized::default(key, value)` into the figment: `key` (a key
/// without dots) takes the text `value` in the default profile, replacing what
/// it held; other keys keep theirs. A figment that holds a failure keeps it.
#[verifier::external_body]
fn merge_default_text(figment: Figment, key: &str, value: &str) -> (r: Figment)
    requires
        key@.len() > 0,
        forall|i: int| 0 <= i < key@.len() ==> key@[i] != '.',
    ensures
        figment_default_texts(r) == match figment_default_texts(figment) {
            Some(m) => Some(m.insert(key@, value@)),
            None => None::<Map<Seq<char>, Seq<char>>>,
        },
        figment_default_numbers(r) == match figment_default_numbers(figment) {
            Some(m) => Some(m.remove(key@)),
            None => None::<Map<Seq<char>, int>>,
        },
{
    figment.merge(Serialized::default(key, value))
}

/// Merges `Serialized::default(key, value)` into the figment for a number:
/// `key` (a key without dots) takes the number `value` in the default
/// profile; other keys keep theirs. A figment that holds a failure keeps it.
#[verifier::external_body]
fn merge_default_number(figment: Figment, key: &str, value: u64) -> (r: Figment)
    requires
        key@.len() > 0,
        forall|i: int| 0 <= i < key@.len() ==> key@[i] != '.',
    ensures
        figment_default_numbers(r) == match figment_default_numbers(figment) {
            Some(m) => Some(m.insert(key@, value as int)),
            None => None::<Map<Seq<char>, int>>,
        },
        figment_default_texts(r) == match figment_default_texts(figment) {
            Some(m) => Some(m.remove(key@)),
            None => None::<Map<Seq<char>, Seq<char>>>,
        },
{
    figment.merge(Serialized::default(key, value))
}

/// The server's configuration: Rocket's defaults, then `Rocket.toml`, then the
/// token defaults, each later source winning over the earlier ones in the
/// default profile.
pub fn get_custom_figment() -> (r: Figment)
    ensures
        figment_default_texts(r) matches Some(m) ==> {
            &&& m.contains_key("token_field"@) && m["token_field"@] == "_token"@
            &&& m.contains_key("token_key"@) && m["token_key"@] == "xiyuxx"@
            &&& !m.contains_key("exp"@)
        },
        figment_default_numbers(r) matches Some(n) ==> {
            &&& n.contains_key("exp"@) && n["exp"@] == one_week() as int
            &&& !n.contains_key("token_field"@) && !n.contains_key("token_key"@)
        },
{
    let defaults = TokenInfo::default();
    proof {
        reveal_strlit("token_field");
        reveal_strlit("token_key");
        reveal_strlit("exp");
    }
    let figment = rocket_default_figment();
    let figment = merge_toml_file(figment, "Rocket.toml");
    let ghost texts = figment_default_texts(figment);
    let ghost numbers = figment_default_numbers(figment);
    let figment = merge_default_text(figment, "token_field", defaults.token_field.as_str());
    let figment = merge_default_text(figment, "token_key", defaults.token_key.as_str());
    let figment = merge_default_number(figment, "exp", defaults.exp);
    proof {
        assert("token_field"@.len() != "exp"@.len());
        assert("token_key"@.len() != "exp"@.len());
        assert("token_field"@.len() != "token_key"@.len());
        if let Some(m) = texts {
            let m3 = m.insert("token_field"@, "_token"@).insert("token_key"@, "xiyuxx"@).remove("exp"@);
            assert(figment_default_texts(figment) == Some(m3));
        }
        if let Some(n) = numbers {
            let n3 = n.remove("token_field"@).remove("token_key"@).insert("exp"@, one_week() as int);
            assert(figment_default_numbers(figment) == Some(n3));
        }
    }
    figment
}

} // verus!
