//! YAML, read and written by `serde_yaml`. Nothing here is proved: each
//! function makes one call, and its contract names what the call returns.

use crate::config::{distinct_names, pair_texts};
use crate::text::texts;
use vstd::prelude::*;

verus! {

/// The error of `serde_yaml`.
#[verifier::external_type_specification]
#[verifier::external_body]
pub struct ExYamlError(serde_yaml::Error);

/// The list of strings that a YAML text stands for, where it stands for one:
/// what `serde_yaml::from_str::<Vec<String>>` reads from it.
pub uninterp spec fn yaml_list_of(raw: Seq<char>) -> Option<Seq<Seq<char>>>;

/// The pairs of strings that a YAML text stands for, where it is a mapping of
/// strings: what `serde_yaml::from_str::<BTreeMap<String, String>>` reads from
/// it, walked from the least key on.
pub uninterp spec fn yaml_map_of(raw: Seq<char>) -> Option<Seq<(Seq<char>, Seq<char>)>>;

/// The keys of the mapping that a YAML text stands for, where it stands for
/// one: what `serde_yaml::from_str::<Value>` reads from it. A key that is no
/// string is `None`.
pub uninterp spec fn yaml_keys_of(content: Seq<char>) -> Option<Seq<Option<Seq<char>>>>;

/// The YAML text of a list of strings, where there is one: what
/// `serde_yaml::to_string` makes of a `Vec<String>`.
pub uninterp spec fn yaml_text_of_list(list: Seq<Seq<char>>) -> Option<Seq<char>>;

/// The YAML text of a mapping of strings, given as its pairs, where there is
/// one: what `serde_yaml::to_string` makes of the `BTreeMap<String, String>`
/// that holds the pairs.
pub uninterp spec fn yaml_text_of_map(pairs: Seq<(Seq<char>, Seq<char>)>) -> Option<Seq<char>>;

/// The views of a sequence of optional strings.
pub open spec fn optional_texts(v: Seq<Option<String>>) -> Seq<Option<Seq<char>>> {
    Seq::new(
        v.len(),
        |i: int|
            match v[i] {
                Some(s) => Some(s@),
                None => None,
            },
    )
}

/// `serde_yaml::from_str` for a `Vec<String>`. The result depends on the text
/// alone; the contract names it and says that success and failure go by it.
#[verifier::external_body]
pub(crate) fn read_list(raw: &str) -> (result: Result<Vec<String>, serde_yaml::Error>)
    ensures
        match result {
            Ok(list) => yaml_list_of(raw@) == Some(texts(list@)),
            Err(_) => yaml_list_of(raw@).is_none(),
        },
{
    serde_yaml::from_str::<Vec<String>>(raw)
}

/// `serde_yaml::from_str` for a map of strings, its pairs handed out in the
/// order of their keys. The result depends on the text alone; the contract
/// names it and says that success and failure go by it.
#[verifier::external_body]
pub(crate) fn read_map(raw: &str) -> (result: Result<Vec<(String, String)>, serde_yaml::Error>)
    ensures
        match result {
            Ok(pairs) => yaml_map_of(raw@) == Some(pair_texts(pairs@)),
            Err(_) => yaml_map_of(raw@).is_none(),
        },
{
    serde_yaml::from_str::<std::collections::BTreeMap<String, String>>(raw).map(
        |map| map.into_iter().collect(),
    )
}

/// `serde_yaml::from_str` for a `Value`, of which the keys are handed out
/// where it is a mapping. The result depends on the text alone; the contract
/// names it.
#[verifier::external_body]
pub(crate) fn read_keys(content: &str) -> (keys: Option<Vec<Option<String>>>)
    ensures
        match keys {
            Some(keys) => yaml_keys_of(content@) == Some(optional_texts(keys@)),
            None => yaml_keys_of(content@).is_none(),
        },
{
    match serde_yaml::from_str::<serde_yaml::Value>(content) {
        Ok(serde_yaml::Value::Mapping(mapping)) => Some(
            mapping.keys().map(|key| key.as_str().map(|s| s.to_string())).collect(),
        ),
        _ => None,
    }
}

/// `serde_yaml::to_string` of a `Vec<String>`. The result depends on the list
/// alone; the contract names it and says that success and failure go by it.
#[verifier::external_body]
pub(crate) fn write_list(list: &Vec<String>) -> (result: Result<String, serde_yaml::Error>)
    ensures
        match result {
            Ok(text) => yaml_text_of_list(texts(list@)) == Some(text@),
            Err(_) => yaml_text_of_list(texts(list@)).is_none(),
        },
{
    serde_yaml::to_string(list)
}

/// `serde_yaml::to_string` of a map of strings. The pairs have a name each,
/// so the map holds them all. The result depends on the pairs alone; the
/// contract names it and says that success and failure go by it.
#[verifier::external_body]
pub(crate) fn write_map(pairs: &Vec<(String, String)>) -> (result: Result<
    String,
    serde_yaml::Error,
>)
    requires
        distinct_names(pair_texts(pairs@)),
    ensures
        match result {
            Ok(text) => yaml_text_of_map(pair_texts(pairs@)) == Some(text@),
            Err(_) => yaml_text_of_map(pair_texts(pairs@)).is_none(),
        },
{
    let map: std::collections::BTreeMap<String, String> = pairs.iter().cloned().collect();
    serde_yaml::to_string(&map)
}

/// What the error says: its `Display` of `serde_yaml`. Nothing is claimed of
/// the text.
#[verifier::external_body]
pub(crate) fn error_text(error: &serde_yaml::Error) -> String {
    error.to_string()
}

} // verus!
