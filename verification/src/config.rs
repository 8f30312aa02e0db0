//! The persisted configuration and the rules by which its values are set.

use crate::cli::{mode_name, ConfigKey, Mode};
use crate::text::{end_trimmed, equal, first_index_of, join, joined, lowercase, lowercase_of,
    names_of, requested_names, split, split_on, split_once, texts, trim, trim_end, trimmed};
use crate::yaml::{error_text, read_list, read_map, write_list, write_map, yaml_list_of,
    yaml_map_of, yaml_text_of_list, yaml_text_of_map};
use vstd::prelude::*;

verus! {

/// The name of the configuration file under the repository root.
pub const CONFIG_FILE: &'static str = ".oavc";

/// The image of the generator where none is configured.
pub const DEFAULT_GENERATOR_IMAGE: &'static str = "openapitools/openapi-generator-cli:v7.17.0";

/// The image of the linter where none is configured.
pub const DEFAULT_REDOCLY_IMAGE: &'static str = "redocly/cli:1.25.5";

/// What a run is configured to do.
#[derive(Debug)]
pub struct Config {
    pub spec: Option<String>,
    pub mode: Mode,
    pub lint: bool,
    pub generate: bool,
    pub compile: bool,
    pub server_generators: Vec<String>,
    pub client_generators: Vec<String>,
    /// Generator name and the path of its own configuration, as pairs: a map
    /// with `String` keys has no model that contracts could speak of. A name
    /// counts once: where it stands more than once, its last pair holds.
    pub generator_overrides: Vec<(String, String)>,
    pub generator_image: String,
    pub redocly_image: String,
}

/// The text of a `Config`.
pub struct ConfigView {
    pub spec: Option<Seq<char>>,
    pub mode: Mode,
    pub lint: bool,
    pub generate: bool,
    pub compile: bool,
    pub server_generators: Seq<Seq<char>>,
    pub client_generators: Seq<Seq<char>>,
    pub generator_overrides: Seq<(Seq<char>, Seq<char>)>,
    pub generator_image: Seq<char>,
    pub redocly_image: Seq<char>,
}

/// The view of an optional string.
pub open spec fn optional_text(s: Option<String>) -> Option<Seq<char>> {
    match s {
        Some(s) => Some(s@),
        None => None,
    }
}

/// The views of a sequence of pairs.
pub open spec fn pair_texts(pairs: Seq<(String, String)>) -> Seq<(Seq<char>, Seq<char>)> {
    Seq::new(pairs.len(), |i: int| (pairs[i].0@, pairs[i].1@))
}

impl View for Config {
    type V = ConfigView;

    open spec fn view(&self) -> ConfigView {
        ConfigView {
            spec: optional_text(self.spec),
            mode: self.mode,
            lint: self.lint,
            generate: self.generate,
            compile: self.compile,
            server_generators: texts(self.server_generators@),
            client_generators: texts(self.client_generators@),
            generator_overrides: pair_texts(self.generator_overrides@),
            generator_image: self.generator_image@,
            redocly_image: self.redocly_image@,
        }
    }
}

/// The configuration of a repository that has none: every stage on, server
/// mode, all generators, the default images.
pub open spec fn default_config() -> ConfigView {
    ConfigView {
        spec: None,
        mode: Mode::Server,
        lint: true,
        generate: true,
        compile: true,
        server_generators: Seq::empty(),
        client_generators: Seq::empty(),
        generator_overrides: Seq::empty(),
        generator_image: DEFAULT_GENERATOR_IMAGE@,
        redocly_image: DEFAULT_REDOCLY_IMAGE@,
    }
}

impl Default for Config {
    fn default() -> (config: Config)
        ensures
            config@ == default_config(),
    {
        let config = Config {
            spec: None,
            mode: Mode::Server,
            lint: true,
            generate: true,
            compile: true,
            server_generators: Vec::new(),
            client_generators: Vec::new(),
            generator_overrides: Vec::new(),
            generator_image: String::from_str(DEFAULT_GENERATOR_IMAGE),
            redocly_image: String::from_str(DEFAULT_REDOCLY_IMAGE),
        };
        assert(config@.server_generators =~= Seq::empty());
        assert(config@.client_generators =~= Seq::empty());
        assert(config@.generator_overrides =~= Seq::empty());
        config
    }
}

/// A value of the configuration that can be set and shown by name.
#[derive(Clone, Copy, Debug, PartialEq, Eq, Structural)]
pub enum Field {
    Spec,
    Mode,
    Lint,
    Generate,
    Compile,
    ServerGenerators,
    ClientGenerators,
    GeneratorOverrides,
    GeneratorImage,
    RedoclyImage,
}

/// The field that a name stands for. The names of more than one word are
/// taken with `_` and with `-`.
pub open spec fn field_of(name: Seq<char>) -> Option<Field> {
    if name == "spec"@ {
        Some(Field::Spec)
    } else if name == "mode"@ {
        Some(Field::Mode)
    } else if name == "lint"@ {
        Some(Field::Lint)
    } else if name == "generate"@ {
        Some(Field::Generate)
    } else if name == "compile"@ {
        Some(Field::Compile)
    } else if name == "server_generators"@ || name == "server-generators"@ {
        Some(Field::ServerGenerators)
    } else if name == "client_generators"@ || name == "client-generators"@ {
        Some(Field::ClientGenerators)
    } else if name == "generator_overrides"@ || name == "generator-overrides"@ {
        Some(Field::GeneratorOverrides)
    } else if name == "generator_image"@ || name == "generator-image"@ {
        Some(Field::GeneratorImage)
    } else if name == "redocly_image"@ || name == "redocly-image"@ {
        Some(Field::RedoclyImage)
    } else {
        None
    }
}

/// The field that a name stands for.
pub fn field_named(name: &str) -> (field: Option<Field>)
    ensures
        field == field_of(name@),
{
    if equal(name, "spec") {
        Some(Field::Spec)
    } else if equal(name, "mode") {
        Some(Field::Mode)
    } else if equal(name, "lint") {
        Some(Field::Lint)
    } else if equal(name, "generate") {
        Some(Field::Generate)
    } else if equal(name, "compile") {
        Some(Field::Compile)
    } else if equal(name, "server_generators") || equal(name, "server-generators") {
        Some(Field::ServerGenerators)
    } else if equal(name, "client_generators") || equal(name, "client-generators") {
        Some(Field::ClientGenerators)
    } else if equal(name, "generator_overrides") || equal(name, "generator-overrides") {
        Some(Field::GeneratorOverrides)
    } else if equal(name, "generator_image") || equal(name, "generator-image") {
        Some(Field::GeneratorImage)
    } else if equal(name, "redocly_image") || equal(name, "redocly-image") {
        Some(Field::RedoclyImage)
    } else {
        None
    }
}

/// What stands before the first dot of a key: the name of the field.
pub open spec fn key_base(key: Seq<char>) -> Seq<char> {
    match first_index_of(key, '.') {
        Some(i) => key.take(i),
        None => key,
    }
}

/// What stands behind the first dot of a key, where it has one.
pub open spec fn key_subkey(key: Seq<char>) -> Option<Seq<char>> {
    match first_index_of(key, '.') {
        Some(i) => Some(key.skip(i + 1)),
        None => None,
    }
}

/// Splits a key at its first dot.
pub fn parse_key(key: &str) -> (parts: (String, Option<String>))
    ensures
        parts.0@ == key_base(key@),
        optional_text(parts.1) == key_subkey(key@),
{
    match split_once(key, '.') {
        Some((base, subkey)) => (base, Some(subkey)),
        None => (String::from_str(key), None),
    }
}

/// The mode that a word names.
pub open spec fn mode_of_word(word: Seq<char>) -> Option<Mode> {
    if word == "server"@ {
        Some(Mode::Server)
    } else if word == "client"@ {
        Some(Mode::Client)
    } else if word == "both"@ {
        Some(Mode::Both)
    } else {
        None
    }
}

/// The mode that a word names.
pub fn mode_named(word: &str) -> (mode: Option<Mode>)
    ensures
        mode == mode_of_word(word@),
{
    if equal(word, "server") {
        Some(Mode::Server)
    } else if equal(word, "client") {
        Some(Mode::Client)
    } else if equal(word, "both") {
        Some(Mode::Both)
    } else {
        None
    }
}

/// The truth value that a word names.
pub open spec fn bool_of_word(word: Seq<char>) -> Option<bool> {
    if word == "true"@ || word == "1"@ || word == "yes"@ || word == "y"@ {
        Some(true)
    } else if word == "false"@ || word == "0"@ || word == "no"@ || word == "n"@ {
        Some(false)
    } else {
        None
    }
}

/// The truth value that a word names.
pub fn bool_named(word: &str) -> (value: Option<bool>)
    ensures
        value == bool_of_word(word@),
{
    if equal(word, "true") || equal(word, "1") || equal(word, "yes") || equal(word, "y") {
        Some(true)
    } else if equal(word, "false") || equal(word, "0") || equal(word, "no") || equal(word, "n") {
        Some(false)
    } else {
        None
    }
}

/// The word of a value as typed: without the white space at its ends, in
/// lowercase.
pub open spec fn word_of(raw: Seq<char>) -> Seq<char> {
    lowercase_of(trimmed(raw))
}

/// Why a value was refused, or could not be shown.
#[derive(Debug)]
pub enum ValueError {
    UnknownKey { key: String },
    InvalidMode { raw: String },
    InvalidBoolean { raw: String },
    /// The text is no YAML list; `detail` is what the YAML reader said.
    InvalidList { field: Field, detail: String },
    /// The text is no YAML mapping; `detail` is what the YAML reader said.
    InvalidMap { detail: String },
    /// The value has no YAML form; `detail` is what the YAML writer said.
    Unwritable { detail: String },
}

/// What a `ValueError` is about, without the words of the YAML library.
pub enum ValueErrorKind {
    UnknownKey { key: Seq<char> },
    InvalidMode { raw: Seq<char> },
    InvalidBoolean { raw: Seq<char> },
    InvalidList { field: Field },
    InvalidMap,
    Unwritable,
}

/// What the error is about.
pub open spec fn kind_of(e: ValueError) -> ValueErrorKind {
    match e {
        ValueError::UnknownKey { key } => ValueErrorKind::UnknownKey { key: key@ },
        ValueError::InvalidMode { raw } => ValueErrorKind::InvalidMode { raw: raw@ },
        ValueError::InvalidBoolean { raw } => ValueErrorKind::InvalidBoolean { raw: raw@ },
        ValueError::InvalidList { field, detail } => ValueErrorKind::InvalidList { field },
        ValueError::InvalidMap { detail } => ValueErrorKind::InvalidMap,
        ValueError::Unwritable { detail } => ValueErrorKind::Unwritable,
    }
}

/// What a list error names as its field and example.
pub open spec fn list_error_head(field: Field) -> Seq<char> {
    if field == Field::ClientGenerators {
        "Invalid YAML list for client_generators (example: [typescript, swift])"@
    } else {
        "Invalid YAML list for server_generators (example: [spring, kotlin])"@
    }
}

/// What the error says; `detail` stands for the words of the YAML library.
pub open spec fn value_error_message(kind: ValueErrorKind, detail: Seq<char>) -> Seq<char> {
    match kind {
        ValueErrorKind::UnknownKey { key } => "Unknown config key: "@ + key,
        ValueErrorKind::InvalidMode { raw } => "Invalid mode: "@ + raw
            + " (expected server, client, or both)"@,
        ValueErrorKind::InvalidBoolean { raw } => "Invalid boolean: "@ + raw
            + " (expected true/false)"@,
        ValueErrorKind::InvalidList { field } => list_error_head(field)
            + ": Failed to parse as YAML list: "@ + detail,
        ValueErrorKind::InvalidMap =>
            "Invalid YAML map for generator_overrides (example: {spring: ./path.yaml}): Failed to parse as YAML map: "@
            + detail,
        ValueErrorKind::Unwritable => "Failed to serialize value: "@ + detail,
    }
}

/// The words of the YAML library that an error carries.
pub open spec fn detail_of(e: ValueError) -> Seq<char> {
    match e {
        ValueError::InvalidList { field, detail } => detail@,
        ValueError::InvalidMap { detail } => detail@,
        ValueError::Unwritable { detail } => detail@,
        _ => Seq::empty(),
    }
}

impl ValueError {
    /// What the error says.
    pub fn message(&self) -> (out: String)
        ensures
            out@ == value_error_message(kind_of(*self), detail_of(*self)),
    {
        match self {
            ValueError::UnknownKey { key } => {
                let mut out = String::from_str("Unknown config key: ");
                out.append(key.as_str());
                out
            },
            ValueError::InvalidMode { raw } => {
                let mut out = String::from_str("Invalid mode: ");
                out.append(raw.as_str());
                out.append(" (expected server, client, or both)");
                out
            },
            ValueError::InvalidBoolean { raw } => {
                let mut out = String::from_str("Invalid boolean: ");
                out.append(raw.as_str());
                out.append(" (expected true/false)");
                out
            },
            ValueError::InvalidList { field, detail } => {
                let mut out = match field {
                    Field::ClientGenerators => String::from_str(
                        "Invalid YAML list for client_generators (example: [typescript, swift])",
                    ),
                    _ => String::from_str(
                        "Invalid YAML list for server_generators (example: [spring, kotlin])",
                    ),
                };
                out.append(": Failed to parse as YAML list: ");
                out.append(detail.as_str());
                out
            },
            ValueError::InvalidMap { detail } => {
                let mut out = String::from_str(
                    "Invalid YAML map for generator_overrides (example: {spring: ./path.yaml}): Failed to parse as YAML map: ",
                );
                out.append(detail.as_str());
                out
            },
            ValueError::Unwritable { detail } => {
                let mut out = String::from_str("Failed to serialize value: ");
                out.append(detail.as_str());
                out
            },
        }
    }
}

/// Reads a mode: `server`, `client` or `both`, in any case, white space
/// around it passed over.
pub fn parse_mode(raw: &str) -> (result: Result<Mode, ValueError>)
    ensures
        match result {
            Ok(mode) => mode_of_word(word_of(raw@)) == Some(mode),
            Err(e) => mode_of_word(word_of(raw@)).is_none() && kind_of(e) == (
            ValueErrorKind::InvalidMode { raw: raw@ }),
        },
{
    let word = lowercase(trim(raw).as_str());
    match mode_named(word.as_str()) {
        Some(mode) => Ok(mode),
        None => Err(ValueError::InvalidMode { raw: String::from_str(raw) }),
    }
}

/// Reads a truth value: `true`, `1`, `yes`, `y`, or `false`, `0`, `no`, `n`,
/// in any case, white space around it passed over.
pub fn parse_bool(raw: &str) -> (result: Result<bool, ValueError>)
    ensures
        match result {
            Ok(value) => bool_of_word(word_of(raw@)) == Some(value),
            Err(e) => bool_of_word(word_of(raw@)).is_none() && kind_of(e) == (
            ValueErrorKind::InvalidBoolean { raw: raw@ }),
        },
{
    let word = lowercase(trim(raw).as_str());
    match bool_named(word.as_str()) {
        Some(value) => Ok(value),
        None => Err(ValueError::InvalidBoolean { raw: String::from_str(raw) }),
    }
}

/// The names between the commas of a text, white space around them passed
/// over, empty ones left out.
pub open spec fn listed_names(raw: Seq<char>) -> Seq<Seq<char>> {
    requested_names(split_on(raw, ','))
}

/// Reads a list of names with commas between them.
pub fn parse_list(raw: &str) -> (list: Vec<String>)
    ensures
        texts(list@) == listed_names(raw@),
{
    let pieces = split(raw, ',');
    names_of(&pieces)
}

/// The list that a text stands for: the empty list for a blank text, else
/// what the text is as YAML.
pub open spec fn parsed_yaml_list(raw: Seq<char>) -> Option<Seq<Seq<char>>> {
    if trimmed(raw).len() == 0 {
        Some(Seq::empty())
    } else {
        yaml_list_of(raw)
    }
}

/// The pairs that a text stands for: none at all for a blank text, else what
/// the text is as YAML.
pub open spec fn parsed_yaml_map(raw: Seq<char>) -> Option<Seq<(Seq<char>, Seq<char>)>> {
    if trimmed(raw).len() == 0 {
        Some(Seq::empty())
    } else {
        yaml_map_of(raw)
    }
}

/// Reads a YAML list of strings. A blank text is the empty list. Where the
/// text is no such list, the error carries what the YAML reader said.
pub fn parse_yaml_list(raw: &str) -> (result: Result<Vec<String>, String>)
    ensures
        match result {
            Ok(list) => parsed_yaml_list(raw@) == Some(texts(list@)),
            Err(_) => parsed_yaml_list(raw@).is_none(),
        },
{
    if trim(raw).as_str().is_empty() {
        let list: Vec<String> = Vec::new();
        assert(texts(list@) =~= Seq::<Seq<char>>::empty());
        return Ok(list);
    }
    match read_list(raw) {
        Ok(list) => Ok(list),
        Err(e) => Err(error_text(&e)),
    }
}

/// Reads a YAML mapping of strings, as its pairs in the order of their keys.
/// A blank text is the empty mapping. Where the text is no such mapping, the
/// error carries what the YAML reader said.
pub fn parse_yaml_map(raw: &str) -> (result: Result<Vec<(String, String)>, String>)
    ensures
        match result {
            Ok(pairs) => parsed_yaml_map(raw@) == Some(pair_texts(pairs@)),
            Err(_) => parsed_yaml_map(raw@).is_none(),
        },
{
    if trim(raw).as_str().is_empty() {
        let pairs: Vec<(String, String)> = Vec::new();
        assert(pair_texts(pairs@) =~= Seq::<(Seq<char>, Seq<char>)>::empty());
        return Ok(pairs);
    }
    match read_map(raw) {
        Ok(pairs) => Ok(pairs),
        Err(e) => Err(error_text(&e)),
    }
}

/// The name of a mode.
pub fn mode_to_string(mode: Mode) -> (out: String)
    ensures
        out@ == mode_name(mode),
{
    String::from_str(mode.as_str())
}

/// The pairs whose name is not `key`.
pub open spec fn without_key(pairs: Seq<(Seq<char>, Seq<char>)>, key: Seq<char>) -> Seq<
    (Seq<char>, Seq<char>),
>
    decreases pairs.len(),
{
    if pairs.len() == 0 {
        Seq::empty()
    } else {
        let before = without_key(pairs.drop_last(), key);
        if pairs.last().0 == key {
            before
        } else {
            before.push(pairs.last())
        }
    }
}

/// What the pairs give for `key`: the value of the last pair of that name.
pub open spec fn lookup(pairs: Seq<(Seq<char>, Seq<char>)>, key: Seq<char>) -> Option<Seq<char>>
    decreases pairs.len(),
{
    if pairs.len() == 0 {
        None
    } else if pairs.last().0 == key {
        Some(pairs.last().1)
    } else {
        lookup(pairs.drop_last(), key)
    }
}

/// No name stands in two pairs.
pub open spec fn distinct_names(pairs: Seq<(Seq<char>, Seq<char>)>) -> bool {
    forall|i: int, j: int| 0 <= i < j < pairs.len() ==> pairs[i].0 != pairs[j].0
}

/// The pairs with each name once: of the pairs of one name the last is kept.
pub open spec fn each_name_once(pairs: Seq<(Seq<char>, Seq<char>)>) -> Seq<
    (Seq<char>, Seq<char>),
>
    decreases pairs.len(),
{
    if pairs.len() == 0 {
        Seq::empty()
    } else {
        without_key(each_name_once(pairs.drop_last()), pairs.last().0).push(pairs.last())
    }
}

/// What is left without a name lacks the name, comes from the pairs, and
/// repeats no name that the pairs did not repeat.
proof fn lemma_without_key(pairs: Seq<(Seq<char>, Seq<char>)>, key: Seq<char>)
    ensures
        forall|i: int|
            0 <= i < without_key(pairs, key).len() ==> (#[trigger] without_key(pairs, key)[i]).0
                != key,
        forall|i: int|
            0 <= i < without_key(pairs, key).len() ==> exists|j: int|
                0 <= j < pairs.len() && pairs[j] == #[trigger] without_key(pairs, key)[i],
        distinct_names(pairs) ==> distinct_names(without_key(pairs, key)),
    decreases pairs.len(),
{
    if pairs.len() > 0 {
        let shorter = pairs.drop_last();
        let before = without_key(shorter, key);
        let kept = without_key(pairs, key);
        lemma_without_key(shorter, key);
        assert forall|i: int| 0 <= i < kept.len() implies exists|j: int|
            0 <= j < pairs.len() && pairs[j] == #[trigger] kept[i] by {
            if i < before.len() {
                let j = choose|j: int| 0 <= j < shorter.len() && shorter[j] == before[i];
                assert(pairs[j] == kept[i]);
            } else {
                assert(pairs[pairs.len() - 1] == kept[i]);
            }
        }
        if distinct_names(pairs) {
            assert(distinct_names(shorter)) by {
                assert forall|i: int, j: int| 0 <= i < j < shorter.len() implies shorter[i].0
                    != shorter[j].0 by {
                    assert(pairs[i].0 != pairs[j].0);
                }
            }
            assert forall|i: int, j: int| 0 <= i < j < kept.len() implies kept[i].0
                != kept[j].0 by {
                if j == before.len() {
                    let k = choose|k: int| 0 <= k < shorter.len() && shorter[k] == before[i];
                    assert(pairs[k].0 != pairs[pairs.len() - 1].0);
                }
            }
        }
    }
}

/// With each name once, no name stands in two pairs.
pub proof fn lemma_each_name_once(pairs: Seq<(Seq<char>, Seq<char>)>)
    ensures
        distinct_names(each_name_once(pairs)),
    decreases pairs.len(),
{
    if pairs.len() > 0 {
        let before = each_name_once(pairs.drop_last());
        lemma_each_name_once(pairs.drop_last());
        lemma_without_key(before, pairs.last().0);
    }
}

/// The pairs with each name once.
fn with_each_name_once(pairs: &Vec<(String, String)>) -> (out: Vec<(String, String)>)
    ensures
        pair_texts(out@) == each_name_once(pair_texts(pairs@)),
        distinct_names(pair_texts(out@)),
{
    let mut out: Vec<(String, String)> = Vec::new();
    let mut i: usize = 0;
    assert(pair_texts(pairs@).take(0) =~= Seq::<(Seq<char>, Seq<char>)>::empty());
    assert(pair_texts(out@) =~= Seq::<(Seq<char>, Seq<char>)>::empty());
    while i < pairs.len()
        invariant
            i <= pairs.len(),
            pair_texts(out@) == each_name_once(pair_texts(pairs@).take(i as int)),
        decreases pairs.len() - i,
    {
        assert(pair_texts(pairs@).take(i + 1).drop_last() =~= pair_texts(pairs@).take(i as int));
        let mut others = remove_key(&out, pairs[i].0.as_str());
        let pair = (pairs[i].0.clone(), pairs[i].1.clone());
        let ghost before = pair_texts(others@);
        others.push(pair);
        assert(pair_texts(others@) =~= before.push((pair.0@, pair.1@)));
        out = others;
        i += 1;
    }
    assert(pair_texts(pairs@).take(i as int) =~= pair_texts(pairs@));
    proof {
        lemma_each_name_once(pair_texts(pairs@));
    }
    out
}

/// The pairs whose name is not `key`.
fn remove_key(pairs: &Vec<(String, String)>, key: &str) -> (out: Vec<(String, String)>)
    ensures
        pair_texts(out@) == without_key(pair_texts(pairs@), key@),
{
    let mut out: Vec<(String, String)> = Vec::new();
    let mut i: usize = 0;
    assert(pair_texts(pairs@).take(0) =~= Seq::<(Seq<char>, Seq<char>)>::empty());
    assert(pair_texts(out@) =~= Seq::<(Seq<char>, Seq<char>)>::empty());
    while i < pairs.len()
        invariant
            i <= pairs.len(),
            pair_texts(out@) == without_key(pair_texts(pairs@).take(i as int), key@),
        decreases pairs.len() - i,
    {
        assert(pair_texts(pairs@).take(i + 1).drop_last() =~= pair_texts(pairs@).take(i as int));
        let ghost before = pair_texts(out@);
        if !equal(pairs[i].0.as_str(), key) {
            let pair = (pairs[i].0.clone(), pairs[i].1.clone());
            out.push(pair);
            assert(pair_texts(out@) =~= before.push((pair.0@, pair.1@)));
        }
        i += 1;
    }
    assert(pair_texts(pairs@).take(i as int) =~= pair_texts(pairs@));
    out
}

/// What the pairs give for `key`.
fn find_key(pairs: &Vec<(String, String)>, key: &str) -> (value: Option<String>)
    ensures
        optional_text(value) == lookup(pair_texts(pairs@), key@),
{
    let mut i: usize = pairs.len();
    assert(pair_texts(pairs@).take(i as int) =~= pair_texts(pairs@));
    while i > 0
        invariant
            i <= pairs.len(),
            lookup(pair_texts(pairs@), key@) == lookup(pair_texts(pairs@).take(i as int), key@),
        decreases i,
    {
        assert(pair_texts(pairs@).take(i as int).drop_last() =~= pair_texts(pairs@).take(i - 1));
        if equal(pairs[i - 1].0.as_str(), key) {
            return Some(pairs[i - 1].1.clone());
        }
        i -= 1;
    }
    None
}

/// The configuration after `key` was set to `value`, or why the value was
/// refused.
pub open spec fn value_set(config: ConfigView, key: Seq<char>, value: Seq<char>) -> Result<
    ConfigView,
    ValueErrorKind,
> {
    match field_of(key_base(key)) {
        None => Err(ValueErrorKind::UnknownKey { key }),
        Some(Field::Spec) => Ok(ConfigView { spec: Some(value), ..config }),
        Some(Field::Mode) => match mode_of_word(word_of(value)) {
            Some(mode) => Ok(ConfigView { mode, ..config }),
            None => Err(ValueErrorKind::InvalidMode { raw: value }),
        },
        Some(Field::Lint) => match bool_of_word(word_of(value)) {
            Some(lint) => Ok(ConfigView { lint, ..config }),
            None => Err(ValueErrorKind::InvalidBoolean { raw: value }),
        },
        Some(Field::Generate) => match bool_of_word(word_of(value)) {
            Some(generate) => Ok(ConfigView { generate, ..config }),
            None => Err(ValueErrorKind::InvalidBoolean { raw: value }),
        },
        Some(Field::Compile) => match bool_of_word(word_of(value)) {
            Some(compile) => Ok(ConfigView { compile, ..config }),
            None => Err(ValueErrorKind::InvalidBoolean { raw: value }),
        },
        Some(Field::ServerGenerators) => match parsed_yaml_list(value) {
            Some(server_generators) => Ok(ConfigView { server_generators, ..config }),
            None => Err(ValueErrorKind::InvalidList { field: Field::ServerGenerators }),
        },
        Some(Field::ClientGenerators) => match parsed_yaml_list(value) {
            Some(client_generators) => Ok(ConfigView { client_generators, ..config }),
            None => Err(ValueErrorKind::InvalidList { field: Field::ClientGenerators }),
        },
        Some(Field::GeneratorOverrides) => match key_subkey(key) {
            Some(name) => {
                let others = without_key(config.generator_overrides, name);
                Ok(
                    ConfigView {
                        generator_overrides: if value.len() == 0 {
                            others
                        } else {
                            others.push((name, value))
                        },
                        ..config
                    },
                )
            },
            None => match parsed_yaml_map(value) {
                Some(generator_overrides) => Ok(ConfigView { generator_overrides, ..config }),
                None => Err(ValueErrorKind::InvalidMap),
            },
        },
        Some(Field::GeneratorImage) => Ok(ConfigView { generator_image: value, ..config }),
        Some(Field::RedoclyImage) => Ok(ConfigView { redocly_image: value, ..config }),
    }
}

/// Sets the value that `key` names. A key is the name of a field; for the
/// generator overrides a dot and the name of a generator may follow, and then
/// an empty value takes the generator out. A value that is refused leaves the
/// configuration as it was.
pub fn set_value(config: &mut Config, key: &str, value: String) -> (result: Result<(), ValueError>)
    ensures
        match result {
            Ok(()) => value_set(old(config)@, key@, value@) == Ok::<ConfigView, ValueErrorKind>(
                final(config)@,
            ),
            Err(e) => value_set(old(config)@, key@, value@) == Err::<ConfigView, ValueErrorKind>(
                kind_of(e),
            ) && final(config)@ == old(config)@,
        },
{
    let (base, subkey) = parse_key(key);
    match field_named(base.as_str()) {
        None => {
            return Err(ValueError::UnknownKey { key: String::from_str(key) });
        },
        Some(Field::Spec) => {
            config.spec = Some(value);
        },
        Some(Field::Mode) => {
            match parse_mode(value.as_str()) {
                Ok(mode) => {
                    config.mode = mode;
                },
                Err(e) => {
                    return Err(e);
                },
            }
        },
        Some(Field::Lint) => {
            match parse_bool(value.as_str()) {
                Ok(flag) => {
                    config.lint = flag;
                },
                Err(e) => {
                    return Err(e);
                },
            }
        },
        Some(Field::Generate) => {
            match parse_bool(value.as_str()) {
                Ok(flag) => {
                    config.generate = flag;
                },
                Err(e) => {
                    return Err(e);
                },
            }
        },
        Some(Field::Compile) => {
            match parse_bool(value.as_str()) {
                Ok(flag) => {
                    config.compile = flag;
                },
                Err(e) => {
                    return Err(e);
                },
            }
        },
        Some(Field::ServerGenerators) => {
            match parse_yaml_list(value.as_str()) {
                Ok(list) => {
                    config.server_generators = list;
                },
                Err(detail) => {
                    return Err(ValueError::InvalidList { field: Field::ServerGenerators, detail });
                },
            }
        },
        Some(Field::ClientGenerators) => {
            match parse_yaml_list(value.as_str()) {
                Ok(list) => {
                    config.client_generators = list;
                },
                Err(detail) => {
                    return Err(ValueError::InvalidList { field: Field::ClientGenerators, detail });
                },
            }
        },
        Some(Field::GeneratorOverrides) => {
            match subkey {
                Some(name) => {
                    let mut others = remove_key(&config.generator_overrides, name.as_str());
                    if !value.as_str().is_empty() {
                        let ghost before = pair_texts(others@);
                        others.push((name, value));
                        assert(pair_texts(others@) =~= before.push((name@, value@)));
                    }
                    config.generator_overrides = others;
                },
                None => {
                    match parse_yaml_map(value.as_str()) {
                        Ok(pairs) => {
                            config.generator_overrides = pairs;
                        },
                        Err(detail) => {
                            return Err(ValueError::InvalidMap { detail });
                        },
                    }
                },
            }
        },
        Some(Field::GeneratorImage) => {
            config.generator_image = value;
        },
        Some(Field::RedoclyImage) => {
            config.redocly_image = value;
        },
    }
    Ok(())
}

/// The configuration after the field of `key` was set to `value`, or why the
/// value was refused. Lists are read as names with commas between them.
pub open spec fn field_set(config: ConfigView, key: ConfigKey, value: Seq<char>) -> Result<
    ConfigView,
    ValueErrorKind,
> {
    match key {
        ConfigKey::Spec => Ok(ConfigView { spec: Some(value), ..config }),
        ConfigKey::Mode => match mode_of_word(word_of(value)) {
            Some(mode) => Ok(ConfigView { mode, ..config }),
            None => Err(ValueErrorKind::InvalidMode { raw: value }),
        },
        ConfigKey::Lint => match bool_of_word(word_of(value)) {
            Some(lint) => Ok(ConfigView { lint, ..config }),
            None => Err(ValueErrorKind::InvalidBoolean { raw: value }),
        },
        ConfigKey::Generate => match bool_of_word(word_of(value)) {
            Some(generate) => Ok(ConfigView { generate, ..config }),
            None => Err(ValueErrorKind::InvalidBoolean { raw: value }),
        },
        ConfigKey::Compile => match bool_of_word(word_of(value)) {
            Some(compile) => Ok(ConfigView { compile, ..config }),
            None => Err(ValueErrorKind::InvalidBoolean { raw: value }),
        },
        ConfigKey::ServerGenerators => Ok(
            ConfigView { server_generators: listed_names(value), ..config },
        ),
        ConfigKey::ClientGenerators => Ok(
            ConfigView { client_generators: listed_names(value), ..config },
        ),
        ConfigKey::GeneratorImage => Ok(ConfigView { generator_image: value, ..config }),
        ConfigKey::RedoclyImage => Ok(ConfigView { redocly_image: value, ..config }),
    }
}

/// Sets the field of `key`. A value that is refused leaves the configuration
/// as it was.
pub fn set_config_value(config: &mut Config, key: ConfigKey, value: String) -> (result: Result<
    (),
    ValueError,
>)
    ensures
        match result {
            Ok(()) => field_set(old(config)@, key, value@) == Ok::<ConfigView, ValueErrorKind>(
                final(config)@,
            ),
            Err(e) => field_set(old(config)@, key, value@) == Err::<ConfigView, ValueErrorKind>(
                kind_of(e),
            ) && final(config)@ == old(config)@,
        },
{
    match key {
        ConfigKey::Spec => {
            config.spec = Some(value);
        },
        ConfigKey::Mode => {
            match parse_mode(value.as_str()) {
                Ok(mode) => {
                    config.mode = mode;
                },
                Err(e) => {
                    return Err(e);
                },
            }
        },
        ConfigKey::Lint => {
            match parse_bool(value.as_str()) {
                Ok(flag) => {
                    config.lint = flag;
                },
                Err(e) => {
                    return Err(e);
                },
            }
        },
        ConfigKey::Generate => {
            match parse_bool(value.as_str()) {
                Ok(flag) => {
                    config.generate = flag;
                },
                Err(e) => {
                    return Err(e);
                },
            }
        },
        ConfigKey::Compile => {
            match parse_bool(value.as_str()) {
                Ok(flag) => {
                    config.compile = flag;
                },
                Err(e) => {
                    return Err(e);
                },
            }
        },
        ConfigKey::ServerGenerators => {
            config.server_generators = parse_list(value.as_str());
        },
        ConfigKey::ClientGenerators => {
            config.client_generators = parse_list(value.as_str());
        },
        ConfigKey::GeneratorImage => {
            config.generator_image = value;
        },
        ConfigKey::RedoclyImage => {
            config.redocly_image = value;
        },
    }
    Ok(())
}

/// How a truth value is shown.
pub open spec fn bool_text(value: bool) -> Seq<char> {
    if value {
        "true"@
    } else {
        "false"@
    }
}

/// How a truth value is shown.
fn bool_string(value: bool) -> (out: String)
    ensures
        out@ == bool_text(value),
{
    if value {
        String::from_str("true")
    } else {
        String::from_str("false")
    }
}

/// What is shown for the field of `key`: its value on one line, lists with
/// commas between their names. Nothing where no document is configured.
pub open spec fn field_text(config: ConfigView, key: ConfigKey) -> Option<Seq<char>> {
    match key {
        ConfigKey::Spec => config.spec,
        ConfigKey::Mode => Some(mode_name(config.mode)),
        ConfigKey::Lint => Some(bool_text(config.lint)),
        ConfigKey::Generate => Some(bool_text(config.generate)),
        ConfigKey::Compile => Some(bool_text(config.compile)),
        ConfigKey::ServerGenerators => Some(joined(config.server_generators, ","@)),
        ConfigKey::ClientGenerators => Some(joined(config.client_generators, ","@)),
        ConfigKey::GeneratorImage => Some(config.generator_image),
        ConfigKey::RedoclyImage => Some(config.redocly_image),
    }
}

/// The line that shows the field of `key`, if there is something to show.
pub fn config_value_text(config: &Config, key: ConfigKey) -> (line: Option<String>)
    ensures
        optional_text(line) == field_text(config@, key),
{
    match key {
        ConfigKey::Spec => match &config.spec {
            Some(spec) => Some(spec.clone()),
            None => None,
        },
        ConfigKey::Mode => Some(mode_to_string(config.mode)),
        ConfigKey::Lint => Some(bool_string(config.lint)),
        ConfigKey::Generate => Some(bool_string(config.generate)),
        ConfigKey::Compile => Some(bool_string(config.compile)),
        ConfigKey::ServerGenerators => Some(join(&config.server_generators, ",")),
        ConfigKey::ClientGenerators => Some(join(&config.client_generators, ",")),
        ConfigKey::GeneratorImage => Some(config.generator_image.clone()),
        ConfigKey::RedoclyImage => Some(config.redocly_image.clone()),
    }
}

/// The YAML text of a list as it is shown: without the white space at its end.
pub open spec fn shown_list(list: Seq<Seq<char>>) -> Result<Option<Seq<char>>, ValueErrorKind> {
    match yaml_text_of_list(list) {
        Some(text) => Ok(Some(end_trimmed(text))),
        None => Err(ValueErrorKind::Unwritable),
    }
}

/// The YAML text of a mapping as it is shown: each name once, and without the
/// white space at the end.
pub open spec fn shown_map(pairs: Seq<(Seq<char>, Seq<char>)>) -> Result<
    Option<Seq<char>>,
    ValueErrorKind,
> {
    match yaml_text_of_map(each_name_once(pairs)) {
        Some(text) => Ok(Some(end_trimmed(text))),
        None => Err(ValueErrorKind::Unwritable),
    }
}

/// What is shown for `key`: the value on one line, lists and mappings as
/// YAML; nothing where there is no value. A key of the generator overrides
/// with the name of a generator behind a dot shows the override of that
/// generator.
pub open spec fn value_shown(config: ConfigView, key: Seq<char>) -> Result<
    Option<Seq<char>>,
    ValueErrorKind,
> {
    match field_of(key_base(key)) {
        None => Err(ValueErrorKind::UnknownKey { key }),
        Some(Field::Spec) => Ok(config.spec),
        Some(Field::Mode) => Ok(Some(mode_name(config.mode))),
        Some(Field::Lint) => Ok(Some(bool_text(config.lint))),
        Some(Field::Generate) => Ok(Some(bool_text(config.generate))),
        Some(Field::Compile) => Ok(Some(bool_text(config.compile))),
        Some(Field::ServerGenerators) => shown_list(config.server_generators),
        Some(Field::ClientGenerators) => shown_list(config.client_generators),
        Some(Field::GeneratorOverrides) => match key_subkey(key) {
            Some(name) => Ok(lookup(config.generator_overrides, name)),
            None => shown_map(config.generator_overrides),
        },
        Some(Field::GeneratorImage) => Ok(Some(config.generator_image)),
        Some(Field::RedoclyImage) => Ok(Some(config.redocly_image)),
    }
}

/// The YAML text of a list as it is shown.
fn list_shown(list: &Vec<String>) -> (result: Result<Option<String>, ValueError>)
    ensures
        match result {
            Ok(line) => shown_list(texts(list@)) == Ok::<Option<Seq<char>>, ValueErrorKind>(
                optional_text(line),
            ),
            Err(e) => shown_list(texts(list@)) == Err::<Option<Seq<char>>, ValueErrorKind>(
                kind_of(e),
            ),
        },
{
    match write_list(list) {
        Ok(text) => Ok(Some(trim_end(text.as_str()))),
        Err(e) => Err(ValueError::Unwritable { detail: error_text(&e) }),
    }
}

/// The YAML text of a mapping as it is shown.
fn map_shown(pairs: &Vec<(String, String)>) -> (result: Result<Option<String>, ValueError>)
    ensures
        match result {
            Ok(line) => shown_map(pair_texts(pairs@)) == Ok::<Option<Seq<char>>, ValueErrorKind>(
                optional_text(line),
            ),
            Err(e) => shown_map(pair_texts(pairs@)) == Err::<Option<Seq<char>>, ValueErrorKind>(
                kind_of(e),
            ),
        },
{
    match write_map(&with_each_name_once(pairs)) {
        Ok(text) => Ok(Some(trim_end(text.as_str()))),
        Err(e) => Err(ValueError::Unwritable { detail: error_text(&e) }),
    }
}

/// Gives what is to be printed for `key`, a line end behind it, or nothing
/// where there is no value.
pub fn print_value(config: &Config, key: &str) -> (result: Result<Option<String>, ValueError>)
    ensures
        match result {
            Ok(line) => value_shown(config@, key@) == Ok::<Option<Seq<char>>, ValueErrorKind>(
                optional_text(line),
            ),
            Err(e) => value_shown(config@, key@) == Err::<Option<Seq<char>>, ValueErrorKind>(
                kind_of(e),
            ),
        },
{
    let (base, subkey) = parse_key(key);
    match field_named(base.as_str()) {
        None => Err(ValueError::UnknownKey { key: String::from_str(key) }),
        Some(Field::Spec) => Ok(
            match &config.spec {
                Some(spec) => Some(spec.clone()),
                None => None,
            },
        ),
        Some(Field::Mode) => Ok(Some(mode_to_string(config.mode))),
        Some(Field::Lint) => Ok(Some(bool_string(config.lint))),
        Some(Field::Generate) => Ok(Some(bool_string(config.generate))),
        Some(Field::Compile) => Ok(Some(bool_string(config.compile))),
        Some(Field::ServerGenerators) => list_shown(&config.server_generators),
        Some(Field::ClientGenerators) => list_shown(&config.client_generators),
        Some(Field::GeneratorOverrides) => match subkey {
            Some(name) => Ok(find_key(&config.generator_overrides, name.as_str())),
            None => map_shown(&config.generator_overrides),
        },
        Some(Field::GeneratorImage) => Ok(Some(config.generator_image.clone())),
        Some(Field::RedoclyImage) => Ok(Some(config.redocly_image.clone())),
    }
}

/// The configuration with the choices of the command line laid over it: each
/// one that was made replaces what the file says.
pub open spec fn overridden(
    config: ConfigView,
    spec: Option<Seq<char>>,
    mode: Option<Mode>,
    server_generators: Option<Seq<Seq<char>>>,
    client_generators: Option<Seq<Seq<char>>>,
) -> ConfigView {
    ConfigView {
        spec: if spec.is_some() {
            spec
        } else {
            config.spec
        },
        mode: if mode.is_some() {
            mode.unwrap()
        } else {
            config.mode
        },
        server_generators: if server_generators.is_some() {
            server_generators.unwrap()
        } else {
            config.server_generators
        },
        client_generators: if client_generators.is_some() {
            client_generators.unwrap()
        } else {
            config.client_generators
        },
        ..config
    }
}

/// The views of an optional list of strings.
pub open spec fn optional_list(list: Option<Vec<String>>) -> Option<Seq<Seq<char>>> {
    match list {
        Some(list) => Some(texts(list@)),
        None => None,
    }
}

impl Config {
    /// Lays the choices of the command line over the configuration.
    pub fn apply_overrides(
        &mut self,
        spec: Option<String>,
        mode: Option<Mode>,
        server_generators: Option<Vec<String>>,
        client_generators: Option<Vec<String>>,
    )
        ensures
            final(self)@ == overridden(
                old(self)@,
                optional_text(spec),
                mode,
                optional_list(server_generators),
                optional_list(client_generators),
            ),
    {
        match spec {
            Some(spec) => {
                self.spec = Some(spec);
            },
            None => {},
        }
        match mode {
            Some(mode) => {
                self.mode = mode;
            },
            None => {},
        }
        match server_generators {
            Some(list) => {
                self.server_generators = list;
            },
            None => {},
        }
        match client_generators {
            Some(list) => {
                self.client_generators = list;
            },
            None => {},
        }
    }

    /// Switches off the stages that the command line skips.
    pub fn apply_skips(&mut self, skip_lint: bool, skip_generate: bool, skip_compile: bool)
        ensures
            final(self)@ == (ConfigView {
                lint: old(self).lint && !skip_lint,
                generate: old(self).generate && !skip_generate,
                compile: old(self).compile && !skip_compile,
                ..old(self)@
            }),
    {
        if skip_lint {
            self.lint = false;
        }
        if skip_generate {
            self.generate = false;
        }
        if skip_compile {
            self.compile = false;
        }
    }
}

} // verus!
