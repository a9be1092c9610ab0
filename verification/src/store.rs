//! The defaults file: how its text is read into a [`PersistedConfig`] and how
//! a [`PersistedConfig`] is written out as text.
//!
//! The file is TOML. Its text is parsed by the `toml` crate; which settings
//! are looked up in the parsed table, and what is made of them, is decided
//! here.

use vstd::prelude::*;
use toml::{Parser, Value};
use crate::config::{view_of, PersistedConfig, PersistedView};

verus! {

/// Name of the defaults file inside the user's home directory.
pub const CONFIG_FILE_NAME: &'static str = ".hakk";

/// Dotted path of the Akka version in the defaults file.
pub const AKKA_KEY: &'static str = "versions.akka";

/// Dotted path of the Scala version in the defaults file.
pub const SCALA_KEY: &'static str = "versions.scala";

/// Dotted path of the organization in the defaults file.
pub const ORGANIZATION_KEY: &'static str = "metadata.organization";

/// `toml::Value`, a parsed TOML value. Nothing inside it is visible to the
/// proofs: they know a value only by [`strings_of`].
#[verifier::external_type_specification]
#[verifier::external_body]
pub struct ExValue(Value);

/// The strings that a TOML value holds: each dotted path at which
/// `toml::Value::lookup` finds a value that is a string, mapped to that
/// string. Paths that lead nowhere, or to a number, a table or anything else
/// that is no string, are not in the map.
pub uninterp spec fn strings_of(value: Value) -> Map<Seq<char>, Seq<char>>;

/// The strings of the table that `toml::Parser` reads from a text, or `None`
/// where the parser rejects the text.
pub uninterp spec fn parsed_strings(content: Seq<char>) -> Option<Map<Seq<char>, Seq<char>>>;

/// Parses a text with `toml::Parser::new` and `toml::Parser::parse` and wraps
/// the table it yields in `toml::Value::Table`.
///
/// Trusted: the parser is a function of the text alone, so the strings of
/// its result are those that [`parsed_strings`] names, and it yields nothing
/// exactly where [`parsed_strings`] is `None`. Like any recursive-descent
/// parser it needs stack in proportion to the depth to which arrays and
/// inline tables are nested in the text.
#[verifier::external_body]
fn parse_document(content: &str) -> (r: Option<Value>)
    ensures
        match r {
            Some(table) => parsed_strings(content@) == Some(strings_of(table)),
            None => parsed_strings(content@) is None,
        },
{
    Parser::new(content).parse().map(Value::Table)
}

/// Looks a dotted path up with `toml::Value::lookup` and takes the string out
/// of what is found with `toml::Value::as_str`.
///
/// Trusted: the result is the entry of [`strings_of`] at `key`, and `None`
/// where there is no such entry.
#[verifier::external_body]
fn parse_entry<'a>(table: &'a Value, key: &'a str) -> (r: Option<&'a str>)
    ensures
        r.deep_view() == entry(strings_of(*table), key@),
{
    table.lookup(key).and_then(|val| val.as_str())
}

/// The string stored under `key`, if there is one.
pub open spec fn entry(strings: Map<Seq<char>, Seq<char>>, key: Seq<char>) -> Option<Seq<char>> {
    if strings.contains_key(key) {
        Some(strings[key])
    } else {
        None
    }
}

/// All or nothing: the three settings make a configuration only when both
/// versions are there. The organization may be missing.
pub open spec fn selected(
    akka: Option<Seq<char>>,
    scala: Option<Seq<char>>,
    organization: Option<Seq<char>>,
) -> Option<PersistedView> {
    match (akka, scala) {
        (Some(a), Some(s)) => Some(
            PersistedView { organization: organization, scala_version: s, akka_version: a },
        ),
        _ => None,
    }
}

/// The configuration that a table with these strings stands for.
pub open spec fn persisted_from(strings: Map<Seq<char>, Seq<char>>) -> Option<PersistedView> {
    selected(
        entry(strings, AKKA_KEY@),
        entry(strings, SCALA_KEY@),
        entry(strings, ORGANIZATION_KEY@),
    )
}

impl PersistedConfig {
    /// Builds the stored configuration from the three settings as they were
    /// found in the file.
    ///
    /// A file that names only one of the two versions, or neither, gives no
    /// configuration at all: its organization is not used either.
    pub fn from_entries(
        akka: Option<&str>,
        scala: Option<&str>,
        organization: Option<&str>,
    ) -> (r: Option<PersistedConfig>)
        ensures
            view_of(r) == selected(akka.deep_view(), scala.deep_view(), organization.deep_view()),
    {
        match (akka, scala) {
            (Some(a), Some(s)) => Some(
                PersistedConfig {
                    organization: match organization {
                        Some(o) => Some(o.to_owned()),
                        None => None,
                    },
                    scala_version: s.to_owned(),
                    akka_version: a.to_owned(),
                },
            ),
            _ => None,
        }
    }
}

/// Reads the stored configuration out of a parsed defaults file.
pub fn parse_toml(table: &Value) -> (r: Option<PersistedConfig>)
    ensures
        view_of(r) == persisted_from(strings_of(*table)),
{
    PersistedConfig::from_entries(
        parse_entry(table, AKKA_KEY),
        parse_entry(table, SCALA_KEY),
        parse_entry(table, ORGANIZATION_KEY),
    )
}

/// What became of the defaults file.
#[derive(Debug, Clone, PartialEq, Eq)]
pub enum Loaded {
    /// There is no defaults file, or it could not be read. Nothing is said
    /// about it; the built-in fallbacks apply.
    Absent,
    /// There is a file, but no configuration could be read out of it. The
    /// user is shown its text and a warning; the built-in fallbacks apply.
    Malformed,
    /// The file holds this configuration.
    Config(PersistedConfig),
}

/// What a [`Loaded`] holds, as sequences of characters.
pub enum LoadedView {
    Absent,
    Malformed,
    Config(PersistedView),
}

impl View for Loaded {
    type V = LoadedView;

    open spec fn view(&self) -> LoadedView {
        match self {
            Loaded::Absent => LoadedView::Absent,
            Loaded::Malformed => LoadedView::Malformed,
            Loaded::Config(c) => LoadedView::Config(c@),
        }
    }
}

impl LoadedView {
    /// The configuration that the resolver is handed: none unless one was read.
    pub open spec fn config(self) -> Option<PersistedView> {
        match self {
            LoadedView::Config(c) => Some(c),
            _ => None,
        }
    }
}

impl Loaded {
    /// The configuration that was read, if one was.
    pub fn config(&self) -> (r: Option<&PersistedConfig>)
        ensures
            view_of(r) == self@.config(),
    {
        match self {
            Loaded::Config(c) => Some(c),
            _ => None,
        }
    }

    /// Whether the user is to be shown the file's text and a warning.
    pub fn is_reported(&self) -> (r: bool)
        ensures
            r == (self@ is Malformed),
    {
        match self {
            Loaded::Malformed => true,
            _ => false,
        }
    }
}

/// What a defaults file with this text, or the lack of one, amounts to.
pub open spec fn loaded(content: Option<Seq<char>>) -> LoadedView {
    match content {
        None => LoadedView::Absent,
        Some(text) => match parsed_strings(text) {
            None => LoadedView::Malformed,
            Some(strings) => match persisted_from(strings) {
                None => LoadedView::Malformed,
                Some(config) => LoadedView::Config(config),
            },
        },
    }
}

/// Reads the stored configuration from the text of the defaults file.
///
/// `content` is `None` where the file does not exist or could not be read.
/// A text that is not TOML, or that lacks one of the two versions as a
/// string, is malformed as a whole.
pub fn load(content: Option<&str>) -> (r: Loaded)
    ensures
        r@ == loaded(content.deep_view()),
{
    match content {
        None => Loaded::Absent,
        Some(text) => match parse_document(text) {
            None => Loaded::Malformed,
            Some(table) => match parse_toml(&table) {
                None => Loaded::Malformed,
                Some(config) => Loaded::Config(config),
            },
        },
    }
}

/// Opens the organization section, up to the quote before the value.
pub const METADATA_HEAD: &'static str = "[metadata]\norganization = \"";

/// Closes the organization's value and leaves one empty line.
pub const METADATA_TAIL: &'static str = "\"\n\n";

/// Opens the versions section, up to the quote before the Scala version.
pub const VERSIONS_HEAD: &'static str = "[versions]\nscala = \"";

/// Closes the Scala version and opens the Akka version.
pub const VERSIONS_MIDDLE: &'static str = "\"\nakka = \"";

/// Closes the Akka version. No newline follows.
pub const VERSIONS_TAIL: &'static str = "\"";

/// The organization section of the defaults file: left out altogether where
/// no organization is set.
pub open spec fn metadata_section(organization: Option<Seq<char>>) -> Seq<char> {
    match organization {
        Some(o) => METADATA_HEAD@ + o + METADATA_TAIL@,
        None => Seq::empty(),
    }
}

/// The versions section of the defaults file.
pub open spec fn versions_section(scala: Seq<char>, akka: Seq<char>) -> Seq<char> {
    VERSIONS_HEAD@ + scala + VERSIONS_MIDDLE@ + akka + VERSIONS_TAIL@
}

/// The text of the defaults file for a configuration.
pub open spec fn toml_text(config: PersistedView) -> Seq<char> {
    metadata_section(config.organization) + versions_section(
        config.scala_version,
        config.akka_version,
    )
}

/// Writes a configuration out as the text of the defaults file.
///
/// The values are put between the quotes as they are: nothing is escaped.
pub fn create_toml(defaults: &PersistedConfig) -> (r: String)
    ensures
        r@ == toml_text(defaults@),
{
    let mut result = String::new();
    match &defaults.organization {
        Some(org) => {
            result.append(METADATA_HEAD);
            result.append(org.as_str());
            result.append(METADATA_TAIL);
        },
        None => {},
    }
    result.append(VERSIONS_HEAD);
    result.append(defaults.scala_version.as_str());
    result.append(VERSIONS_MIDDLE);
    result.append(defaults.akka_version.as_str());
    result.append(VERSIONS_TAIL);
    result
}

/// A file that supplies both versions as strings is read, with exactly
/// those versions, and with its organization if and only if it names one.
pub proof fn lemma_complete_file_is_read(strings: Map<Seq<char>, Seq<char>>)
    requires
        strings.contains_key(AKKA_KEY@),
        strings.contains_key(SCALA_KEY@),
    ensures
        persisted_from(strings) matches Some(config) && {
            &&& config.akka_version == strings[AKKA_KEY@]
            &&& config.scala_version == strings[SCALA_KEY@]
            &&& config.organization is Some <==> strings.contains_key(ORGANIZATION_KEY@)
            &&& config.organization matches Some(o) ==> o == strings[ORGANIZATION_KEY@]
        },
{
}

/// A file that lacks one of the two versions, or both, gives no
/// configuration: neither the version that is there nor the organization is
/// taken from it.
pub proof fn lemma_incomplete_file_is_discarded(strings: Map<Seq<char>, Seq<char>>)
    requires
        !strings.contains_key(AKKA_KEY@) || !strings.contains_key(SCALA_KEY@),
    ensures
        persisted_from(strings) is None,
{
}

/// The text of the defaults file opens with the organization section
/// exactly when an organization is set. Without one the text is the versions
/// section alone, with no empty section before it.
pub proof fn lemma_organization_section_only_with_organization(config: PersistedView)
    ensures
        config.organization is None ==> toml_text(config) == versions_section(
            config.scala_version,
            config.akka_version,
        ),
        toml_text(config).len() >= 10,
        (toml_text(config).subrange(0, 10) == "[metadata]"@) <==> config.organization is Some,
{
    reveal_strlit("[metadata]");
    reveal_strlit("[metadata]\norganization = \"");
    reveal_strlit("[versions]\nscala = \"");
    let text = toml_text(config);
    match config.organization {
        Some(o) => {
            assert(text.subrange(0, 10) =~= "[metadata]"@);
        },
        None => {
            assert(text =~= versions_section(config.scala_version, config.akka_version));
            assert(text[1] == 'v');
            assert(text.subrange(0, 10)[1] == 'v');
            assert("[metadata]"@[1] == 'm');
        },
    }
}

/// Where the defaults file lies for a user whose home directory is `home`.
pub open spec fn config_path_of(home: Seq<char>) -> Seq<char> {
    home + "/"@ + CONFIG_FILE_NAME@
}

/// The path of the defaults file of the user whose home directory is `home`.
pub fn config_path(home: &str) -> (r: String)
    ensures
        r@ == config_path_of(home@),
{
    let mut path = home.to_owned();
    path.append("/");
    path.append(CONFIG_FILE_NAME);
    path
}

} // verus!
