//! The settings of one site, and the file that a site may hold them in.
//!
//! The file is TOML. Two of its keys are read: `dir_index`, a boolean, and
//! `dir_index_name`, a string. A key that is absent has its default; a file
//! that is no TOML, or that gives one of the two keys a value of another
//! type, is an error and never the defaults.
//!
//! The TOML parser descends once for each level of nesting and has no limit
//! of its own, so a text is refused unread where it could nest deeper than
//! [`MAX_NESTING`] levels.

use crate::text::to_chars;
use vstd::prelude::*;

verus! {

/// The name of the file, in a site's root, that holds the site's settings.
pub const CONFIG_FILENAME: &'static str = "pages.toml";

/// Why a site's settings could not be had from its file.
#[derive(Clone, Copy, Debug, PartialEq, Eq, Structural)]
pub enum ConfigError {
    /// The file is there and could not be read as text.
    Unreadable,
    /// The text could nest deeper than a settings file may.
    TooDeep,
    /// The text is no TOML document.
    Malformed,
    /// `dir_index` is there and is no boolean.
    DirIndex,
    /// `dir_index_name` is there and is no string.
    DirIndexName,
}

/// The value that a TOML document gives a key, as far as a site's settings
/// read it.
#[derive(Debug, PartialEq, Eq)]
pub enum Field {
    Boolean(bool),
    Text(String),
    /// A value of any other type.
    Other,
}

/// A [`Field`] in contracts.
pub enum FieldView {
    Boolean(bool),
    Text(Seq<char>),
    Other,
}

impl View for Field {
    type V = FieldView;

    open spec fn view(&self) -> FieldView {
        match self {
            Field::Boolean(b) => FieldView::Boolean(*b),
            Field::Text(text) => FieldView::Text(text@),
            Field::Other => FieldView::Other,
        }
    }
}

/// A looked-up key in contracts: `None` where the key is absent.
pub open spec fn field_view(field: Option<Field>) -> Option<FieldView> {
    match field {
        Some(field) => Some(field@),
        None => None,
    }
}

/// `toml::Value`: a parsed TOML value, of which nothing is known but what
/// `toml_fields` says.
#[verifier::external_type_specification]
#[verifier::external_body]
pub struct ExTomlValue(toml::Value);

/// `toml::de::Error`: why a text is no TOML document.
#[verifier::external_type_specification]
#[verifier::external_body]
pub struct ExTomlError(toml::de::Error);

/// The keys of the top table of the TOML document `text`, each with its
/// value as a [`FieldView`]; `None` where `toml::from_str` refuses `text`.
pub uninterp spec fn toml_document(text: Seq<char>) -> Option<Map<Seq<char>, FieldView>>;

/// The keys of the table `document`, each with its value as a
/// [`FieldView`]; no keys where `document` is no table.
pub uninterp spec fn toml_fields(document: toml::Value) -> Map<Seq<char>, FieldView>;

/// The value in `fields` for `key`; `None` where the key is absent.
pub open spec fn lookup(fields: Map<Seq<char>, FieldView>, key: Seq<char>) -> Option<FieldView> {
    if fields.contains_key(key) {
        Some(fields[key])
    } else {
        None
    }
}

/// The levels of nesting that a settings file may have.
pub const MAX_NESTING: usize = 256;

/// Whether `c` opens a level of nesting in TOML: an array, an inline table,
/// or the next part of a dotted key or of a table's name.
pub open spec fn is_nesting_mark(c: char) -> bool {
    c == '[' || c == '{' || c == '.'
}

/// How many characters of `text` open a level of nesting, wherever in the
/// text they stand: no value in `text` nests deeper.
pub open spec fn nesting_marks(text: Seq<char>) -> nat
    decreases text.len(),
{
    if text.len() == 0 {
        0
    } else if is_nesting_mark(text.last()) {
        nesting_marks(text.drop_last()) + 1
    } else {
        nesting_marks(text.drop_last())
    }
}

/// How many characters of `text` open a level of nesting.
pub fn count_nesting_marks(text: &str) -> (count: usize)
    ensures
        count == nesting_marks(text@),
{
    let chars = to_chars(text);
    let mut count: usize = 0;
    let mut i: usize = 0;
    assert(text@.take(0) =~= Seq::<char>::empty());
    while i < chars.len()
        invariant
            i <= chars.len(),
            chars@ == text@,
            count <= i,
            count == nesting_marks(text@.take(i as int)),
        decreases chars.len() - i,
    {
        assert(text@.take(i + 1).drop_last() =~= text@.take(i as int));
        let c = chars[i];
        if c == '[' || c == '{' || c == '.' {
            count = count + 1;
        }
        i = i + 1;
    }
    assert(text@.take(i as int) =~= text@);
    count
}

/// `toml::from_str`, read as a `toml::Value`: it yields the document's top
/// table exactly where `text` is a TOML document, and an error elsewhere.
/// The parser descends once for each level of nesting, so the call is made
/// only for a text that cannot nest deeper than `MAX_NESTING` levels.
#[verifier::external_body]
fn parse_document(text: &str) -> (parsed: Result<toml::Value, toml::de::Error>)
    requires
        nesting_marks(text@) <= MAX_NESTING,
    ensures
        parsed is Ok <==> toml_document(text@) is Some,
        parsed matches Ok(document) ==> toml_document(text@) == Some(toml_fields(document)),
{
    toml::from_str::<toml::Value>(text)
}

/// `toml::Value::get` with a string: the value that the table `document`
/// holds for `key`, and `None` where it has no such key.
#[verifier::external_body]
fn field_of(document: &toml::Value, key: &str) -> (field: Option<Field>)
    ensures
        field_view(field) == lookup(toml_fields(*document), key@),
{
    match document.get(key) {
        None => None,
        Some(toml::Value::Boolean(b)) => Some(Field::Boolean(*b)),
        Some(toml::Value::String(text)) => Some(Field::Text(text.clone())),
        Some(_) => Some(Field::Other),
    }
}

/// The settings of one site.
#[derive(Debug, PartialEq, Eq)]
pub struct SiteConfig {
    /// Whether a request for a directory is answered with the directory's
    /// index file.
    pub dir_index: bool,
    /// The name of the index file.
    pub dir_index_name: String,
}

/// A [`SiteConfig`] in contracts.
pub struct SiteConfigView {
    pub dir_index: bool,
    pub dir_index_name: Seq<char>,
}

impl View for SiteConfig {
    type V = SiteConfigView;

    open spec fn view(&self) -> SiteConfigView {
        SiteConfigView { dir_index: self.dir_index, dir_index_name: self.dir_index_name@ }
    }
}

/// Settings, or why there are none, in contracts.
pub open spec fn config_view(config: Result<SiteConfig, ConfigError>) -> Result<
    SiteConfigView,
    ConfigError,
> {
    match config {
        Ok(config) => Ok(config@),
        Err(error) => Err(error),
    }
}

/// The settings of a site that has no settings file.
pub open spec fn default_config() -> SiteConfigView {
    SiteConfigView { dir_index: true, dir_index_name: "index.html"@ }
}

/// The settings that the two keys give: each key that is absent has its
/// default, and a key with a value of the wrong type is an error, that of
/// `dir_index` first.
pub open spec fn config_from_fields(
    dir_index: Option<FieldView>,
    dir_index_name: Option<FieldView>,
) -> Result<SiteConfigView, ConfigError> {
    match (dir_index, dir_index_name) {
        (Some(FieldView::Text(_)), _) | (Some(FieldView::Other), _) => Err(ConfigError::DirIndex),
        (_, Some(FieldView::Boolean(_))) | (_, Some(FieldView::Other)) => Err(
            ConfigError::DirIndexName,
        ),
        (enabled, name) => Ok(
            SiteConfigView {
                dir_index: match enabled {
                    Some(FieldView::Boolean(b)) => b,
                    _ => true,
                },
                dir_index_name: match name {
                    Some(FieldView::Text(text)) => text,
                    _ => "index.html"@,
                },
            },
        ),
    }
}

/// The settings that a parsed document gives.
pub open spec fn config_of(document: Option<Map<Seq<char>, FieldView>>) -> Result<
    SiteConfigView,
    ConfigError,
> {
    match document {
        None => Err(ConfigError::Malformed),
        Some(fields) => config_from_fields(
            lookup(fields, "dir_index"@),
            lookup(fields, "dir_index_name"@),
        ),
    }
}

/// The settings that the text of a settings file gives: none where the text
/// could nest deeper than `MAX_NESTING` levels, else those of the document
/// that it parses to.
pub open spec fn config_of_text(text: Seq<char>) -> Result<SiteConfigView, ConfigError> {
    if nesting_marks(text) > MAX_NESTING {
        Err(ConfigError::TooDeep)
    } else {
        config_of(toml_document(text))
    }
}

/// The default of `dir_index`.
pub fn default_true() -> (enabled: bool)
    ensures
        enabled,
{
    true
}

/// The default of `dir_index_name`.
pub fn default_dir_index_name() -> (name: String)
    ensures
        name@ == "index.html"@,
{
    String::from_str("index.html")
}

impl Clone for SiteConfig {
    fn clone(&self) -> (copy: Self)
        ensures
            copy@ == self@,
    {
        SiteConfig { dir_index: self.dir_index, dir_index_name: self.dir_index_name.clone() }
    }
}

impl Default for SiteConfig {
    /// The settings of a site that has no settings file.
    fn default() -> (config: Self)
        ensures
            config@ == default_config(),
    {
        SiteConfig { dir_index: default_true(), dir_index_name: default_dir_index_name() }
    }
}

impl SiteConfig {
    /// The settings that the text of a settings file gives: `TooDeep` where
    /// the text could nest deeper than `MAX_NESTING` levels, `Malformed`
    /// where it is no TOML document, else what [`SiteConfig::from_fields`]
    /// makes of its keys `dir_index` and `dir_index_name`.
    pub fn new(contents: &str) -> (config: Result<SiteConfig, ConfigError>)
        ensures
            config_view(config) == config_of_text(contents@),
    {
        if count_nesting_marks(contents) > MAX_NESTING {
            return Err(ConfigError::TooDeep);
        }
        match parse_document(contents) {
            Err(_) => Err(ConfigError::Malformed),
            Ok(document) => {
                let dir_index = field_of(&document, "dir_index");
                let dir_index_name = field_of(&document, "dir_index_name");
                SiteConfig::from_fields(dir_index, dir_index_name)
            },
        }
    }

    /// The settings that the values of the two keys give, each `None` where
    /// the file has no such key.
    pub fn from_fields(dir_index: Option<Field>, dir_index_name: Option<Field>) -> (config: Result<
        SiteConfig,
        ConfigError,
    >)
        ensures
            config_view(config) == config_from_fields(
                field_view(dir_index),
                field_view(dir_index_name),
            ),
    {
        let enabled = match dir_index {
            None => default_true(),
            Some(Field::Boolean(b)) => b,
            Some(_) => {
                return Err(ConfigError::DirIndex);
            },
        };
        let name = match dir_index_name {
            None => default_dir_index_name(),
            Some(Field::Text(text)) => text,
            Some(_) => {
                return Err(ConfigError::DirIndexName);
            },
        };
        Ok(SiteConfig { dir_index: enabled, dir_index_name: name })
    }
}

} // verus!
