//! Settings handling: the settings text holds a `configuration` table with
//! the year, the output path, the input file extension and the session
//! credential. Each field must be present and of the right type; the first
//! field that is missing or mistyped names the error.

use vstd::prelude::*;

verus! {

/// The settings of one run, loaded once and immutable thereafter.
#[derive(Debug, Clone)]
pub struct Config {
    /// Year of the puzzles to fetch.
    pub year: i64,
    /// Directory that holds the fetched files.
    pub path: String,
    /// File extension of the stored input files.
    pub extension: String,
    /// Session credential sent with every request; must be non-empty
    /// before any network traffic starts.
    pub session: String,
}

impl Config {
    /// A run may only reach the network with a non-empty session credential.
    pub open spec fn session_present(&self) -> bool {
        self.session@.len() > 0
    }
}

/// Model of the settings of one run.
#[verifier::ext_equal]
pub struct ConfigModel {
    pub year: i64,
    pub path: Seq<char>,
    pub extension: Seq<char>,
    pub session: Seq<char>,
}

impl View for Config {
    type V = ConfigModel;

    open spec fn view(&self) -> ConfigModel {
        ConfigModel {
            year: self.year,
            path: self.path@,
            extension: self.extension@,
            session: self.session@,
        }
    }
}

/// Why the settings text was rejected, naming the first offending field.
#[derive(Debug, Clone, Copy, PartialEq, Eq, Structural)]
pub enum ConfigError {
    /// The text is not a well-formed settings table.
    Unparsable,
    /// No `configuration` table in the text.
    MissingSection,
    /// No `year` key in the configuration table.
    MissingYear,
    /// The `year` value is not an integer.
    BadYear,
    /// No `path` key in the configuration table.
    MissingPath,
    /// The `path` value is not a string.
    BadPath,
    /// No `extension` key in the configuration table.
    MissingExtension,
    /// The `extension` value is not a string.
    BadExtension,
    /// No `session` key in the configuration table.
    MissingSession,
    /// The `session` value is not a string.
    BadSession,
}

/// Outcome of looking one key up in the configuration table.
pub enum Lookup<T> {
    /// The key is absent.
    Missing,
    /// The key is present but its value has the wrong type.
    WrongType,
    /// The key is present with a value of the right type.
    Present(T),
}

/// Model of an integer field lookup: `None` when the key is absent,
/// `Some(None)` when its value is not an integer, `Some(Some(i))` otherwise.
pub open spec fn int_lookup_model(l: Lookup<i64>) -> Option<Option<i64>> {
    match l {
        Lookup::Missing => None,
        Lookup::WrongType => Some(None),
        Lookup::Present(i) => Some(Some(i)),
    }
}

/// Model of a string field lookup: `None` when the key is absent,
/// `Some(None)` when its value is not a string, `Some(Some(s))` otherwise.
pub open spec fn str_lookup_model(l: Lookup<String>) -> Option<Option<Seq<char>>> {
    match l {
        Lookup::Missing => None,
        Lookup::WrongType => Some(None),
        Lookup::Present(s) => Some(Some(s@)),
    }
}

/// Model of a configuration result.
pub open spec fn config_result_model(r: Result<Config, ConfigError>) -> Result<
    ConfigModel,
    ConfigError,
> {
    match r {
        Ok(c) => Ok(c@),
        Err(e) => Err(e),
    }
}

/// How the field lookups decide the configuration: fields are judged in a
/// fixed order — year, path, extension, session — and the first missing or
/// mistyped one names the error.
pub open spec fn spec_resolve(
    section: bool,
    year: Option<Option<i64>>,
    path: Option<Option<Seq<char>>>,
    extension: Option<Option<Seq<char>>>,
    session: Option<Option<Seq<char>>>,
) -> Result<ConfigModel, ConfigError> {
    if !section {
        Err(ConfigError::MissingSection)
    } else {
        match year {
            None => Err(ConfigError::MissingYear),
            Some(None) => Err(ConfigError::BadYear),
            Some(Some(y)) => match path {
                None => Err(ConfigError::MissingPath),
                Some(None) => Err(ConfigError::BadPath),
                Some(Some(p)) => match extension {
                    None => Err(ConfigError::MissingExtension),
                    Some(None) => Err(ConfigError::BadExtension),
                    Some(Some(e)) => match session {
                        None => Err(ConfigError::MissingSession),
                        Some(None) => Err(ConfigError::BadSession),
                        Some(Some(s)) => Ok(
                            ConfigModel { year: y, path: p, extension: e, session: s },
                        ),
                    },
                },
            },
        }
    }
}

/// Decides the configuration from the individual field lookups. Fields are
/// judged in a fixed order — year, path, extension, session — and the first
/// missing or mistyped one names the error.
pub fn resolve_config(
    section: bool,
    year: Lookup<i64>,
    path: Lookup<String>,
    extension: Lookup<String>,
    session: Lookup<String>,
) -> (r: Result<Config, ConfigError>)
    ensures
        config_result_model(r) == spec_resolve(
            section,
            int_lookup_model(year),
            str_lookup_model(path),
            str_lookup_model(extension),
            str_lookup_model(session),
        ),
        r is Ok <==> (section && year is Present && path is Present && extension is Present
            && session is Present),
        r matches Ok(c) ==> {
            &&& year matches Lookup::Present(y) && c.year == y
            &&& path matches Lookup::Present(p) && c.path@ == p@
            &&& extension matches Lookup::Present(e) && c.extension@ == e@
            &&& session matches Lookup::Present(s) && c.session@ == s@
        },
        !section ==> r == Err::<Config, ConfigError>(ConfigError::MissingSection),
        section && year is Missing ==> r == Err::<Config, ConfigError>(ConfigError::MissingYear),
        section && year is WrongType ==> r == Err::<Config, ConfigError>(ConfigError::BadYear),
        section && year is Present && path is Missing ==> r == Err::<Config, ConfigError>(
            ConfigError::MissingPath,
        ),
        section && year is Present && path is WrongType ==> r == Err::<Config, ConfigError>(
            ConfigError::BadPath,
        ),
        section && year is Present && path is Present && extension is Missing ==> r == Err::<
            Config,
            ConfigError,
        >(ConfigError::MissingExtension),
        section && year is Present && path is Present && extension is WrongType ==> r == Err::<
            Config,
            ConfigError,
        >(ConfigError::BadExtension),
        section && year is Present && path is Present && extension is Present && session
            is Missing ==> r == Err::<Config, ConfigError>(ConfigError::MissingSession),
        section && year is Present && path is Present && extension is Present && session
            is WrongType ==> r == Err::<Config, ConfigError>(ConfigError::BadSession),
{
    if !section {
        return Err(ConfigError::MissingSection);
    }
    let year = match year {
        Lookup::Missing => {
            return Err(ConfigError::MissingYear);
        },
        Lookup::WrongType => {
            return Err(ConfigError::BadYear);
        },
        Lookup::Present(y) => y,
    };
    let path = match path {
        Lookup::Missing => {
            return Err(ConfigError::MissingPath);
        },
        Lookup::WrongType => {
            return Err(ConfigError::BadPath);
        },
        Lookup::Present(p) => p,
    };
    let extension = match extension {
        Lookup::Missing => {
            return Err(ConfigError::MissingExtension);
        },
        Lookup::WrongType => {
            return Err(ConfigError::BadExtension);
        },
        Lookup::Present(e) => e,
    };
    let session = match session {
        Lookup::Missing => {
            return Err(ConfigError::MissingSession);
        },
        Lookup::WrongType => {
            return Err(ConfigError::BadSession);
        },
        Lookup::Present(s) => s,
    };
    Ok(Config { year, path, extension, session })
}

#[verifier::external_type_specification]
#[verifier::external_body]
#[verifier::reject_recursive_types(K)]
#[verifier::reject_recursive_types(V)]
pub struct ExTomlMap<K, V>(toml::map::Map<K, V>);

#[verifier::external_type_specification]
#[verifier::external_body]
pub struct ExTomlValue(toml::Value);

#[verifier::external_type_specification]
#[verifier::external_body]
pub struct ExTomlDeError(toml::de::Error);

/// Whether the text is a well-formed settings table; decided by the text alone.
pub uninterp spec fn toml_parses(text: Seq<char>) -> bool;

/// The settings text a parsed table came from.
pub uninterp spec fn table_source(table: toml::Table) -> Seq<char>;

/// Whether the top-level table of the text holds the key; decided by the
/// text and the key alone.
pub uninterp spec fn table_has_key(text: Seq<char>, key: Seq<char>) -> bool;

/// The settings text an entry of a parsed table came from.
pub uninterp spec fn entry_source(value: toml::Value) -> Seq<char>;

/// The top-level key an entry of a parsed table is stored under.
pub uninterp spec fn entry_key(value: toml::Value) -> Seq<char>;

/// An integer field of a section of the text: `None` when the key is absent
/// (or the section is no table), `Some(None)` when its value is not an
/// integer, `Some(Some(i))` otherwise; decided by the text and the two keys
/// alone.
pub uninterp spec fn integer_field(text: Seq<char>, section: Seq<char>, key: Seq<char>) -> Option<
    Option<i64>,
>;

/// A string field of a section of the text, as `integer_field` but for
/// string values; decided by the text and the two keys alone.
pub uninterp spec fn string_field(text: Seq<char>, section: Seq<char>, key: Seq<char>) -> Option<
    Option<Seq<char>>,
>;

/// Relies on `str::parse::<toml::Table>` (`FromStr` for `toml::Table`):
/// parsing is a deterministic function of the text; the returned table
/// stands for that text.
#[verifier::external_body]
fn parse_table(text: &str) -> (r: Result<toml::Table, toml::de::Error>)
    ensures
        r is Ok <==> toml_parses(text@),
        r matches Ok(t) ==> table_source(t) == text@,
{
    text.parse::<toml::Table>()
}

/// Relies on `toml::map::Map::get`: the lookup finds the key exactly when
/// the parsed text holds it at top level, and the returned entry is that
/// key's entry of that text.
#[verifier::external_body]
fn table_get<'a>(table: &'a toml::Table, key: &str) -> (r: Option<&'a toml::Value>)
    ensures
        r is Some <==> table_has_key(table_source(*table), key@),
        r matches Some(v) ==> entry_source(*v) == table_source(*table) && entry_key(*v) == key@,
{
    table.get(key)
}

/// Relies on `toml::Value::get` and `toml::Value::as_integer`: whether the
/// key is present in the section and whether its value is an integer are
/// deterministic functions of the settings text and the keys.
#[verifier::external_body]
fn section_integer_field(section: &toml::Value, key: &str) -> (r: Lookup<i64>)
    ensures
        int_lookup_model(r) == integer_field(entry_source(*section), entry_key(*section), key@),
{
    match section.get(key) {
        None => Lookup::Missing,
        Some(v) => match v.as_integer() {
            None => Lookup::WrongType,
            Some(i) => Lookup::Present(i),
        },
    }
}

/// Relies on `toml::Value::get` and `toml::Value::as_str`: whether the key
/// is present in the section and its value's characters when it is a string
/// are deterministic functions of the settings text and the keys.
#[verifier::external_body]
fn section_string_field(section: &toml::Value, key: &str) -> (r: Lookup<String>)
    ensures
        str_lookup_model(r) == string_field(entry_source(*section), entry_key(*section), key@),
{
    match section.get(key) {
        None => Lookup::Missing,
        Some(v) => match v.as_str() {
            None => Lookup::WrongType,
            Some(s) => Lookup::Present(s.to_owned()),
        },
    }
}

/// What loading a settings text yields: the text must parse as a settings
/// table, and the `configuration` section's field lookups then decide the
/// result as `spec_resolve` states.
pub open spec fn spec_load_config(text: Seq<char>) -> Result<ConfigModel, ConfigError> {
    if !toml_parses(text) {
        Err(ConfigError::Unparsable)
    } else {
        spec_resolve(
            table_has_key(text, "configuration"@),
            integer_field(text, "configuration"@, "year"@),
            string_field(text, "configuration"@, "path"@),
            string_field(text, "configuration"@, "extension"@),
            string_field(text, "configuration"@, "session"@),
        )
    }
}

/// Reads the settings from the text of the settings file.
pub fn load_config(text: &str) -> (r: Result<Config, ConfigError>)
    ensures
        config_result_model(r) == spec_load_config(text@),
        r == Err::<Config, ConfigError>(ConfigError::Unparsable) <==> !toml_parses(text@),
{
    let table = match parse_table(text) {
        Ok(t) => t,
        Err(_) => {
            return Err(ConfigError::Unparsable);
        },
    };
    match table_get(&table, "configuration") {
        None => resolve_config(
            false,
            Lookup::Missing,
            Lookup::Missing,
            Lookup::Missing,
            Lookup::Missing,
        ),
        Some(section) => {
            let year = section_integer_field(section, "year");
            let path = section_string_field(section, "path");
            let extension = section_string_field(section, "extension");
            let session = section_string_field(section, "session");
            resolve_config(true, year, path, extension, session)
        },
    }
}

} // verus!
