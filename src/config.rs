//! The general configuration: where downloads go and how files are named.

use vstd::prelude::*;
use vstd::string::*;

use crate::error::SettingsError;
use crate::text::{
    all_ascii, ascii_lower, json_quote, json_quoted, lemma_occurs_between, lower_of, lowercase,
    occurs_in,
};

verus! {

/// Name of the configuration file.
pub const CONFIG_NAME: &'static str = "config.json";

/// Naming convention that names a file by the MD5 hash of its content.
pub open spec fn md5_convention() -> Seq<char> {
    "md5"@
}

/// Naming convention that names a file by the identifier of its post.
pub open spec fn id_convention() -> Seq<char> {
    "id"@
}

/// The naming conventions that a loaded configuration may hold.
pub open spec fn is_known_convention(s: Seq<char>) -> bool {
    s == md5_convention() || s == id_convention()
}

/// What a `Config` holds, as sequences of characters.
pub struct ConfigView {
    pub download_directory: Seq<char>,
    pub naming_convention: Seq<char>,
}

/// The configuration written when none exists yet.
pub open spec fn default_config_view() -> ConfigView {
    ConfigView { download_directory: "downloads/"@, naming_convention: md5_convention() }
}

/// The pretty-printed JSON document for a configuration whose fields are
/// written as the JSON string literals `dir` and `conv`.
pub open spec fn config_document(dir: Seq<char>, conv: Seq<char>) -> Seq<char> {
    "{\n  \"downloadDirectory\": "@ + dir + ",\n  \"fileNamingConvention\": "@ + conv + "\n}"@
}

/// Config that is used to do general setup.
#[derive(Debug)]
pub struct Config {
    /// The location of the download directory.
    download_directory: String,
    /// The file naming convention, `md5` or `id`.
    naming_convention: String,
}

impl View for Config {
    type V = ConfigView;

    closed spec fn view(&self) -> ConfigView {
        ConfigView {
            download_directory: self.download_directory@,
            naming_convention: self.naming_convention@,
        }
    }
}

impl Config {
    /// A configuration always holds a known naming convention.
    #[verifier::type_invariant]
    spec fn inv(&self) -> bool {
        is_known_convention(self.naming_convention@)
    }

    /// The location of the download directory.
    pub fn download_directory(&self) -> (r: &str)
        ensures
            r@ == self@.download_directory,
    {
        self.download_directory.as_str()
    }

    /// The file naming convention (`md5` or `id`).
    pub fn naming_convention(&self) -> (r: &str)
        ensures
            r@ == self@.naming_convention,
            is_known_convention(r@),
    {
        proof {
            use_type_invariant(self);
        }
        self.naming_convention.as_str()
    }

    /// Builds a configuration from a naming convention that is already in
    /// lowercase, rejecting any convention other than `md5` and `id`.
    pub fn validated(download_directory: String, lowered: String) -> (r: Result<
        Config,
        SettingsError,
    >)
        ensures
            r is Ok <==> is_known_convention(lowered@),
            r matches Ok(c) ==> c@ == (ConfigView {
                download_directory: download_directory@,
                naming_convention: lowered@,
            }),
            r matches Err(e) ==> e matches SettingsError::InvalidNamingConvention(s) && s@
                == lowered@,
    {
        let md5 = String::from_str("md5");
        let id = String::from_str("id");
        if lowered == md5 || lowered == id {
            Ok(Config { download_directory, naming_convention: lowered })
        } else {
            Err(SettingsError::InvalidNamingConvention(lowered))
        }
    }

    /// Builds a configuration from the two fields of its file: the naming
    /// convention is turned into lowercase, then must be `md5` or `id`.
    pub fn from_fields(download_directory: String, naming_convention: String) -> (r: Result<
        Config,
        SettingsError,
    >)
        ensures
            r is Ok <==> is_known_convention(lower_of(naming_convention@)),
            r matches Ok(c) ==> c@ == (ConfigView {
                download_directory: download_directory@,
                naming_convention: lower_of(naming_convention@),
            }),
            r matches Err(e) ==> e matches SettingsError::InvalidNamingConvention(s) && s@
                == lower_of(naming_convention@),
            all_ascii(naming_convention@) ==> lower_of(naming_convention@) == ascii_lower(
                naming_convention@,
            ),
    {
        let lowered = lowercase(naming_convention.as_str());
        Config::validated(download_directory, lowered)
    }

    /// Builds a configuration from the fields found in its file, `None` for a
    /// field that is absent. Both fields are required.
    pub fn load_config(download_directory: Option<String>, naming_convention: Option<String>) -> (r:
        Result<Config, SettingsError>)
        ensures
            download_directory is None ==> (r matches Err(SettingsError::Parse(m)) && occurs_in(
                CONFIG_NAME@,
                m@,
            )),
            download_directory is Some && naming_convention is None ==> (r matches Err(
                SettingsError::Parse(m),
            ) && occurs_in(CONFIG_NAME@, m@)),
            download_directory is Some && naming_convention is Some ==> ({
                let d = download_directory->Some_0;
                let n = naming_convention->Some_0;
                &&& r is Ok <==> is_known_convention(lower_of(n@))
                &&& r matches Ok(c) ==> c@ == (ConfigView {
                    download_directory: d@,
                    naming_convention: lower_of(n@),
                })
                &&& r matches Err(e) ==> e matches SettingsError::InvalidNamingConvention(s)
                    && s@ == lower_of(n@)
                &&& all_ascii(n@) ==> lower_of(n@) == ascii_lower(n@)
            }),
    {
        match (download_directory, naming_convention) {
            (Some(d), Some(n)) => Config::from_fields(d, n),
            (None, _) => Err(
                SettingsError::Parse(parse_failure("missing field `downloadDirectory`")),
            ),
            (Some(_), None) => Err(
                SettingsError::Parse(parse_failure("missing field `fileNamingConvention`")),
            ),
        }
    }

    /// The configuration as the pretty-printed JSON text of its file.
    pub fn to_json_pretty(&self) -> (r: String)
        ensures
            r@ == config_document(
                json_quoted(self@.download_directory),
                json_quoted(self@.naming_convention),
            ),
    {
        let dir = match json_quote(self.download_directory.as_str()) {
            Ok(q) => q,
            Err(_) => unreached(),
        };
        let conv = match json_quote(self.naming_convention.as_str()) {
            Ok(q) => q,
            Err(_) => unreached(),
        };
        Config::document_text(dir.as_str(), conv.as_str())
    }

    /// The pretty-printed JSON text of a configuration file, from the JSON
    /// string literals for its two fields.
    pub fn document_text(download_directory_json: &str, naming_convention_json: &str) -> (r:
        String)
        ensures
            r@ == config_document(download_directory_json@, naming_convention_json@),
    {
        let mut t = String::from_str("{\n  \"downloadDirectory\": ");
        t.append(download_directory_json);
        t.append(",\n  \"fileNamingConvention\": ");
        t.append(naming_convention_json);
        t.append("\n}");
        t
    }
}

impl Default for Config {
    /// The configuration written when none exists yet.
    fn default() -> (r: Config)
        ensures
            r@ == default_config_view(),
    {
        Config {
            download_directory: String::from_str("downloads/"),
            naming_convention: String::from_str("md5"),
        }
    }
}

/// A known naming convention is ASCII and already in lowercase: with the
/// contract of `Config::from_fields`, loading the fields of a configuration
/// that holds one keeps its naming convention as it is.
pub proof fn lemma_known_convention_is_lowercase(s: Seq<char>)
    requires
        is_known_convention(s),
    ensures
        all_ascii(s),
        ascii_lower(s) == s,
{
    reveal_strlit("md5");
    reveal_strlit("id");
    assert(ascii_lower(s) =~= s);
}

/// The message of a parse failure of the configuration file: it names the
/// file, then says what is wrong with it.
fn parse_failure(what: &str) -> (r: String)
    ensures
        occurs_in(CONFIG_NAME@, r@),
        occurs_in(what@, r@),
{
    let mut m = String::from_str("Failed to parse config file: ");
    m.append(CONFIG_NAME);
    m.append(": ");
    m.append(what);
    proof {
        let prefix = "Failed to parse config file: "@;
        lemma_occurs_between(prefix, CONFIG_NAME@, ": "@ + what@);
        assert(prefix + CONFIG_NAME@ + (": "@ + what@) =~= m@);
        lemma_occurs_between(prefix + CONFIG_NAME@ + ": "@, what@, Seq::empty());
        assert(prefix + CONFIG_NAME@ + ": "@ + what@ + Seq::empty() =~= m@);
    }
    m
}

} // verus!
