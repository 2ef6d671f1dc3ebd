use e621_settings::config::{Config, CONFIG_NAME};
use e621_settings::error::SettingsError;
use e621_settings::login::{default_true, Login, LOGIN_NAME};
use e621_settings::state::ProcessState;

fn config_of(dir: &str, conv: &str) -> Result<Config, SettingsError> {
    Config::load_config(Some(dir.to_string()), Some(conv.to_string()))
}

fn field(v: &serde_json::Value, key: &str) -> Option<String> {
    v.get(key).and_then(|x| x.as_str()).map(|s| s.to_string())
}

fn flag(v: &serde_json::Value, key: &str) -> Option<bool> {
    v.get(key).and_then(|x| x.as_bool())
}

fn login_of(user: &str, key: &str, favorites: bool, ignore: bool) -> Login {
    Login::from_fields(
        Some(user.to_string()),
        Some(key.to_string()),
        Some(favorites),
        Some(ignore),
    )
}

#[test]
fn file_names() {
    assert_eq!(CONFIG_NAME, "config.json");
    assert_eq!(LOGIN_NAME, "login.json");
}

#[test]
fn uppercase_md5_is_normalized() {
    let c = config_of("out/", "MD5").unwrap();
    assert_eq!(c.naming_convention(), "md5");
    assert_eq!(c.download_directory(), "out/");
}

#[test]
fn unknown_convention_is_rejected_by_name() {
    let r = config_of("out/", "sha256");
    assert_eq!(
        r.unwrap_err(),
        SettingsError::InvalidNamingConvention("sha256".to_string())
    );
}

#[test]
fn every_case_of_known_conventions_is_accepted() {
    for conv in ["md5", "Md5", "mD5", "MD5", "id", "Id", "iD", "ID"] {
        let c = config_of("d/", conv).unwrap();
        assert_eq!(c.naming_convention(), conv.to_lowercase());
    }
}

#[test]
fn other_conventions_are_validation_errors() {
    for conv in ["", "md", "md55", " md5", "i d", "sha1", "ID3", "name"] {
        let r = config_of("d/", conv);
        assert_eq!(
            r.unwrap_err(),
            SettingsError::InvalidNamingConvention(conv.to_lowercase())
        );
    }
}

#[test]
fn missing_config_fields_are_parse_errors() {
    let r = Config::load_config(None, Some("md5".to_string()));
    assert!(matches!(r, Err(SettingsError::Parse(_))));
    let r = Config::load_config(Some("out/".to_string()), None);
    assert!(matches!(r, Err(SettingsError::Parse(_))));
}

#[test]
fn validated_needs_lowercase() {
    assert!(Config::validated("d/".to_string(), "id".to_string()).is_ok());
    assert_eq!(
        Config::validated("d/".to_string(), "ID".to_string()).unwrap_err(),
        SettingsError::InvalidNamingConvention("ID".to_string())
    );
}

#[test]
fn default_config_text() {
    let text = Config::default().to_json_pretty();
    assert_eq!(
        text,
        "{\n  \"downloadDirectory\": \"downloads/\",\n  \"fileNamingConvention\": \"md5\"\n}"
    );
}

#[test]
fn default_config_round_trip() {
    let d = Config::default();
    let text = d.to_json_pretty();
    let v: serde_json::Value = serde_json::from_str(&text).unwrap();
    let back = Config::load_config(
        field(&v, "downloadDirectory"),
        field(&v, "fileNamingConvention"),
    )
    .unwrap();
    assert_eq!(back.download_directory(), d.download_directory());
    assert_eq!(back.naming_convention(), d.naming_convention());
}

#[test]
fn config_text_escapes_strings() {
    let c = config_of("a\"b\\c/", "id").unwrap();
    let text = c.to_json_pretty();
    assert!(text.contains("\"a\\\"b\\\\c/\""));
    let v: serde_json::Value = serde_json::from_str(&text).unwrap();
    assert_eq!(field(&v, "downloadDirectory").unwrap(), "a\"b\\c/");
}

#[test]
fn default_login_is_empty() {
    let l = Login::default();
    assert!(l.is_empty());
    assert_eq!(l.username(), "");
    assert_eq!(l.api_key(), "");
    assert!(l.download_favorites());
    assert!(l.ignore_blacklist_on_favorites());
}

#[test]
fn login_with_both_credentials_is_not_empty() {
    assert!(!login_of("user", "key", true, true).is_empty());
    assert!(login_of("user", "", true, true).is_empty());
    assert!(login_of("", "key", true, true).is_empty());
}

#[test]
fn absent_login_fields_take_defaults() {
    let l = Login::from_fields(Some("u".to_string()), None, Some(false), None);
    assert_eq!(l.username(), "u");
    assert_eq!(l.api_key(), "");
    assert!(!l.download_favorites());
    assert!(l.ignore_blacklist_on_favorites());
    assert!(default_true());
}

#[test]
fn missing_keys_is_textual() {
    let full = "{\"Username\":\"\",\"APIKey\":\"\",\"DownloadFavorites\":true,\"IgnoreBlacklistOnFavorites\":true}";
    assert!(!Login::missing_keys(full));
    let partial = "{\"Username\":\"\",\"APIKey\":\"\",\"DownloadFavorites\":true}";
    assert!(Login::missing_keys(partial));
    assert!(Login::missing_keys(""));
}

#[test]
fn default_login_text() {
    let text = Login::default().create_login();
    assert_eq!(
        text,
        "{\n  \"Username\": \"\",\n  \"APIKey\": \"\",\n  \"DownloadFavorites\": true,\n  \"IgnoreBlacklistOnFavorites\": true\n}"
    );
}

#[test]
fn absent_login_file_is_created_and_reads_back() {
    let first = Login::load(None);
    assert!(first.login.is_empty());
    assert!(first.login.download_favorites());
    assert!(first.login.ignore_blacklist_on_favorites());
    let text = first.write.expect("a new file is written");
    let v: serde_json::Value = serde_json::from_str(&text).unwrap();
    let parsed = Login::from_fields(
        field(&v, "Username"),
        field(&v, "APIKey"),
        flag(&v, "DownloadFavorites"),
        flag(&v, "IgnoreBlacklistOnFavorites"),
    );
    let second = Login::load(Some((text.clone(), parsed)));
    assert!(second.write.is_none());
    assert_eq!(second.login.username(), "");
    assert_eq!(second.login.api_key(), "");
    assert!(second.login.download_favorites());
    assert!(second.login.ignore_blacklist_on_favorites());
}

#[test]
fn login_file_missing_a_key_is_rewritten() {
    let content = "{\"Username\":\"me\",\"APIKey\":\"abc\",\"DownloadFavorites\":false}";
    let v: serde_json::Value = serde_json::from_str(content).unwrap();
    let parsed = Login::from_fields(
        field(&v, "Username"),
        field(&v, "APIKey"),
        flag(&v, "DownloadFavorites"),
        flag(&v, "IgnoreBlacklistOnFavorites"),
    );
    let out = Login::load(Some((content.to_string(), parsed)));
    let text = out.write.expect("the file is written again");
    assert!(text.contains("IgnoreBlacklistOnFavorites"));
    assert_eq!(out.login.username(), "me");
    assert_eq!(out.login.api_key(), "abc");
    assert!(!out.login.download_favorites());
    assert!(out.login.ignore_blacklist_on_favorites());
    let w: serde_json::Value = serde_json::from_str(&text).unwrap();
    assert_eq!(field(&w, "Username").unwrap(), "me");
    assert_eq!(field(&w, "APIKey").unwrap(), "abc");
    assert_eq!(flag(&w, "DownloadFavorites"), Some(false));
    assert_eq!(flag(&w, "IgnoreBlacklistOnFavorites"), Some(true));
}

#[test]
fn complete_login_file_is_left_alone() {
    let content = "{\"Username\":\"me\",\"APIKey\":\"abc\",\"DownloadFavorites\":true,\"IgnoreBlacklistOnFavorites\":false}";
    let parsed = login_of("me", "abc", true, false);
    let out = Login::load(Some((content.to_string(), parsed)));
    assert!(out.write.is_none());
    assert!(!out.login.ignore_blacklist_on_favorites());
}

#[test]
fn config_is_set_once() {
    let mut state = ProcessState::new();
    assert!(Config::initialize(&mut state, config_of("first/", "id")).is_ok());
    let again = Config::initialize(&mut state, config_of("second/", "md5"));
    assert!(matches!(again, Err(SettingsError::AlreadyInitialized(_))));
    assert_eq!(Config::get(&state).download_directory(), "first/");
    assert_eq!(Config::get(&state).naming_convention(), "id");
}

#[test]
fn config_load_error_is_handed_back() {
    let mut state = ProcessState::new();
    let r = Config::initialize(&mut state, config_of("d/", "sha256"));
    assert_eq!(
        r.unwrap_err(),
        SettingsError::InvalidNamingConvention("sha256".to_string())
    );
    assert!(Config::initialize(&mut state, config_of("d/", "md5")).is_ok());
    assert_eq!(Config::get(&state).naming_convention(), "md5");
}

#[test]
fn login_is_set_once() {
    let mut state = ProcessState::new();
    assert!(Login::initialize(&mut state, Ok(login_of("a", "b", false, false))).is_ok());
    let again = Login::initialize(&mut state, Ok(login_of("c", "d", true, true)));
    assert!(matches!(again, Err(SettingsError::AlreadyInitialized(_))));
    assert_eq!(Login::get(&state).username(), "a");
    assert_eq!(Login::get(&state).api_key(), "b");
}

#[test]
fn login_load_error_falls_back_to_defaults() {
    let mut state = ProcessState::new();
    let r = Login::initialize(&mut state, Err(SettingsError::Parse("bad".to_string())));
    assert!(r.is_ok());
    let l = Login::get(&state);
    assert!(l.is_empty());
    assert!(l.download_favorites());
    assert!(l.ignore_blacklist_on_favorites());
}

#[test]
fn config_document_from_quoted_fields() {
    assert_eq!(
        Config::document_text("\"x/\"", "\"id\""),
        "{\n  \"downloadDirectory\": \"x/\",\n  \"fileNamingConvention\": \"id\"\n}"
    );
}

#[test]
fn login_document_from_quoted_fields() {
    assert_eq!(
        Login::document_text("\"u\"", "\"k\"", false, true),
        "{\n  \"Username\": \"u\",\n  \"APIKey\": \"k\",\n  \"DownloadFavorites\": false,\n  \"IgnoreBlacklistOnFavorites\": true\n}"
    );
}

#[test]
fn login_text_escapes_strings() {
    let text = login_of("a\"b", "k\\", true, false).to_json_pretty();
    assert!(text.contains("\"Username\": \"a\\\"b\""));
    assert!(text.contains("\"APIKey\": \"k\\\\\""));
    assert!(text.contains("\"IgnoreBlacklistOnFavorites\": false"));
}

#[test]
fn missing_field_errors_name_the_file() {
    match Config::load_config(None, Some("md5".to_string())) {
        Err(SettingsError::Parse(m)) => {
            assert!(m.contains("config.json"));
            assert!(m.contains("downloadDirectory"));
        }
        _ => panic!("a parse error was expected"),
    }
    match Config::load_config(Some("d/".to_string()), None) {
        Err(SettingsError::Parse(m)) => {
            assert!(m.contains("config.json"));
            assert!(m.contains("fileNamingConvention"));
        }
        _ => panic!("a parse error was expected"),
    }
}

#[test]
fn control_characters_are_escaped() {
    let c = config_of("a\tb\u{1}c\u{1f}", "md5").unwrap();
    let text = c.to_json_pretty();
    assert!(text.contains("\"a\\tb\\u0001c\\u001f\""));
}

#[test]
fn stored_convention_is_known() {
    let mut state = ProcessState::new();
    Config::initialize(&mut state, config_of("x/", "Id")).unwrap();
    let conv = Config::get(&state).naming_convention();
    assert!(conv == "md5" || conv == "id");
}
