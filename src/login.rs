//! The login credentials and the preferences that go with them.

use vstd::prelude::*;
use vstd::string::*;

use crate::text::{contains, json_quote, json_quoted, occurs_in};

verus! {

/// Name of the login file.
pub const LOGIN_NAME: &'static str = "login.json";

/// What a `Login` holds, with its texts as sequences of characters.
pub struct LoginView {
    pub username: Seq<char>,
    pub api_key: Seq<char>,
    pub download_favorites: bool,
    pub ignore_blacklist_on_favorites: bool,
}

/// The login used when none is stored: no credentials, both preferences on.
pub open spec fn default_login_view() -> LoginView {
    LoginView {
        username: Seq::empty(),
        api_key: Seq::empty(),
        download_favorites: true,
        ignore_blacklist_on_favorites: true,
    }
}

/// The text of an optional string field, empty when it is absent.
pub open spec fn text_or_empty(o: Option<String>) -> Seq<char> {
    match o {
        Some(s) => s@,
        None => Seq::empty(),
    }
}

/// The value of an optional flag, `true` when it is absent.
pub open spec fn flag_or_true(o: Option<bool>) -> bool {
    match o {
        Some(b) => b,
        None => true,
    }
}

/// The username or the API key is empty.
pub open spec fn lacks_credentials(v: LoginView) -> bool {
    v.username.len() == 0 || v.api_key.len() == 0
}

/// The keys that every login file is expected to name.
pub open spec fn login_keys() -> Seq<Seq<char>> {
    seq!["Username"@, "APIKey"@, "DownloadFavorites"@, "IgnoreBlacklistOnFavorites"@]
}

/// Some expected key does not occur anywhere in `content`.
pub open spec fn lacks_some_key(content: Seq<char>) -> bool {
    exists|i: int| 0 <= i < login_keys().len() && !occurs_in(#[trigger] login_keys()[i], content)
}

/// The JSON literal for a flag.
pub open spec fn flag_text(b: bool) -> Seq<char> {
    if b {
        "true"@
    } else {
        "false"@
    }
}

/// One line of a pretty-printed JSON object: indentation, the quoted key, a
/// colon and the value, each line but the first after a comma.
pub open spec fn json_member(first: bool, key: Seq<char>, value: Seq<char>) -> Seq<char> {
    (if first {
        "{\n  \""@
    } else {
        ",\n  \""@
    }) + key + "\": "@ + value
}

/// The pretty-printed JSON text of a login file whose texts are written as
/// the JSON string literals `username_json` and `api_key_json`.
pub open spec fn login_document_of(
    username_json: Seq<char>,
    api_key_json: Seq<char>,
    download_favorites: bool,
    ignore_blacklist_on_favorites: bool,
) -> Seq<char> {
    json_member(true, "Username"@, username_json) + json_member(false, "APIKey"@, api_key_json)
        + json_member(false, "DownloadFavorites"@, flag_text(download_favorites)) + json_member(
        false,
        "IgnoreBlacklistOnFavorites"@,
        flag_text(ignore_blacklist_on_favorites),
    ) + "\n}"@
}

/// The pretty-printed JSON text of the login file for `v`.
pub open spec fn login_document(v: LoginView) -> Seq<char> {
    login_document_of(
        json_quoted(v.username),
        json_quoted(v.api_key),
        v.download_favorites,
        v.ignore_blacklist_on_favorites,
    )
}

/// The value that a flag takes when its file leaves it out.
pub fn default_true() -> (r: bool)
    ensures
        r,
{
    true
}

/// `Login` holds what is needed to fetch information about a user, at
/// present only for the blacklist.
#[derive(Debug, Clone)]
pub struct Login {
    /// Username of the user.
    username: String,
    /// The password hash (also known as the API key) of the user.
    api_key: String,
    /// Whether the user wishes to download their favorites.
    download_favorites: bool,
    /// Whether the user wishes to ignore the blacklist when downloading favorites.
    ignore_blacklist_on_favorites: bool,
}

impl View for Login {
    type V = LoginView;

    closed spec fn view(&self) -> LoginView {
        LoginView {
            username: self.username@,
            api_key: self.api_key@,
            download_favorites: self.download_favorites,
            ignore_blacklist_on_favorites: self.ignore_blacklist_on_favorites,
        }
    }
}

/// What loading the login file comes to: the login to use, and the text to
/// write to the file, if it has to be written.
pub struct LoginLoad {
    pub login: Login,
    pub write: Option<String>,
}

impl Login {
    /// Username of the user.
    pub fn username(&self) -> (r: &str)
        ensures
            r@ == self@.username,
    {
        self.username.as_str()
    }

    /// The password hash (also known as the API key) of the user.
    pub fn api_key(&self) -> (r: &str)
        ensures
            r@ == self@.api_key,
    {
        self.api_key.as_str()
    }

    /// Whether the user wishes to download their favorites.
    pub fn download_favorites(&self) -> (r: bool)
        ensures
            r == self@.download_favorites,
    {
        self.download_favorites
    }

    /// Whether the user wishes to ignore the blacklist when downloading favorites.
    pub fn ignore_blacklist_on_favorites(&self) -> (r: bool)
        ensures
            r == self@.ignore_blacklist_on_favorites,
    {
        self.ignore_blacklist_on_favorites
    }

    /// Builds a login from the fields found in its file, `None` for a field
    /// that is absent: an absent text is empty and an absent flag is on.
    pub fn from_fields(
        username: Option<String>,
        api_key: Option<String>,
        download_favorites: Option<bool>,
        ignore_blacklist_on_favorites: Option<bool>,
    ) -> (r: Login)
        ensures
            r@ == (LoginView {
                username: text_or_empty(username),
                api_key: text_or_empty(api_key),
                download_favorites: flag_or_true(download_favorites),
                ignore_blacklist_on_favorites: flag_or_true(ignore_blacklist_on_favorites),
            }),
    {
        Login {
            username: match username {
                Some(s) => s,
                None => String::new(),
            },
            api_key: match api_key {
                Some(s) => s,
                None => String::new(),
            },
            download_favorites: match download_favorites {
                Some(b) => b,
                None => default_true(),
            },
            ignore_blacklist_on_favorites: match ignore_blacklist_on_favorites {
                Some(b) => b,
                None => default_true(),
            },
        }
    }

    /// Whether the username or the API key is missing, so that the features
    /// that need a login cannot be used.
    pub fn is_empty(&self) -> (r: bool)
        ensures
            r == lacks_credentials(self@),
    {
        self.username.as_str().is_empty() || self.api_key.as_str().is_empty()
    }

    /// Whether some expected key is textually absent from the file's content,
    /// so that the file has to be written again with every key.
    pub fn missing_keys(content: &str) -> (r: bool)
        ensures
            r == lacks_some_key(content@),
    {
        let has_username = contains(content, "Username");
        let has_api_key = contains(content, "APIKey");
        let has_favorites = contains(content, "DownloadFavorites");
        let has_ignore = contains(content, "IgnoreBlacklistOnFavorites");
        proof {
            let keys = login_keys();
            if !has_username {
                assert(!occurs_in(keys[0], content@));
            }
            if !has_api_key {
                assert(!occurs_in(keys[1], content@));
            }
            if !has_favorites {
                assert(!occurs_in(keys[2], content@));
            }
            if !has_ignore {
                assert(!occurs_in(keys[3], content@));
            }
            if has_username && has_api_key && has_favorites && has_ignore {
                assert forall|i: int| 0 <= i < keys.len() implies occurs_in(
                    #[trigger] keys[i],
                    content@,
                ) by {
                    if i == 0 {
                    } else if i == 1 {
                    } else if i == 2 {
                    } else {
                    }
                }
            }
        }
        !(has_username && has_api_key && has_favorites && has_ignore)
    }

    /// The login as the pretty-printed JSON text of its file.
    pub fn to_json_pretty(&self) -> (r: String)
        ensures
            r@ == login_document(self@),
    {
        let user = match json_quote(self.username.as_str()) {
            Ok(q) => q,
            Err(_) => unreached(),
        };
        let key = match json_quote(self.api_key.as_str()) {
            Ok(q) => q,
            Err(_) => unreached(),
        };
        Login::document_text(
            user.as_str(),
            key.as_str(),
            self.download_favorites,
            self.ignore_blacklist_on_favorites,
        )
    }

    /// The pretty-printed JSON text of a login file, from the JSON string
    /// literals for its username and API key and from its two flags.
    pub fn document_text(
        username_json: &str,
        api_key_json: &str,
        download_favorites: bool,
        ignore_blacklist_on_favorites: bool,
    ) -> (r: String)
        ensures
            r@ == login_document_of(
                username_json@,
                api_key_json@,
                download_favorites,
                ignore_blacklist_on_favorites,
            ),
    {
        let mut t = String::from_str("{\n  \"");
        t.append("Username");
        t.append("\": ");
        t.append(username_json);
        t.append(",\n  \"");
        t.append("APIKey");
        t.append("\": ");
        t.append(api_key_json);
        t.append(",\n  \"");
        t.append("DownloadFavorites");
        t.append("\": ");
        t.append(if download_favorites { "true" } else { "false" });
        t.append(",\n  \"");
        t.append("IgnoreBlacklistOnFavorites");
        t.append("\": ");
        t.append(if ignore_blacklist_on_favorites { "true" } else { "false" });
        t.append("\n}");
        proof {
            assert(t@ =~= login_document_of(
                username_json@,
                api_key_json@,
                download_favorites,
                ignore_blacklist_on_favorites,
            ));
        }
        t
    }

    /// The text of a newly created login file holding this login.
    pub fn create_login(&self) -> (r: String)
        ensures
            r@ == login_document(self@),
    {
        self.to_json_pretty()
    }

    /// Decides what loading the login file comes to. `existing` is `None` when
    /// there is no file, else its content and the login read from it. With no
    /// file, the default login is used and a file is created for it. With a
    /// file that does not name every expected key, the login read from it is
    /// used and written back, so that the file names every key afterwards.
    pub fn load(existing: Option<(String, Login)>) -> (r: LoginLoad)
        ensures
            existing is None ==> {
                &&& r.login@ == default_login_view()
                &&& r.write matches Some(t) && t@ == login_document(default_login_view())
            },
            existing matches Some(p) ==> {
                &&& r.login@ == p.1@
                &&& r.write is Some <==> lacks_some_key(p.0@)
                &&& r.write matches Some(t) ==> t@ == login_document(p.1@)
            },
    {
        match existing {
            None => {
                let login = Login::default();
                let text = login.create_login();
                LoginLoad { login, write: Some(text) }
            },
            Some((content, login)) => {
                if Login::missing_keys(content.as_str()) {
                    let text = login.to_json_pretty();
                    LoginLoad { login, write: Some(text) }
                } else {
                    LoginLoad { login, write: None }
                }
            },
        }
    }
}

impl Default for Login {
    /// The login used when none is stored: no credentials, both preferences on.
    fn default() -> (r: Login)
        ensures
            r@ == default_login_view(),
    {
        Login {
            username: String::new(),
            api_key: String::new(),
            download_favorites: default_true(),
            ignore_blacklist_on_favorites: default_true(),
        }
    }
}

/// What occurs in `x` occurs in `x` with text put before or after it.
proof fn lemma_occurs_extended(b: Seq<char>, x: Seq<char>, p: Seq<char>, s: Seq<char>)
    requires
        occurs_in(b, x),
    ensures
        occurs_in(b, p + x),
        occurs_in(b, x + s),
{
    let i = choose|i: int|
        0 <= i && i + b.len() <= x.len() && #[trigger] x.subrange(i, i + b.len()) == b;
    assert((p + x).subrange(i + p.len(), i + p.len() + b.len()) =~= x.subrange(i, i + b.len()));
    assert((x + s).subrange(i, i + b.len()) =~= x.subrange(i, i + b.len()));
}

/// `key` occurs in each line of a JSON object that names it.
proof fn lemma_member_names_key(first: bool, key: Seq<char>, value: Seq<char>)
    ensures
        occurs_in(key, json_member(first, key, value)),
{
    let open_ = if first { "{\n  \""@ } else { ",\n  \""@ };
    assert(key.subrange(0, 0 + key.len() as int) =~= key);
    assert(occurs_in(key, key));
    lemma_occurs_extended(key, key, open_, "\": "@);
    lemma_occurs_extended(key, open_ + key, Seq::empty(), "\": "@);
    lemma_occurs_extended(key, open_ + key + "\": "@, Seq::empty(), value);
}

/// The text written for any login names every expected key, so that loading
/// a file written by this library never has to write it again.
pub proof fn lemma_document_names_every_key(v: LoginView)
    ensures
        !lacks_some_key(login_document(v)),
{
    let keys = login_keys();
    let m0 = json_member(true, keys[0], json_quoted(v.username));
    let m1 = json_member(false, keys[1], json_quoted(v.api_key));
    let m2 = json_member(false, keys[2], flag_text(v.download_favorites));
    let m3 = json_member(false, keys[3], flag_text(v.ignore_blacklist_on_favorites));
    let end = "\n}"@;
    let doc = login_document(v);
    assert(doc == m0 + m1 + m2 + m3 + end);
    let e = Seq::<char>::empty();
    lemma_member_names_key(true, keys[0], json_quoted(v.username));
    lemma_occurs_extended(keys[0], m0, e, m1);
    lemma_occurs_extended(keys[0], m0 + m1, e, m2);
    lemma_occurs_extended(keys[0], m0 + m1 + m2, e, m3);
    lemma_occurs_extended(keys[0], m0 + m1 + m2 + m3, e, end);
    lemma_member_names_key(false, keys[1], json_quoted(v.api_key));
    lemma_occurs_extended(keys[1], m1, m0, e);
    lemma_occurs_extended(keys[1], m0 + m1, e, m2);
    lemma_occurs_extended(keys[1], m0 + m1 + m2, e, m3);
    lemma_occurs_extended(keys[1], m0 + m1 + m2 + m3, e, end);
    lemma_member_names_key(false, keys[2], flag_text(v.download_favorites));
    lemma_occurs_extended(keys[2], m2, m0 + m1, e);
    lemma_occurs_extended(keys[2], m0 + m1 + m2, e, m3);
    lemma_occurs_extended(keys[2], m0 + m1 + m2 + m3, e, end);
    lemma_member_names_key(false, keys[3], flag_text(v.ignore_blacklist_on_favorites));
    lemma_occurs_extended(keys[3], m3, m0 + m1 + m2, e);
    lemma_occurs_extended(keys[3], m0 + m1 + m2 + m3, e, end);
    assert forall|i: int| 0 <= i < keys.len() implies occurs_in(#[trigger] keys[i], doc) by {
        if i == 0 {
        } else if i == 1 {
        } else if i == 2 {
        } else {
        }
    }
}

/// The default login has no credentials, and a login with both a username
/// and an API key is not empty.
pub proof fn lemma_empty_until_both_credentials(v: LoginView)
    ensures
        lacks_credentials(default_login_view()),
        v.username.len() > 0 && v.api_key.len() > 0 ==> !lacks_credentials(v),
{
}

} // verus!
