//! The process state: a set-once slot for the configuration and one for the
//! login, filled during start-up and only read afterwards.

use vstd::prelude::*;
use vstd::string::*;

use once_cell::sync::OnceCell;

use crate::config::Config;
use crate::error::SettingsError;
use crate::login::{default_login_view, Login};

verus! {

#[verifier::external_type_specification]
#[verifier::external_body]
#[verifier::reject_recursive_types(T)]
pub struct ExOnceCell<T>(OnceCell<T>);

/// The configuration held by a cell: empty, or the one value it was set to.
pub uninterp spec fn config_cell_contents(c: OnceCell<Config>) -> Seq<Config>;

/// The login held by a cell: empty, or the one value it was set to.
pub uninterp spec fn login_cell_contents(c: OnceCell<Login>) -> Seq<Login>;

/// Relies on `once_cell::sync::OnceCell::new`: a new cell is empty.
#[verifier::external_body]
fn new_config_cell() -> (r: OnceCell<Config>)
    ensures
        config_cell_contents(r).len() == 0,
{
    OnceCell::new()
}

/// Relies on `once_cell::sync::OnceCell::set`: an empty cell takes the value
/// and `Ok` comes back; a full cell keeps its value and hands the new one back.
#[verifier::external_body]
fn set_config_cell(c: &mut OnceCell<Config>, v: Config) -> (r: Result<(), Config>)
    ensures
        config_cell_contents(*old(c)).len() == 0 ==> r is Ok && config_cell_contents(*final(c))
            == seq![v],
        config_cell_contents(*old(c)).len() != 0 ==> (r matches Err(w) && w == v),
        config_cell_contents(*old(c)).len() != 0 ==> config_cell_contents(*final(c))
            == config_cell_contents(*old(c)),
{
    c.set(v)
}

/// Relies on `once_cell::sync::OnceCell::get`: the value of a full cell, `None`
/// for an empty one.
#[verifier::external_body]
fn get_config_cell(c: &OnceCell<Config>) -> (r: Option<&Config>)
    ensures
        r is None <==> config_cell_contents(*c).len() == 0,
        r matches Some(x) ==> config_cell_contents(*c) == seq![*x],
{
    c.get()
}

/// Relies on `once_cell::sync::OnceCell::new`: a new cell is empty.
#[verifier::external_body]
fn new_login_cell() -> (r: OnceCell<Login>)
    ensures
        login_cell_contents(r).len() == 0,
{
    OnceCell::new()
}

/// Relies on `once_cell::sync::OnceCell::set`: an empty cell takes the value
/// and `Ok` comes back; a full cell keeps its value and hands the new one back.
#[verifier::external_body]
fn set_login_cell(c: &mut OnceCell<Login>, v: Login) -> (r: Result<(), Login>)
    ensures
        login_cell_contents(*old(c)).len() == 0 ==> r is Ok && login_cell_contents(*final(c))
            == seq![v],
        login_cell_contents(*old(c)).len() != 0 ==> (r matches Err(w) && w == v),
        login_cell_contents(*old(c)).len() != 0 ==> login_cell_contents(*final(c))
            == login_cell_contents(*old(c)),
{
    c.set(v)
}

/// Relies on `once_cell::sync::OnceCell::get`: the value of a full cell, `None`
/// for an empty one.
#[verifier::external_body]
fn get_login_cell(c: &OnceCell<Login>) -> (r: Option<&Login>)
    ensures
        r is None <==> login_cell_contents(*c).len() == 0,
        r matches Some(x) ==> login_cell_contents(*c) == seq![*x],
{
    c.get()
}

/// The settings of the running process, each set once at start-up.
pub struct ProcessState {
    config: OnceCell<Config>,
    login: OnceCell<Login>,
}

impl ProcessState {
    /// The configuration that was stored, if any.
    pub closed spec fn stored_config(&self) -> Option<Config> {
        let s = config_cell_contents(self.config);
        if s.len() == 0 {
            None
        } else {
            Some(s[0])
        }
    }

    /// The login that was stored, if any.
    pub closed spec fn stored_login(&self) -> Option<Login> {
        let s = login_cell_contents(self.login);
        if s.len() == 0 {
            None
        } else {
            Some(s[0])
        }
    }

    /// A state in which nothing is stored yet.
    pub fn new() -> (r: ProcessState)
        ensures
            r.stored_config() is None,
            r.stored_login() is None,
    {
        ProcessState { config: new_config_cell(), login: new_login_cell() }
    }
}

impl Config {
    /// Stores the configuration that loading gave, once. A loading error is
    /// handed back as it is and nothing is stored; a second configuration is
    /// refused and the first one kept.
    pub fn initialize(state: &mut ProcessState, loaded: Result<Config, SettingsError>) -> (r:
        Result<(), SettingsError>)
        ensures
            final(state).stored_login() == old(state).stored_login(),
            loaded matches Err(e) ==> r == Err::<(), SettingsError>(e) && final(state).stored_config()
                == old(state).stored_config(),
            loaded is Ok && old(state).stored_config() is None ==> r is Ok && final(
                state).stored_config() == Some(loaded->Ok_0),
            loaded is Ok && old(state).stored_config() is Some ==> (r matches Err(
                SettingsError::AlreadyInitialized(_),
            )),
            r is Err ==> final(state).stored_config() == old(state).stored_config(),
    {
        let config = loaded?;
        match set_config_cell(&mut state.config, config) {
            Ok(()) => Ok(()),
            Err(_) => Err(
                SettingsError::AlreadyInitialized(
                    String::from_str("Config has already been initialized!"),
                ),
            ),
        }
    }

    /// The stored configuration. It must have been stored before.
    pub fn get(state: &ProcessState) -> (r: &Config)
        requires
            state.stored_config() is Some,
        ensures
            state.stored_config() == Some(*r),
    {
        get_config_cell(&state.config).unwrap()
    }
}

impl Login {
    /// Stores the login that loading gave, once. Where loading failed, the
    /// default login is stored instead, so that a broken login file never stops
    /// the process; a second login is refused and the first one kept.
    pub fn initialize(state: &mut ProcessState, loaded: Result<Login, SettingsError>) -> (r:
        Result<(), SettingsError>)
        ensures
            final(state).stored_config() == old(state).stored_config(),
            old(state).stored_login() is None ==> r is Ok && final(state).stored_login() is Some,
            loaded is Ok && old(state).stored_login() is None ==> final(state).stored_login()
                == Some(loaded->Ok_0),
            loaded is Err && old(state).stored_login() is None ==> final(state).stored_login()->Some_0@ == default_login_view(),
            old(state).stored_login() is Some ==> (r matches Err(
                SettingsError::AlreadyInitialized(_),
            )),
            old(state).stored_login() is Some ==> final(state).stored_login() == old(
                state).stored_login(),
    {
        let login = match loaded {
            Ok(l) => l,
            Err(_) => Login::default(),
        };
        match set_login_cell(&mut state.login, login) {
            Ok(()) => Ok(()),
            Err(_) => Err(
                SettingsError::AlreadyInitialized(
                    String::from_str("Login has already been initialized!"),
                ),
            ),
        }
    }

    /// The stored login. It must have been stored before.
    pub fn get(state: &ProcessState) -> (r: &Login)
        requires
            state.stored_login() is Some,
        ensures
            state.stored_login() == Some(*r),
    {
        get_login_cell(&state.login).unwrap()
    }
}

} // verus!
