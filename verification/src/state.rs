use crate::bang::Bang;
use crate::config::{AppConfig, IpAddress};
use std::sync::Arc;
use vstd::prelude::*;

verus! {

/// The lock of `lock_api` that `parking_lot::RwLock` is an alias of: a
/// value of type `T` behind a raw lock of type `R`. Nothing inside it is
/// visible to proofs.
#[verifier::external_type_specification]
#[verifier::external_body]
#[verifier::reject_recursive_types(R)]
#[verifier::reject_recursive_types(T)]
pub struct ExRwLock<R, T: ?Sized>(parking_lot::lock_api::RwLock<R, T>);

/// The raw lock of `parking_lot` that its `RwLock` is built on.
#[verifier::external_type_specification]
#[verifier::external_body]
pub struct ExRawRwLock<const RECURSIVE: bool>(parking_lot::RawRwLock<RECURSIVE>);

/// The part of the configuration that is fixed when the program starts:
/// everything but the overlay list.
#[derive(Debug)]
pub struct Settings {
    pub port: u16,
    pub ip: IpAddress,
    pub bangs_url: String,
    pub default_search: String,
    pub search_suggestions: String,
}

/// The settings of a configuration.
pub open spec fn settings_of(config: AppConfig) -> Settings {
    Settings {
        port: config.port,
        ip: config.ip,
        bangs_url: config.bangs_url,
        default_search: config.default_search,
        search_suggestions: config.search_suggestions,
    }
}

/// The configuration made of settings and an overlay list.
pub open spec fn configured(settings: Settings, bangs: Option<Vec<Bang>>) -> AppConfig {
    AppConfig {
        port: settings.port,
        ip: settings.ip,
        bangs_url: settings.bangs_url,
        default_search: settings.default_search,
        search_suggestions: settings.search_suggestions,
        bangs,
    }
}

/// The configuration of the running program, shared by every reader. The
/// settings never change while the program runs. The overlay list does, on
/// a reload and when a record is added, and one lock guards it.
pub struct AppState {
    pub settings: Arc<Settings>,
    pub overlay: Arc<parking_lot::RwLock<Option<Vec<Bang>>>>,
}

/// Calls `parking_lot::RwLock::new`, which puts the value under a new lock.
#[verifier::external_body]
fn guard(bangs: Option<Vec<Bang>>) -> (lock: parking_lot::RwLock<Option<Vec<Bang>>>) {
    parking_lot::RwLock::new(bangs)
}

/// Calls `RwLock::read`, which waits until no writer holds the lock, and
/// clones the value found under it. What the value is depends on the
/// writers that came before, so the contract claims nothing of it.
#[verifier::external_body]
fn read_copy(lock: &parking_lot::RwLock<Option<Vec<Bang>>>) -> (bangs: Option<Vec<Bang>>) {
    lock.read().clone()
}

/// Calls `RwLock::write` and stores the value under the lock, in the place
/// of the one that was there.
#[verifier::external_body]
fn store(lock: &parking_lot::RwLock<Option<Vec<Bang>>>, bangs: Option<Vec<Bang>>) {
    *lock.write() = bangs;
}

impl AppState {
    /// A state made from a configuration: its settings are those of the
    /// configuration, for good, and the overlay list of the configuration
    /// goes under the lock.
    #[must_use]
    pub fn new(config: AppConfig) -> (state: Self)
        ensures
            *state.settings == settings_of(config),
    {
        let settings = Settings {
            port: config.port,
            ip: config.ip,
            bangs_url: config.bangs_url,
            default_search: config.default_search,
            search_suggestions: config.search_suggestions,
        };
        AppState { settings: Arc::new(settings), overlay: Arc::new(guard(config.bangs)) }
    }

    /// The configuration that the settings of the state make with a given
    /// overlay list.
    pub fn with_overlay(&self, bangs: Option<Vec<Bang>>) -> (config: AppConfig)
        ensures
            config == configured(*self.settings, bangs),
    {
        AppConfig {
            port: self.settings.port,
            ip: self.settings.ip,
            bangs_url: self.settings.bangs_url.clone(),
            default_search: self.settings.default_search.clone(),
            search_suggestions: self.settings.search_suggestions.clone(),
            bangs,
        }
    }

    /// A copy of the configuration as it is at the moment of the call: the
    /// settings of the state, with the overlay list that the lock holds at
    /// that moment.
    #[must_use]
    pub fn get_config(&self) -> (config: AppConfig)
        ensures
            settings_of(config) == *self.settings,
    {
        let bangs = read_copy(&self.overlay);
        self.with_overlay(bangs)
    }

    /// Puts a new overlay list in the place of the current one.
    pub fn set_bangs(&self, bangs: Option<Vec<Bang>>) {
        store(&self.overlay, bangs)
    }
}

impl Clone for AppState {
    fn clone(&self) -> (r: Self)
        ensures
            r.settings == self.settings,
    {
        AppState { settings: self.settings.clone(), overlay: self.overlay.clone() }
    }
}

} // verus!
