//! The configuration that the service runs with, shared by all requests.

use std::sync::Arc;
use vstd::prelude::*;

verus! {

/// Where assets and their metadata records live, and how large an upload
/// may be.
#[derive(Debug, Clone)]
pub struct AppConfig {
    pub max_file_size: u64,
    pub file_path: String,
    pub meta_path: String,
}

/// The mathematical value of an [`AppConfig`].
pub struct ConfigView {
    pub max_file_size: u64,
    pub file_path: Seq<char>,
    pub meta_path: Seq<char>,
}

impl View for AppConfig {
    type V = ConfigView;

    open spec fn view(&self) -> ConfigView {
        ConfigView {
            max_file_size: self.max_file_size,
            file_path: self.file_path@,
            meta_path: self.meta_path@,
        }
    }
}

/// What every request handler of one service instance shares.
#[derive(Debug, Clone)]
pub struct AppStateInner {
    pub conf: AppConfig,
}

/// A cheaply cloned handle on the shared state.
#[derive(Debug, Clone)]
pub struct AppState {
    pub inner: Arc<AppStateInner>,
}

impl View for AppState {
    type V = ConfigView;

    open spec fn view(&self) -> ConfigView {
        self.inner.conf@
    }
}

impl AppState {
    /// Wraps a configuration for sharing between requests.
    pub fn new(config: AppConfig) -> (state: AppState)
        ensures
            state.inner.conf == config,
            state@ == config@,
    {
        AppState { inner: Arc::new(AppStateInner { conf: config }) }
    }

    /// The configuration that this state was made with.
    pub fn conf(&self) -> (conf: &AppConfig)
        ensures
            *conf == self.inner.conf,
            conf@ == self@,
    {
        &self.inner.conf
    }
}

} // verus!
