pub mod text;
pub mod cleanup;
pub mod config;
pub mod input;
pub mod integration_api;
pub mod insertion;
pub mod dictation;
pub mod service;
pub mod host_setup;
pub mod runtime;
pub mod model_installer;
pub mod native_integration;
pub mod host_integration;
pub mod window;
pub mod shortcut_capture;
pub mod preferences;
