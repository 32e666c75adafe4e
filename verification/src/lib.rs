//! The cache-invalidation and metadata-migration core of a layer-based build
//! system: per layer and per build it decides whether cached contents are
//! kept or recreated, migrates metadata persisted under an older schema
//! forward, and explains every decision in one user-readable line.

pub mod build_output;
pub mod cache_buddy;
pub mod create_bundle_path_layer;
pub mod diff;
pub mod display;
pub mod fmt;
pub mod in_app_dir_cache;
pub mod install_agentmon;
pub mod log;
pub mod migrate;
pub mod ruby_install_layer;
pub mod schemas;
pub mod strings;
pub mod toml_parse;
