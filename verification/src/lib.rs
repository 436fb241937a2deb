//! Verified core of a trade copier: the decisions, parsers and registries that
//! route trades from a master terminal to its slave terminals.
pub mod text;
pub mod protocol;
pub mod status;
pub mod deps;
pub mod ports;
pub mod config;
pub mod pool;
pub mod worker;
pub mod registry;
pub mod win_config;
pub mod instance_config;
pub mod mac_instances;
pub mod installer;
pub mod managers;
pub mod win_manager;
pub mod experts;
pub mod commands;
pub mod calendar;
pub mod win_cli;
pub mod mac_cli;
pub mod records;
pub mod wine_setup;
