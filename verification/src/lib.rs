//! The core of a command-line tool that installs, lists, removes, and
//! diagnoses opinionated development configurations. The heart of the
//! library is a provider registry and a uniform provider lifecycle
//! (prerequisite check, install, remove), plus the dispatcher decisions that
//! map user commands onto that lifecycle. Every lifecycle phase is a pure
//! decision function over plain observations of the outside world, so the
//! unverified shell performs the prompts, process runs and file work and
//! hands the observed outcomes in as values.

pub mod args;
pub mod biome;
pub mod commands;
pub mod config_registry;
pub mod error;
pub mod name_map;
pub mod outcome;
pub mod registry;
pub mod text;
