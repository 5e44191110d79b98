//! Verified core of a project scaffolding tool.
//!
//! The library validates a requested project name and derives its naming
//! forms ([`name`]), resolves the full set of generated files from the
//! embedded template bundle and two remotely fetched configuration
//! documents, substituting placeholder tokens ([`fileset`], [`subst`],
//! [`archive`]), lays out the fixed directory skeleton ([`layout`]), and
//! drives the linear orchestration state machine that decides what happens
//! next and with which exit status the run ends ([`workflow`]). All
//! filesystem, network and subprocess work is performed by the caller,
//! which reports each outcome back as an event.

pub mod archive;
pub mod chars;
pub mod error;
pub mod fileset;
pub mod layout;
pub mod name;
pub mod remote;
pub mod subst;
pub mod text;
pub mod workflow;
