//! Automates multi-phase code changes in a repository.
//!
//! A feature's plan is an ordered list of phases. A run drives a
//! change-producing collaborator phase by phase, gates each phase behind
//! shell checks with a bounded number of fix rounds, reviews and verifies the
//! result in bounded loops, asks for a pull request, and records its totals
//! in the plan so that a later run resumes where this one stopped.
//!
//! The library holds the decisions and the text handling of that pipeline,
//! each with its contract: the pipeline itself as a machine ([`run`]), the
//! check, review and verification cycles ([`hooks`], [`cycles`]), the parsers
//! of collaborator output ([`review`], [`pr`], [`verdict`]), branch naming
//! and commit classification ([`git`]), the plan model ([`plan`]), the
//! configuration ([`config`]) and the log file names ([`logs`]). The caller
//! performs the actions: processes, files, the collaborator.
pub mod text;
pub mod review;
pub mod pr;
pub mod verdict;
pub mod plan;
pub mod config;
pub mod git;
pub mod events;
pub mod hooks;
pub mod cycles;
pub mod run;
pub mod logs;
pub mod error;
pub mod templates;
pub mod agent;
pub mod engine;
pub mod cli;
pub mod session;
pub mod planning;
pub mod gitignore;
