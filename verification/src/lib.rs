//! The engine of a benchmarking service for image denoising and sampling techniques:
//! the registry of techniques and workspaces, the task queue, the layout of the data
//! root and the synthesis of the results page.
//!
//! The operations here decide what is to be done. They change the state of the
//! database in memory and hand back the steps to take on the file system; carrying
//! those out, and storing the state, is left to the caller.

use vstd::prelude::*;

pub mod actions;
pub mod admin;
pub mod ci;
pub mod cmake;
pub mod config;
pub mod consumer;
pub mod corpus;
pub mod db;
pub mod docker;
pub mod error;
pub mod history;
pub mod info;
pub mod invariants;
pub mod mailer;
pub mod model;
pub mod msgs;
pub mod operations;
pub mod page;
pub mod paths;
pub mod producer;
pub mod publishing;
pub mod results;
pub mod schema;
pub mod seqs;
pub mod server;
pub mod staging;
pub mod system_config;
pub mod text;
pub mod utils;
pub mod webhooks;
pub mod workspace;
mod wrappers;

pub use db::register;
pub use operations::{
    can_run, delete_unpublished_workspace, init_missing_scenes_workspace, publish_private,
    publish_private_at, publish_public, publish_public_at, save_results, save_results_with,
    trim_unpublished, trim_unpublished_at, update_results,
};

verus! {

} // verus!
