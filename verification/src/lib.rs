//! The core of the DropOut launcher, with its contracts proved.
//!
//! The heart of the crate is a file-transfer engine: large files fetched in
//! parallel byte ranges, with a record on disk from which an interrupted
//! transfer resumes (`plan`, `engine`); batches of smaller files fetched
//! under one bound on concurrency (`batch`); the check of content against
//! declared hashes (`integrity`); the queue of transfers to take up again
//! after a crash (`queue`); and the progress reported on the way
//! (`progress`, `cancel`).
//!
//! The crate decides and computes; it performs no input or output. The
//! program around it makes the requests and touches the files that the
//! functions here ask for, and hands back what happened.
//!
//! Around the engine stand the launcher's other rules: Java runtimes
//! (`java`), game instances (`instance`), the rules and arguments of game
//! versions (`rules`, `launch`, `game_version`, `manifest`), modpacks
//! (`modpack`, `modpack_formats`, `curseforge`, `json`), the assistant
//! (`assistant`), settings and accounts (`config`, `auth`, `launcher`,
//! `api`), and text as sequences of characters (`text`).

pub mod api;
pub mod assistant;
pub mod auth;
pub mod batch;
pub mod cancel;
mod clock;
pub mod config;
pub mod curseforge;
pub mod engine;
pub mod game_version;
pub mod instance;
pub mod integrity;
pub mod java;
pub mod json;
pub mod launch;
pub mod launcher;
pub mod manifest;
pub mod modpack;
pub mod modpack_formats;
pub mod plan;
pub mod progress;
pub mod queue;
pub mod rules;
pub mod text;
