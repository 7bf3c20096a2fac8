//! Extraction of embedded XenonCode sources from Archean blueprints.
//!
//! A blueprint is a tree of components. A component may carry a storage
//! device holding named source files, and may contain further components.
//! This crate locates every file in such a tree, computes where each one is
//! written, sequences the writes of one extraction run, and decides which
//! runs a batch of file-system change notifications calls for.
//!
//! Reading and writing files, watching directories and parsing the command
//! line are left to the caller: every function here works on plain values.
//!
//! * [`blueprint`] holds the component tree and its mathematical view,
//!   [`artifact`] a file paired with its owner and the output path of the
//!   pair.
//! * [`walker`] collects the files of a tree; [`coverage`] proves that it
//!   collects each exactly once, whatever the depth, and [`inventory`]
//!   proves the same of the list of components that hold a device.
//! * [`yank`] turns a job and a blueprint into a plan; [`writer`] carries a
//!   plan out step by step; [`effects`] proves what every run does to the
//!   write root and to the files.
//! * [`watch`] derives jobs from change notifications; [`coalescing`]
//!   proves that each changed path is run on once.
//! * [`config`], [`report`], [`names`] and [`package`] hold job settings,
//!   severities and messages, blueprint file names and package metadata.
//!
//! Everything is verified but two declarations, which are taken on trust:
//! the stem of a path is what `std::path::Path::file_stem` gives (in
//! [`yank`]), and `steamlocate::Error` is a type (in [`config`]).

pub mod artifact;
pub mod blueprint;
pub mod coalescing;
pub mod config;
pub mod coverage;
pub mod effects;
pub mod inventory;
pub mod names;
pub mod package;
pub mod report;
pub mod text;
pub mod walker;
pub mod watch;
pub mod writer;
pub mod yank;
