//! Verified building blocks of a blog backend.
//!
//! The heart of the crate is the pipeline that records anonymous visit
//! statistics: a pseudonymizer that maps addresses and user agents to words
//! of a codebook, the cache in front of it, the bounded queue between the
//! request handlers and the worker, and the enrichment of each visit. Around
//! it stand the rows of the database, the text of its statements, the values
//! of the HTTP interface and the decisions of its handlers. Nothing here
//! reads a file, opens a socket or starts a thread: callers hand in what they
//! read and carry out what is decided.

pub mod config;
pub mod data_transform;
pub mod db;
pub mod stats;
pub mod utils;
pub mod web;
