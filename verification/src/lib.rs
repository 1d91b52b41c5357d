//! Planning and bookkeeping for a GPU film-emulation pipeline.
//!
//! The crate holds everything about the pipeline that can be decided on the
//! CPU from plain values: how source files are classified, how sensor bytes
//! become samples, which textures, buffers and bindings one loaded image
//! needs, how many workgroups a dispatch takes, how a row-padded readback
//! buffer is laid out and unpadded, and which step the session, the native
//! decoder and the export take next. Every function carries a contract that
//! Verus proves.

pub mod codec;
pub mod error;
pub mod export;
pub mod gpu;
pub mod ingest;
pub mod layout;
pub mod linear;
pub mod pipeline;
pub mod raw;
pub mod readback;
pub mod resources;
pub mod session;
