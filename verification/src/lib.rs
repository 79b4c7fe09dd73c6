//! Builds a WebAssembly module into a disc image with a chosen volume label.
//!
//! The library holds every decision of a build: how a project's manifest
//! names its artifact, which programs are run and with which arguments, where
//! files are looked for and put, and how the volume identifier of the finished
//! image is rewritten. It touches neither the file system nor any process:
//! [`pipeline::Pipeline`] hands out one [`pipeline::Action`] at a time and is
//! told by an [`pipeline::Event`] how it went.
pub mod command;
pub mod error;
pub mod layout;
pub mod manifest;
pub mod pipeline;
pub mod profile;
pub mod request;
pub mod scaffold;
pub mod text;
pub mod volume;
