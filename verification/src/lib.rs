//! The decision logic of a minimal Gopher server.
//!
//! A request is one selector line. The selector is trimmed and resolved to a
//! path with a classification, a directory is answered with a menu that is
//! rendered once and then reused from its menu file, and anything else is
//! answered with the file's bytes. Everything here works on plain values:
//! the caller reads the line, probes the file system and moves the bytes, and
//! asks this library what to do next. What a whole request comes to, on a
//! file system that behaves as a simple model does, is stated and proved in
//! `model`.

pub mod selector;
pub mod menu;
pub mod server;
pub mod connection;
pub mod model;
