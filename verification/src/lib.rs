//! Asset index and team coordination for a shared art workspace.
//!
//! The crate has two halves. The coordination half (`team`) decides what the
//! lock, version, permission and activity records under a shared root must
//! become; the caller reads and writes the files. The index half (`db`)
//! drives an embedded relational store through statements that it builds
//! and rows that it decodes itself.
//!
//! Around them stand the rules of a scan (`scanner`, `commands`), the kinds
//! of files and the naming of cached thumbnails (`thumbnail`), and shared
//! text helpers (`text`).

pub mod commands;
pub mod db;
pub mod ffmpeg;
pub mod scanner;
pub mod team;
pub mod text;
pub mod thumbnail;
