//! Typed, cached resource loading for a real-time engine.
//!
//! `system::ResourceSystem` is the state of the single worker that reads and
//! parses resources: a cache per registered type (`registry`, `arena`), the
//! second-stage systems (`externs`), and the keys in flight that expose
//! circular loads. Filesystems, parsers and second-stage systems are supplied
//! through the traits of `capability`. `laws` states what holds across calls.
//! `audio` checks clip files and assembles decoded clips; `ecs` is a small
//! entity-component store.

pub mod error;
pub mod key;
pub mod arena;
pub mod registry;
pub mod capability;
pub mod externs;
pub mod system;
pub mod laws;
pub mod audio;
pub mod ecs;
