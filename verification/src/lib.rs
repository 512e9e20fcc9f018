//! Audit-trail core for a privileged file editor.
//!
//! Every file touched through a privileged editing session is mirrored, as a
//! symlink pointing at its absolute canonical path, under a private shadow
//! directory tree — but only if the file is new or was actually modified by
//! the edit. This crate holds the verified core: the seeded 64-bit content
//! hash used to detect modification, the computation of a path's mirror slot
//! under the shadow root, and the state machine that classifies each target
//! path before the edit and decides afterwards whether a mirror is due.
//! The session driver around it (argument handling, environment resolution,
//! the editor subprocess, and all filesystem access) stays outside and hands
//! this crate plain values.

pub mod mirror;
pub mod reconcile;
pub mod xxhash;
