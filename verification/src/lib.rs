//! Ownership rules for the audio mixer of a handheld console.
//!
//! The crate decides who may drive which mixer channel, which wave buffers may
//! be queued, and which requests have to reach the native mixer; performing
//! those requests is left to the caller.

pub mod services;
