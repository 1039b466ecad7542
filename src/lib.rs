//! Request dispatch and response shaping for a speech-synthesis and
//! file-management HTTP service.
//!
//! The inference engine and the file store are collaborators outside this
//! crate: the functions here decide which collaborator call a request needs
//! and turn the collaborator's outcome into a response. Synthesized speech is
//! returned as raw `audio/wav` bytes, never stored.
pub mod dispatch;
pub mod files;
pub mod http;
pub mod media;
pub mod routing;
pub mod speech;
pub mod text;
