//! Core logic of a serverless peer-to-peer chat and voice node: identifiers,
//! the data-channel frame format, the media session and overlay state
//! machines, and the small bounded buffers of the audio path.

pub mod events;
pub mod identity;
pub mod keymap;
pub mod media;
pub mod models;
pub mod network;
pub mod outside;
pub mod rooms;
pub mod scan;
pub mod services;
pub mod strmap;
pub mod text;
pub mod wire;
