//! Verified core of the native backend of a desktop audio player.
//!
//! The centre is [`metadata`]: the record of an audio file, filled from the
//! selected tag, from the file name, or refused. Around it stand the
//! file-name heuristic ([`filename`]), the text helpers both rest on
//! ([`text`]), the calls that leave the crate ([`bindings`]), and the
//! decisions of the smaller commands ([`http_client`], [`updates`],
//! [`launch`]). Reading files and talking to the network is left to the
//! caller, who hands in what was read.

pub mod bindings;
pub mod filename;
pub mod http_client;
pub mod launch;
pub mod metadata;
pub mod text;
pub mod updates;
