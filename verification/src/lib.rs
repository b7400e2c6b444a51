//! The decisions of a chat listener that downloads what it is sent.
//!
//! The listener watches messages for web addresses and has an external downloader
//! fetch them. This library holds everything that it decides, and nothing that it
//! does: which messages count ([`policy`]), what in a message is a URL ([`url`]),
//! what is answered and when ([`handler`]), how a download proceeds and how its
//! outcome is reported ([`download`]), and how the environment overrides the
//! configuration ([`settings`]). Talking to the gateway, touching the file system and
//! running the downloader are left to the program around it, which hands in plain
//! values and carries out the actions that come back.

pub mod download;
pub mod handler;
pub mod policy;
pub mod settings;
pub mod text;
pub mod url;
