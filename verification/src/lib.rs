//! The networking core of a desktop messenger.

pub mod account;
pub mod admin;
pub mod asks;
pub mod codec;
pub mod command;
pub mod content;
pub mod conversations;
pub mod dispatch;
pub mod economy;
pub mod effects;
pub mod entry;
pub mod framing;
pub mod gateway;
pub mod groups;
pub mod ids;
pub mod inbound;
pub mod link;
pub mod media;
pub mod media_cache;
pub mod members;
pub mod notices;
pub mod peers;
pub mod people;
pub mod quic;
pub mod rest;
pub mod room_bridge;
pub mod rooms;
pub mod rotation;
pub mod rows;
pub mod sealing;
pub mod sending;
pub mod sequence;
pub mod server_probe;
pub mod signed;
pub mod spending;
pub mod sync;
pub mod tcp;
pub mod text;
pub mod timing;
pub mod transcript;
pub mod voice;
pub mod voice_draft;
pub mod voice_listened;
pub mod wallet;
pub mod wire;
pub mod worker;
