//! Live transcription: audio goes out over a WebSocket in frames, and results come back.

pub mod buffer;
pub mod chunker;
pub mod frames;
pub mod handshake;
pub mod keep_alive;
pub mod pacer;
pub mod receiver;
pub mod sender;
pub mod session;
pub mod websocket;
