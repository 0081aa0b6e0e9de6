pub mod codec;
pub mod health;
pub mod media;
pub mod media_server;
pub mod routes;
pub mod webrtc_api;
