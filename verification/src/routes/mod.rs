pub mod exchange;
pub mod exchange_laws;
pub mod offer;
pub mod peer_events;
