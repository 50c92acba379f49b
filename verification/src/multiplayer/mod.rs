pub mod framing;
pub mod packets;
pub mod net_play;
pub mod peer;
