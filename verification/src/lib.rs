//! Beat-synced LED wristbands: the verified core.

pub mod beat_state;
pub mod coordinator;
pub mod crc8;
pub mod display;
pub mod djlink;
pub mod dongle;
pub mod espnow;
pub mod firmware;
pub mod frame;
pub mod le;
pub mod line;
pub mod math;
pub mod on_air;
pub mod protocol;
pub mod serial;
pub mod wifi;
pub mod wristband;
