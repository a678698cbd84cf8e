//! Mount-time gatekeeping for removable volumes: stable disk identities, the
//! approve/veto decision, the sweep over mounted volumes and the handling of
//! system power messages, stated over plain values and verified.

pub mod db_uuid;
pub mod disk;
pub mod dissenter;
pub mod gatekeeper;
pub mod mach;
pub mod session;
pub mod system_events;
