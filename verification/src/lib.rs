//! A relinquishment escrow: a two-vault component that permanently absorbs
//! deposits of two designated badge resources and reports the cumulative
//! amounts it holds. Deposits are validated against the resource identity
//! configured for the targeted vault; there is no withdrawal path and no
//! administrative capability of any kind.

pub mod laws;
pub mod rns_v1_badge_lockers;

pub use rns_v1_badge_lockers::Amount;
pub use rns_v1_badge_lockers::ATTOS_PER_UNIT;
pub use rns_v1_badge_lockers::Deposit;
pub use rns_v1_badge_lockers::Instant;
pub use rns_v1_badge_lockers::LockError;
pub use rns_v1_badge_lockers::ResourceId;
pub use rns_v1_badge_lockers::V1AdminBadgesLockedEvent;
pub use rns_v1_badge_lockers::V1AuthRelinquishment;
pub use rns_v1_badge_lockers::V1LockStatus;
pub use rns_v1_badge_lockers::V1UpgradeBadgeLockedEvent;
