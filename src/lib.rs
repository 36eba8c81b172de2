//! Transactional core of a pooled-asset exchange: creation, redemption and
//! swap of pool shares against baskets of underlying assets.
pub mod basket;
pub mod context;
pub mod error;
pub mod pool;
pub mod state;
pub mod token;
