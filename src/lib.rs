//! Creature records kept in two linked tables (species and creature) and
//! presented as one joined entity, with transactional create, update and
//! cascading delete.
pub mod entity;
pub mod error;
pub mod paging;
pub mod store;
pub mod laws;
pub mod session;
