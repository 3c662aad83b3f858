//! Event-sourcing persistence for browsers' IndexedDB: the error model, the
//! repository configuration, the layout of the store of events and the
//! decisions that drive IndexedDB transactions.

pub use crate::error::{AggregateErrorKind, IndexDbAggregateError, JsonErrorCategory, PersistenceErrorKind};
pub use crate::event_repository::{
    settle_insert, settle_select, IndexDbEventRepository, InsertBatch, InsertProgress, InsertStep,
};
pub use crate::indexdb::{DatabaseError, PushBatch, PushProgress, PushStep};
pub use crate::schema::{events_store_schema, StoreSchema};
pub use crate::view_repository::IndexDbViewRepository;

pub mod error;
pub mod event_repository;
pub mod indexdb;
pub mod schema;
pub mod view_repository;
