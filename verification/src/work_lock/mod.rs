//! Named locks on units of work.
//!
//! A lock is a row of the table `work_locks`. A worker holds it until it
//! releases it, or until it has sent no keep-alive for longer than the time-out.

pub mod errors;
pub mod event_laws;
pub mod events;
pub mod handle;
pub mod handle_laws;
pub mod laws;
pub mod lock_table;
pub mod manager;
pub mod manager_laws;
pub mod statements;
pub mod table_laws;
