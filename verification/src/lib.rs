//! Verified core of a bare-metal fleet service.
//!
//! * [`work_lock`]: named locks on units of work, kept as rows of a database
//!   table, with the manager loop that serves lock commands one at a time, the
//!   keep-alive loop of a held lock and the failure events both report.
//! * [`health`]: where the BMC endpoints of a cluster come from (an inventory
//!   file or a cluster manager), and which system of a host is the primary one.
//!
//! Everything here decides and computes; sockets, files, the database and the
//! clock are driven from outside, one event at a time.

pub mod health;
pub mod ids;
pub mod laws;
pub mod text;
pub mod time;
pub mod work_lock;
