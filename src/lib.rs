//! Dynamic-DNS reconciliation: keep one DNS "A" record equal to the
//! machine's public IPv4 address.
//!
//! The library holds the decisions of the updater (which record set is the
//! current one, what an upsert writes, when a tick writes, which interval is
//! acceptable) as verified functions over plain values. The network calls
//! themselves are made by the caller, which feeds their outcomes back in.

pub mod config;
pub mod error;
pub mod my_ip;
pub mod reconcile;
pub mod record;
pub mod text;

pub use config::{interval_from_secs, parse_interval, Config};
pub use error::UpdateError;
pub use my_ip::get_my_ip;
pub use reconcile::{reconcile_step, Action, Event, TickOutcome, TickState};
pub use record::{
    apply_upsert, find_record_set, get_current_ip, update_ip, RecordSet, RecordType, UpsertChange, RECORD_TTL,
};
pub use text::full_record_name;
