//! A small library for scheduling a system power operation after a delay.
//!
//! `timer` parses a human-friendly duration specification (`now`, `30s`,
//! `1m`, `1h`) into a total number of seconds; `countdown` decides, tick by
//! tick, whether an interruptible one-second-granularity wait keeps going,
//! fires the operation, or is aborted by a cancellation request; `power`
//! maps the selected operation to the host platform's power-management
//! command and to a user-facing description.

pub mod countdown;
pub mod power;
pub mod timer;
