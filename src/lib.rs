//! Decision logic for pointing an antenna rotor at a tracked satellite.
//!
//! The library holds the parts of the tracker that decide: when a new fix
//! is due for reporting, whether the target is above the horizon, the bytes
//! of the positioning command, and how the observer location argument is
//! split into its three values. Reading the clock, propagating the orbit,
//! logging and the network connection are left to the caller.

mod clock;
mod command;
mod location;
mod tracking;

pub use clock::{NS_PER_SEC, epoch_ns, now_ns, timespec_to_ns};
pub use command::{command_text, digits_of, format_command, rounded_tenths, tenths_text};
pub use tracking::{
    Action, Event, Fix, Outcome, TrackingState, FATAL_EXIT_STATUS, REPORT_INTERVAL_NS, acted, due,
    lemma_acted_is_recorded, lemma_due_poll_is_acted, lemma_halt_is_final,
    lemma_last_report_monotonic, lemma_reports_spaced, lemma_visibility_gate, not_after,
    outcome_at, poll_time, state_at, step_spec, visible,
};
pub use location::{
    LocationError, LocationFields, alt_key, fields, has_key, lat_key, location_spec, lon_key,
    lookup, parse_location,
};
