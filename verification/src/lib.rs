//! An alarm-scheduling engine.
//!
//! The core is small: moments with exact duration arithmetic (`moment`),
//! alarms with a three-state life cycle (`alarm`), a scheduler that keeps
//! the alarms still to ring apart from those that have rung (`scheduler`),
//! and the decisions of the loop that drives them (`event_loop`). Around it
//! stand the wake latch (`parker`) and the one-shot stream (`futurestream`)
//! that the loop's sources are made of, the grammar of written times
//! (`timepart`, `calendar`), and what a status bar shows (`waybar`,
//! `tz_display`, `util`, `text`).
//!
//! Waiting, sockets and processes are not part of the library. Its
//! functions take the current time and what was read as arguments, and say
//! what is to be done.
//!
//! What the library takes on trust of std and of the crates `tz` and
//! `async_io` is declared in `span`, `clock`, `zone`, `timer`, and at the
//! head of `alarm`, `text`, `parker` and `cli_config`.

pub mod alarm;
pub mod audio;
pub mod calendar;
pub mod cli_config;
pub mod clock;
pub mod command;
pub mod error;
pub mod event_loop;
pub mod futurestream;
pub mod listeners;
pub mod moment;
pub mod parker;
pub mod scheduler;
pub mod span;
pub mod text;
pub mod timepart;
pub mod timer;
pub mod tz_display;
pub mod util;
pub mod waybar;
pub mod zone;

pub use alarm::{Alarm, AlarmEvent, AlarmState};
pub use command::{AlarmSpec, AlarmSpecError, AppCommand};
pub use error::TimeError;
pub use event_loop::{AppEvent, IterationPlan, MainLoopEvent, Polled};
pub use futurestream::{FutureStream, FutureStreamView, StreamPoll};
pub use moment::UnixMoment;
pub use parker::{InnerParker, LatchPoll, Nudger, Parker};
pub use scheduler::{AlarmList, AlarmListView};
pub use timepart::TimePart;
pub use tz_display::{
    dow_to_str, format_datetime, humanize_datetime, humanize_datetime_full, mon_to_str,
};
pub use util::{duration_to_next_minute, humanize_seconds, unix_seconds_now};
