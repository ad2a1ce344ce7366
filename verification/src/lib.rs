//! A guided workout session: the editable form of a training session, the
//! stopwatch, metronome and countdown timer that accompany it, and the state
//! machine that walks through its sections.
//!
//! Every transition is a function from the current state and an event to the
//! next state and a list of commands; whoever embeds the library reads the
//! clocks, performs the commands and feeds the resulting events back.

pub mod builder;
pub mod calendar;
pub mod clock;
pub mod decimal;
pub mod field;
pub mod form;
pub mod guide;
pub mod metronome;
pub mod notification;
pub mod page;
pub mod session;
pub mod stopwatch;
pub mod text;
pub mod timer;
