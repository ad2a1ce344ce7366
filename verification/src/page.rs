//! The pages of the application, each as a state machine: a model, the
//! messages it takes, and the transition between them.

pub mod period;
pub mod training_session;
