//! Launch-time decisions of the Skillpad desktop shell: which plugins are
//! registered, what the setup hook does, how a second launch is routed to
//! the running instance, and how window events are answered.
pub mod deep_link;
pub mod setup;
pub mod window_event;
