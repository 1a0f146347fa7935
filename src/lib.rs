//! Interaction state machines, command lifecycle and binding orchestration.
pub mod binder;
pub mod binding;
pub mod checker;
pub mod command;
pub mod event_type;
pub mod fsm;
pub mod interaction;
pub mod routines;
pub mod throttle;
