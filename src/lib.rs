//! Reactive core of a family of small interrupt-driven firmware images:
//! a timer-driven LED chaser, an edge-triggered key handler, a line-buffered
//! serial echo and a servo sweep. Each interrupt handler is a decision from
//! the observed hardware flags and the shared state to the next state and an
//! ordered list of hardware actions, which the board code performs.

pub mod context;
pub mod action;
pub mod chaser;
pub mod serial;
pub mod keys;
pub mod servo;
