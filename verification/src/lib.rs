//! Core of a system-tray controller for a locally installed input-method
//! service: process inspection, single-instance guarding, service lifecycle
//! plans, and the event-dispatch state machine that keeps the tray checkbox
//! consistent with the observed process state.

pub mod config;
pub mod dispatch;
pub mod guard;
pub mod icon;
pub mod inspector;
pub mod service;
pub mod tray;
