//! Brightness control engine for desktop displays.
//!
//! Two interchangeable strategies adjust perceived brightness: a software
//! strategy that installs a scaled gamma ramp on each display's device
//! context, and a hardware strategy that writes the DDC/CI brightness
//! control (VCP feature 0x10) on each physical monitor. A controller owns
//! the mutually exclusive mode and dispatches every request to exactly one
//! strategy, resetting the outgoing strategy to full brightness whenever
//! the mode is toggled.
//!
//! The engine is pure: it computes ramp tables, device-name handles and
//! per-display write plans, and leaves the operating-system calls that
//! carry them out to the surrounding application.

pub mod brightness;
pub mod display;
pub mod ramp;
pub mod strategy;
