//! Air-quality monitoring logic for an AirGradient desktop companion.
//!
//! Everything here is logic with machine-checked contracts: the alert policy,
//! the measurement history, the colour themes, the comfort verdicts, finding
//! readings in a device payload, the refresh scheduling of the main window,
//! where the app keeps its files, and the texts and classes the cards show.
//! Reading files and the environment, talking to the device, floating-point
//! measurement maths and drawing live outside this crate.

pub mod alerts;
pub mod history;
pub mod launch;
pub mod notifications;
pub mod sensors;
pub mod state;
pub mod storage;
pub mod text;
pub mod theme;
pub mod ui;
