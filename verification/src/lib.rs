//! FingerTip core library: keyboard-activity aggregation, theme and mood
//! derivation, capability routing, model-response handling and the
//! supporting text, time and byte-format logic, all verified with Verus.

pub mod aggregator;
pub mod clock;
pub mod cloud;
pub mod config;
pub mod event;
pub mod generate;
pub mod json;
pub mod keymap;
pub mod orchestrator;
pub mod share;
pub mod storage;
pub mod text;
pub mod theme;
pub mod vault;
pub mod wav;
pub mod workflow;
pub mod writer;
