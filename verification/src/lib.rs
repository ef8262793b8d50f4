//! Settings, presets and input metering for Shure USB microphones.

pub mod actions;
pub mod app;
pub mod catalog;
pub mod decibel;
pub mod effect;
pub mod error;
pub mod headless;
pub mod json;
pub mod meter;
pub mod number;
pub mod presets;
pub mod protocol;
pub mod settings;
pub mod single;
pub mod startup;
pub mod text;
pub mod token;
pub mod value;
