//! Verified decision logic of a background UI driver for macOS.
#![allow(unused_imports)]

pub mod ax;
pub mod background_mutation;
pub mod contracts;
pub mod driver;
pub mod errors;
pub mod evidence;
pub mod laws;
pub mod paths;
pub mod text;
