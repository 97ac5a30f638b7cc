//! Helpers that the subsystems share.

pub mod path_utils;
