//! Decides what goes into the archiso profile of a contest machine image: which install
//! scripts are written, with which contents, and which files are copied into the profile.
//! Every stage returns the file-system steps it needs, in order; performing them is left to
//! the caller.

pub mod args;
pub mod base;
pub mod base_gui;
pub mod contest_software;
pub mod distinct_names;
pub mod laws;
pub mod lockdown;
pub mod plan;
pub mod pre;
pub mod script_values;
pub mod users;
pub mod util;
