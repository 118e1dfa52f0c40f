//! The command line: what its arguments mean.

pub mod commons;
pub mod errors;

use vstd::prelude::*;

verus! {

/// Where the udev rules go unless another path is given.
pub const UDEV_PATH: &'static str = "/etc/udev/rules.d/99-kludged.rules";

/// The commands that change no keyboard.
#[derive(Clone, Debug)]
pub enum Commands {
    /// Write, or configure udev rules.
    Udev { path: String },
}

} // verus!
