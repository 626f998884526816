//! The pluggable windowing-backend interface: the surrounding program
//! implements it over the real display server and event loop.

use vstd::prelude::*;

use crate::bar::Config;
use crate::error::Error;

verus! {

/// A windowing backend: run one bar with the given configuration on the
/// monitor with the given index, under a window with the given title, until
/// its window is closed. Implementations live outside the library, next to
/// the display-server connection they drive.
pub trait Protocol {
    fn run(&self, monitor: usize, title: String, config: Config) -> Result<(), Error>;
}

/// The X11 connection marker handed to backend implementations.
pub struct Xcb {}

impl Xcb {
    pub fn new() -> (b: Box<Xcb>) {
        Box::new(Xcb {})
    }
}

} // verus!
