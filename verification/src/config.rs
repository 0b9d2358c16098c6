//! Configuration model: wheels, simulator, intercom and gene pool settings,
//! and the command-line overrides applied on top of the file's values.
//!
//! Reading the file and parsing the command line happen outside the crate;
//! the merge of the two is verified here.

use vstd::prelude::*;
use crate::vec2::Vec2;

verus! {

/// Placement of a wheel on the chassis, as the actuator side announces it.
#[derive(Clone, Copy, Debug, PartialEq, Eq, Structural)]
pub struct WheelExtrinsics {
    pub pivot: Vec2,
    pub forward: Vec2,
}

/// A configured wheel: its name, GPIO pins and placement.
#[derive(Clone, Debug, PartialEq)]
pub struct Wheel {
    pub name: String,
    pub gpiopins: Vec<u8>,
    pub pivot: Vec2,
    pub forward: Vec2,
}

/// Where the simulator listens.
#[derive(Clone, Debug, PartialEq)]
pub struct Simulation {
    pub url: String,
    pub port: u32,
}

/// The peer link: whether this side listens, and on which port.
#[derive(Clone, Copy, Debug, PartialEq, Eq, Structural)]
pub struct Intercom {
    pub master: bool,
    pub port: u32,
}

/// Where the gene pool lives.
#[derive(Clone, Debug, PartialEq)]
pub struct Genetics {
    pub pool: String,
}

/// The full configuration.
#[derive(Clone, Debug, PartialEq)]
pub struct Config {
    pub wheels: Vec<Wheel>,
    pub simulation: Simulation,
    pub intercom: Intercom,
    pub genetics: Genetics,
    pub watcher: bool,
}

/// Command-line overrides; `None` leaves the file's value in place.
#[derive(Clone, Debug, PartialEq)]
pub struct Overrides {
    pub genepool: Option<String>,
    pub master: Option<bool>,
    pub comport: Option<u32>,
    pub watcher: bool,
}

impl Config {
    /// The configuration with the command-line overrides applied: each
    /// given value replaces the file's value, everything else is kept, and
    /// the watcher subcommand switches the run into replay mode.
    pub fn apply_overrides(self, ov: Overrides) -> (r: Config)
        ensures
            r.genetics.pool@ == (match ov.genepool {
                Some(p) => p@,
                None => self.genetics.pool@,
            }),
            r.intercom.master == (match ov.master {
                Some(m) => m,
                None => self.intercom.master,
            }),
            r.intercom.port == (match ov.comport {
                Some(p) => p,
                None => self.intercom.port,
            }),
            r.watcher == (self.watcher || ov.watcher),
            r.wheels == self.wheels,
            r.simulation == self.simulation,
    {
        let mut c = self;
        match ov.genepool {
            Some(p) => {
                c.genetics.pool = p;
            }
            None => {}
        }
        match ov.master {
            Some(m) => {
                c.intercom.master = m;
            }
            None => {}
        }
        match ov.comport {
            Some(p) => {
                c.intercom.port = p;
            }
            None => {}
        }
        if ov.watcher {
            c.watcher = true;
        }
        c
    }
}

} // verus!
