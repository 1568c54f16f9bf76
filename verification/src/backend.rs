//! The miner as a backend of the mining software.

use crate::power::Voltage;
use crate::text::{parse_usize, parsed};
use vstd::prelude::*;

verus! {

/// What the command line says about the backend.
#[derive(Debug)]
pub struct BackendArgs {
    /// Use just one midstate.
    pub disable_asic_boost: bool,
    /// Chip frequency, as it was written.
    pub pll_frequency: Option<String>,
    /// Chip voltage.
    pub voltage: Option<Voltage>,
}

impl BackendArgs {
    /// Whether the chip frequency, if there is one, is a number.
    pub open spec fn valid(self) -> bool {
        self.pll_frequency matches Some(text) ==> parsed(text@) is Some
    }

    /// Whether the settings can be taken over.
    pub fn is_valid(&self) -> (r: bool)
        ensures
            r == self.valid(),
    {
        match &self.pll_frequency {
            Some(text) => parse_usize(text.as_str()).is_some(),
            None => true,
        }
    }
}

/// Settings of the backend.
#[derive(Clone, Copy, Debug)]
pub struct Backend {
    pub pll_frequency: usize,
    pub voltage: Voltage,
}

impl Backend {
    /// A backend with the default settings.
    pub fn new(default_pll_frequency: usize, default_voltage: Voltage) -> (r: Self)
        ensures
            r == (Backend { pll_frequency: default_pll_frequency, voltage: default_voltage }),
    {
        Backend { pll_frequency: default_pll_frequency, voltage: default_voltage }
    }

    /// Takes the settings that the command line gives. Those that it does not give
    /// stay as they are.
    ///
    /// Returns the number of midstates, if the command line changes it: just 1 if
    /// the user requested disabling ASIC boost.
    pub fn init(&mut self, args: &BackendArgs) -> (r: Option<usize>)
        requires
            args.valid(),
        ensures
            r == if args.disable_asic_boost {
                Some(1usize)
            } else {
                None
            },
            final(self).pll_frequency == match args.pll_frequency {
                Some(text) => parsed(text@).unwrap(),
                None => old(self).pll_frequency,
            },
            final(self).voltage == match args.voltage {
                Some(voltage) => voltage,
                None => old(self).voltage,
            },
    {
        if let Some(text) = &args.pll_frequency {
            self.pll_frequency = parse_usize(text.as_str()).unwrap();
        }
        if let Some(voltage) = args.voltage {
            self.voltage = voltage;
        }
        if args.disable_asic_boost {
            Some(1)
        } else {
            None
        }
    }

    /// How the backend is called.
    pub fn name(&self) -> (r: String)
        ensures
            r@ == "Bitmain Antminer S9"@,
    {
        "Bitmain Antminer S9".to_owned()
    }
}

/// Settings are valid unless they hold a chip frequency that is not a number.
pub proof fn law_valid_settings(args: BackendArgs)
    ensures
        args.pll_frequency is None ==> args.valid(),
        args.pll_frequency matches Some(text) ==> (args.valid() <==> parsed(text@) is Some),
{
}

} // verus!
