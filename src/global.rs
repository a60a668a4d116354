use vstd::prelude::*;

use crate::configuration::Configuration;

verus! {

/// The state of a holder after it is offered `fresh`: a configuration that
/// is already there stays, otherwise `fresh` is taken.
pub open spec fn initialized(slot: Option<Configuration>, fresh: Configuration) -> Option<Configuration> {
    match slot {
        Some(c) => Some(c),
        None => Some(fresh),
    }
}

/// Holds the program's one configuration: empty until it is first set, and
/// never changed after that.
pub struct ConfigurationCell {
    slot: Option<Configuration>,
}

impl View for ConfigurationCell {
    type V = Option<Configuration>;

    closed spec fn view(&self) -> Option<Configuration> {
        self.slot
    }
}

impl ConfigurationCell {
    /// An empty holder.
    pub fn new() -> (cell: Self)
        ensures
            cell@ is None,
    {
        ConfigurationCell { slot: None }
    }

    /// Whether a configuration has been set.
    pub fn is_initialized(&self) -> (b: bool)
        ensures
            b == self@ is Some,
    {
        self.slot.is_some()
    }

    /// Sets the configuration to `fresh` if none is set yet; otherwise keeps
    /// the one there.
    pub fn initialize(&mut self, fresh: Configuration)
        ensures
            final(self)@ == initialized(old(self)@, fresh),
    {
        if self.slot.is_none() {
            self.slot = Some(fresh);
        }
    }

    /// The configuration, once set.
    pub fn get(&self) -> (r: Option<&Configuration>)
        ensures
            match r {
                Some(c) => self@ == Some(*c),
                None => self@ is None,
            },
    {
        self.slot.as_ref()
    }
}

} // verus!
