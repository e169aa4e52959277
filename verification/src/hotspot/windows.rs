//! The access point as the system's tethering service keeps it.

use vstd::prelude::*;

use crate::camera::text::same_text;

verus! {

/// What the tethering service is to be asked for.
#[derive(Copy, Clone, PartialEq, Eq, Structural, Debug)]
pub struct Tethering {
    /// Store the wanted name and passphrase first.
    pub configure: bool,
    /// Switch the service over.
    pub switch: bool,
}

/// An access point: the name of the network and its passphrase.
#[derive(PartialEq, Eq, Debug)]
pub struct HotspotWindows {
    pub ssid: String,
    pub password: String,
}

impl HotspotWindows {
    /// What starting the access point takes, given the name and passphrase
    /// that the service holds and whether it is off: the service is
    /// configured where either differs from the wanted one, and it is
    /// switched on where it is off.
    pub fn start(&self, held_ssid: &str, held_passphrase: &str, is_off: bool) -> (asked: Tethering)
        ensures
            asked.configure == (held_ssid@ != self.ssid@ || held_passphrase@ != self.password@),
            asked.switch == is_off,
    {
        let configure = !same_text(held_ssid, self.ssid.as_str()) || !same_text(
            held_passphrase,
            self.password.as_str(),
        );
        Tethering { configure, switch: is_off }
    }

    /// What stopping the access point takes, given whether the service is
    /// on: it is switched off where it is on, and nothing is stored.
    pub fn stop(&self, is_on: bool) -> (asked: Tethering)
        ensures
            !asked.configure,
            asked.switch == is_on,
    {
        Tethering { configure: false, switch: is_on }
    }
}

} // verus!
