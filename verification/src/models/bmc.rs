//! What a management controller reports about the machine it manages.

use crate::text::same_text;
use vstd::prelude::*;

verus! {

/// Whether a machine is running.
#[derive(Debug, Clone, Copy, PartialEq, Eq)]
pub enum PowerState {
    On,
    Off,
    PoweringOn,
    PoweringOff,
    Unknown,
}

/// The state that a controller's word for it names; `Unknown` for any other
/// word.
pub open spec fn power_state_of(word: Seq<char>) -> PowerState {
    if word == "On"@ {
        PowerState::On
    } else if word == "Off"@ {
        PowerState::Off
    } else if word == "PoweringOn"@ {
        PowerState::PoweringOn
    } else if word == "PoweringOff"@ {
        PowerState::PoweringOff
    } else {
        PowerState::Unknown
    }
}

impl PowerState {
    /// The state that `word` names.
    pub fn from_word(word: &str) -> (state: PowerState)
        ensures
            state == power_state_of(word@),
    {
        if same_text(word, "On") {
            PowerState::On
        } else if same_text(word, "Off") {
            PowerState::Off
        } else if same_text(word, "PoweringOn") {
            PowerState::PoweringOn
        } else if same_text(word, "PoweringOff") {
            PowerState::PoweringOff
        } else {
            PowerState::Unknown
        }
    }
}

impl From<String> for PowerState {
    fn from(s: String) -> (state: Self) {
        PowerState::from_word(s.as_str())
    }
}

impl vstd::std_specs::convert::FromSpecImpl<String> for PowerState {
    open spec fn obeys_from_spec() -> bool {
        true
    }

    open spec fn from_spec(s: String) -> Self {
        power_state_of(s@)
    }
}

impl<'a> From<&'a str> for PowerState {
    fn from(s: &'a str) -> (state: Self) {
        PowerState::from_word(s)
    }
}

impl<'a> vstd::std_specs::convert::FromSpecImpl<&'a str> for PowerState {
    open spec fn obeys_from_spec() -> bool {
        true
    }

    open spec fn from_spec(s: &'a str) -> Self {
        power_state_of(s@)
    }
}

/// The health of a machine as its controller reports it.
#[derive(Debug, Clone, PartialEq, Eq)]
pub struct Status {
    pub state: Option<String>,
    pub health: Option<String>,
}

/// What a controller reports about its machine.
#[derive(Debug, Clone, PartialEq, Eq)]
pub struct SystemInfo {
    pub id: String,
    pub name: String,
    pub power_state: String,
    pub status: Option<Status>,
    pub manufacturer: Option<String>,
    pub model: Option<String>,
    pub serial_number: Option<String>,
    pub bios_version: Option<String>,
}

} // verus!
