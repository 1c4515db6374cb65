//! The games that this client can be attached to.

use vstd::prelude::*;
use vstd::string::*;

verus! {

/// The From Software games this client knows how to drive.
#[derive(Clone, Copy, Debug, PartialEq, Eq, Structural)]
pub enum GameType {
    DarkSoulsIII,
    Sekiro,
}

impl GameType {
    /// A short, human-friendly name for a game.
    pub open spec fn spec_short_name(self) -> Seq<char> {
        match self {
            GameType::DarkSoulsIII => "DS3"@,
            GameType::Sekiro => "Sekiro"@,
        }
    }

    /// The file name of a game's static randomizer.
    pub open spec fn spec_static_randomizer_basename(self) -> Seq<char> {
        match self {
            GameType::DarkSoulsIII => "DS3Randomizer.exe"@,
            GameType::Sekiro => "SekiroRandomizer.exe"@,
        }
    }

    /// The name under which the server knows a game.
    pub open spec fn spec_world_name(self) -> Seq<char> {
        match self {
            GameType::DarkSoulsIII => "Dark Souls III"@,
            GameType::Sekiro => "Sekiro: Shadows Die Twice"@,
        }
    }

    /// Returns a short, human-friendly name for this game.
    pub fn short_name(&self) -> (name: &str)
        ensures
            name@ == self.spec_short_name(),
    {
        match self {
            GameType::DarkSoulsIII => "DS3",
            GameType::Sekiro => "Sekiro",
        }
    }

    /// The basename for the static randomizer for this game.
    pub fn static_randomizer_basename(&self) -> (name: &str)
        ensures
            name@ == self.spec_static_randomizer_basename(),
    {
        match self {
            GameType::DarkSoulsIII => "DS3Randomizer.exe",
            GameType::Sekiro => "SekiroRandomizer.exe",
        }
    }

    /// The name under which the server knows this game.
    pub fn world_name(&self) -> (name: &str)
        ensures
            name@ == self.spec_world_name(),
    {
        match self {
            GameType::DarkSoulsIII => "Dark Souls III",
            GameType::Sekiro => "Sekiro: Shadows Die Twice",
        }
    }

    /// The title of the message boxes that this client pops up.
    pub fn message_box_title(&self) -> (title: String)
        ensures
            title@ == self.spec_short_name() + " Archipelago Client"@,
    {
        self.short_name().to_owned().concat(" Archipelago Client")
    }
}

} // verus!
