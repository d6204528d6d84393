//! Run settings: difficulty, population ladder, and the toggles owned
//! by the settings screen.  Immutable for the duration of a run.

use vstd::prelude::*;

verus! {

/// How aggressive the spawn policy is.
#[derive(Clone, Copy, PartialEq, Eq, Structural, Debug)]
pub enum Difficulty {
    Easy,
    Moderate,
    Hard,
}

/// The discrete ladder of population caps.
#[derive(Clone, Copy, PartialEq, Eq, Structural, Debug)]
pub enum EntityCount {
    Hundred,
    FiveHundred,
    Thousand,
    FiveThousand,
    TenThousand,
    TwentyThousand,
    FiftyThousand,
}

/// Settings read by the simulation; owned by the menu layer between
/// runs, read-only during a run.
#[derive(Clone, Copy, PartialEq, Eq, Structural, Debug)]
pub struct GameSettings {
    /// Spawn-policy aggressiveness.
    pub difficulty: Difficulty,
    /// Which population cap the run uses.
    pub entity_count: EntityCount,
    /// Whether background music plays (no effect on the simulation).
    pub music: bool,
    /// Whether enemy contact damages the vehicle.
    pub god_mode: bool,
    /// Whether the debug overlay is drawn (no effect on the simulation).
    pub debug_info: bool,
}

impl GameSettings {
    /// Cycles the difficulty one step along Easy, Moderate, Hard.
    pub fn update_difficulty(&mut self)
        ensures
            final(self).difficulty == (match old(self).difficulty {
                Difficulty::Easy => Difficulty::Moderate,
                Difficulty::Moderate => Difficulty::Hard,
                Difficulty::Hard => Difficulty::Easy,
            }),
            final(self).entity_count == old(self).entity_count,
            final(self).music == old(self).music,
            final(self).god_mode == old(self).god_mode,
            final(self).debug_info == old(self).debug_info,
    {
        self.difficulty = match self.difficulty {
            Difficulty::Easy => Difficulty::Moderate,
            Difficulty::Moderate => Difficulty::Hard,
            Difficulty::Hard => Difficulty::Easy,
        };
    }

    /// Cycles the population cap one step up the ladder, wrapping.
    pub fn update_entity_count(&mut self)
        ensures
            final(self).entity_count == (match old(self).entity_count {
                EntityCount::Hundred => EntityCount::FiveHundred,
                EntityCount::FiveHundred => EntityCount::Thousand,
                EntityCount::Thousand => EntityCount::FiveThousand,
                EntityCount::FiveThousand => EntityCount::TenThousand,
                EntityCount::TenThousand => EntityCount::TwentyThousand,
                EntityCount::TwentyThousand => EntityCount::FiftyThousand,
                EntityCount::FiftyThousand => EntityCount::Hundred,
            }),
            final(self).difficulty == old(self).difficulty,
            final(self).music == old(self).music,
            final(self).god_mode == old(self).god_mode,
            final(self).debug_info == old(self).debug_info,
    {
        self.entity_count = match self.entity_count {
            EntityCount::Hundred => EntityCount::FiveHundred,
            EntityCount::FiveHundred => EntityCount::Thousand,
            EntityCount::Thousand => EntityCount::FiveThousand,
            EntityCount::FiveThousand => EntityCount::TenThousand,
            EntityCount::TenThousand => EntityCount::TwentyThousand,
            EntityCount::TwentyThousand => EntityCount::FiftyThousand,
            EntityCount::FiftyThousand => EntityCount::Hundred,
        };
    }

    /// The population cap the ladder entry stands for.
    pub open spec fn max_zombies_spec(&self) -> int {
        match self.entity_count {
            EntityCount::Hundred => 100,
            EntityCount::FiveHundred => 500,
            EntityCount::Thousand => 1000,
            EntityCount::FiveThousand => 5000,
            EntityCount::TenThousand => 10000,
            EntityCount::TwentyThousand => 20000,
            EntityCount::FiftyThousand => 50000,
        }
    }

    /// The population cap the run uses.
    pub fn get_num_max_zombies(&self) -> (n: usize)
        ensures
            n == self.max_zombies_spec(),
            100 <= n <= 50000,
    {
        match self.entity_count {
            EntityCount::Hundred => 100,
            EntityCount::FiveHundred => 500,
            EntityCount::Thousand => 1000,
            EntityCount::FiveThousand => 5000,
            EntityCount::TenThousand => 10000,
            EntityCount::TwentyThousand => 20000,
            EntityCount::FiftyThousand => 50000,
        }
    }

    /// The difficulty line shown on the settings screen.
    pub fn difficulty_as_str(&self) -> (s: &'static str)
        ensures
            self.difficulty is Easy ==> s@ == "Difficulty - Easy"@,
            self.difficulty is Moderate ==> s@ == "Difficulty - Moderate"@,
            self.difficulty is Hard ==> s@ == "Difficulty - Hard"@,
    {
        match self.difficulty {
            Difficulty::Easy => "Difficulty - Easy",
            Difficulty::Moderate => "Difficulty - Moderate",
            Difficulty::Hard => "Difficulty - Hard",
        }
    }

    /// The god-mode line shown on the settings screen.
    pub fn god_mode_as_str(&self) -> (s: &'static str)
        ensures
            self.god_mode ==> s@ == "God Mode - On"@,
            !self.god_mode ==> s@ == "God Mode - Off"@,
    {
        if self.god_mode {
            "God Mode - On"
        } else {
            "God Mode - Off"
        }
    }

    /// The debug-overlay line shown on the settings screen.
    pub fn debug_info_as_str(&self) -> (s: &'static str)
        ensures
            self.debug_info ==> s@ == "Debug Info - On"@,
            !self.debug_info ==> s@ == "Debug Info - Off"@,
    {
        if self.debug_info {
            "Debug Info - On"
        } else {
            "Debug Info - Off"
        }
    }

    /// The music line shown on the settings screen.
    pub fn music_as_str(&self) -> (s: &'static str)
        ensures
            self.music ==> s@ == "Music - On"@,
            !self.music ==> s@ == "Music - Off"@,
    {
        if self.music {
            "Music - On"
        } else {
            "Music - Off"
        }
    }

    /// The population line shown on the settings screen.
    pub fn entity_count_as_str(&self) -> (s: &'static str)
        ensures
            self.entity_count is Hundred ==> s@ == "Entity Count - 100"@,
            self.entity_count is FiveHundred ==> s@ == "Entity Count - 500"@,
            self.entity_count is Thousand ==> s@ == "Entity Count - 1000"@,
            self.entity_count is FiveThousand ==> s@ == "Entity Count - 5000"@,
            self.entity_count is TenThousand ==> s@ == "Entity Count - 10000"@,
            self.entity_count is TwentyThousand ==> s@ == "Entity Count - 20000"@,
            self.entity_count is FiftyThousand ==> s@ == "Entity Count - 50000"@,
    {
        match self.entity_count {
            EntityCount::Hundred => "Entity Count - 100",
            EntityCount::FiveHundred => "Entity Count - 500",
            EntityCount::Thousand => "Entity Count - 1000",
            EntityCount::FiveThousand => "Entity Count - 5000",
            EntityCount::TenThousand => "Entity Count - 10000",
            EntityCount::TwentyThousand => "Entity Count - 20000",
            EntityCount::FiftyThousand => "Entity Count - 50000",
        }
    }
}

impl Default for GameSettings {
    /// The out-of-the-box settings: easy, five thousand enemies, music
    /// on, god mode and debug overlay off.
    fn default() -> (s: GameSettings)
        ensures
            s.difficulty is Easy,
            s.entity_count is FiveThousand,
            s.music,
            !s.god_mode,
            !s.debug_info,
    {
        GameSettings {
            difficulty: Difficulty::Easy,
            entity_count: EntityCount::FiveThousand,
            music: true,
            god_mode: false,
            debug_info: false,
        }
    }
}

} // verus!
