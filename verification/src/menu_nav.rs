use vstd::prelude::*;

verus! {

/// The emulated platform that RetroVeneer boots into.
#[derive(Clone, Copy, Debug, PartialEq, Eq, Structural)]
pub enum PlatformSelection {
    Invalid,
    CommanderX16,
    Tic80,
}

/// The entries of the "ABOUT" menu, top to bottom.
#[derive(Clone, Copy, Debug, PartialEq, Eq, Structural)]
pub enum AboutSelection {
    RetroVeneer,
    License,
    TheEmulators,
    Directories,
    Back,
}

/// The entries of the "CONFIGURATION" menu, top to bottom.
#[derive(Clone, Copy, Debug, PartialEq, Eq, Structural)]
pub enum ConfigSelection {
    SelectPlatform,
    ChangeAutostart,
    UpdateEverything,
    AboutRetroVeneer,
    LaunchEmulator,
    ExitRetroVeneer,
}

/// The entries of the "UPDATE EVERYTHING" menu, top to bottom.
#[derive(Clone, Copy, Debug, PartialEq, Eq, Structural)]
pub enum UpdateSelection {
    InstallUpdates,
    Back,
}

/// Position of an entry in the about menu (0 is the top).
pub open spec fn about_rank(s: AboutSelection) -> int {
    match s {
        AboutSelection::RetroVeneer => 0,
        AboutSelection::License => 1,
        AboutSelection::TheEmulators => 2,
        AboutSelection::Directories => 3,
        AboutSelection::Back => 4,
    }
}

/// Position of an entry in the configuration menu (0 is the top).
pub open spec fn config_rank(s: ConfigSelection) -> int {
    match s {
        ConfigSelection::SelectPlatform => 0,
        ConfigSelection::ChangeAutostart => 1,
        ConfigSelection::UpdateEverything => 2,
        ConfigSelection::AboutRetroVeneer => 3,
        ConfigSelection::LaunchEmulator => 4,
        ConfigSelection::ExitRetroVeneer => 5,
    }
}

/// Position of a platform in the platform list (the invalid platform is not listed).
pub open spec fn platform_rank(p: PlatformSelection) -> int {
    match p {
        PlatformSelection::Invalid => -1,
        PlatformSelection::CommanderX16 => 0,
        PlatformSelection::Tic80 => 1,
    }
}

/// One step towards the bottom of a list of `len` entries, staying on the last one.
pub open spec fn rank_down(r: int, len: int) -> int {
    if r + 1 < len { r + 1 } else { r }
}

/// One step towards the top of a list, staying on the first one.
pub open spec fn rank_up(r: int) -> int {
    if r > 0 { r - 1 } else { r }
}

/// The about-menu entry at a position; positions past either end give the end entry.
pub open spec fn about_entry(i: int) -> AboutSelection {
    if i <= 0 {
        AboutSelection::RetroVeneer
    } else if i == 1 {
        AboutSelection::License
    } else if i == 2 {
        AboutSelection::TheEmulators
    } else if i == 3 {
        AboutSelection::Directories
    } else {
        AboutSelection::Back
    }
}

/// The configuration-menu entry at a position; positions past either end give the end entry.
pub open spec fn config_entry(i: int) -> ConfigSelection {
    if i <= 0 {
        ConfigSelection::SelectPlatform
    } else if i == 1 {
        ConfigSelection::ChangeAutostart
    } else if i == 2 {
        ConfigSelection::UpdateEverything
    } else if i == 3 {
        ConfigSelection::AboutRetroVeneer
    } else if i == 4 {
        ConfigSelection::LaunchEmulator
    } else {
        ConfigSelection::ExitRetroVeneer
    }
}

/// The platform at a position of the platform list.
pub open spec fn platform_entry(i: int) -> PlatformSelection {
    if i <= 0 {
        PlatformSelection::CommanderX16
    } else {
        PlatformSelection::Tic80
    }
}

/// The about-menu entry that the down key selects.
pub open spec fn about_down(s: AboutSelection) -> AboutSelection {
    about_entry(rank_down(about_rank(s), 5))
}

/// The about-menu entry that the up key selects.
pub open spec fn about_up(s: AboutSelection) -> AboutSelection {
    about_entry(rank_up(about_rank(s)))
}

/// The configuration-menu entry that the down key selects.
pub open spec fn config_down(s: ConfigSelection) -> ConfigSelection {
    config_entry(rank_down(config_rank(s), 6))
}

/// The configuration-menu entry that the up key selects.
pub open spec fn config_up(s: ConfigSelection) -> ConfigSelection {
    config_entry(rank_up(config_rank(s)))
}

/// The platform that the down key selects; the invalid platform is not in the list and stays.
pub open spec fn platform_down(p: PlatformSelection) -> PlatformSelection {
    if p == PlatformSelection::Invalid {
        p
    } else {
        platform_entry(rank_down(platform_rank(p), 2))
    }
}

/// The platform that the up key selects; the invalid platform is not in the list and stays.
pub open spec fn platform_up(p: PlatformSelection) -> PlatformSelection {
    if p == PlatformSelection::Invalid {
        p
    } else {
        platform_entry(rank_up(platform_rank(p)))
    }
}

/// The update-menu entry that the up key selects: "INSTALL UPDATES" is only
/// reachable while it is offered.
pub open spec fn update_up(s: UpdateSelection, updates_available: bool) -> UpdateSelection {
    if updates_available {
        UpdateSelection::InstallUpdates
    } else {
        s
    }
}

impl AboutSelection {
    /// The entry below this one; the last entry stays where it is.
    pub fn below(self) -> (r: AboutSelection)
        ensures
            r == about_down(self),
    {
        match self {
            AboutSelection::RetroVeneer => AboutSelection::License,
            AboutSelection::License => AboutSelection::TheEmulators,
            AboutSelection::TheEmulators => AboutSelection::Directories,
            AboutSelection::Directories => AboutSelection::Back,
            AboutSelection::Back => AboutSelection::Back,
        }
    }

    /// The entry above this one; the first entry stays where it is.
    pub fn above(self) -> (r: AboutSelection)
        ensures
            r == about_up(self),
    {
        match self {
            AboutSelection::RetroVeneer => AboutSelection::RetroVeneer,
            AboutSelection::License => AboutSelection::RetroVeneer,
            AboutSelection::TheEmulators => AboutSelection::License,
            AboutSelection::Directories => AboutSelection::TheEmulators,
            AboutSelection::Back => AboutSelection::Directories,
        }
    }
}

impl ConfigSelection {
    /// The entry below this one; the last entry stays where it is.
    pub fn below(self) -> (r: ConfigSelection)
        ensures
            r == config_down(self),
    {
        match self {
            ConfigSelection::SelectPlatform => ConfigSelection::ChangeAutostart,
            ConfigSelection::ChangeAutostart => ConfigSelection::UpdateEverything,
            ConfigSelection::UpdateEverything => ConfigSelection::AboutRetroVeneer,
            ConfigSelection::AboutRetroVeneer => ConfigSelection::LaunchEmulator,
            ConfigSelection::LaunchEmulator => ConfigSelection::ExitRetroVeneer,
            ConfigSelection::ExitRetroVeneer => ConfigSelection::ExitRetroVeneer,
        }
    }

    /// The entry above this one; the first entry stays where it is.
    pub fn above(self) -> (r: ConfigSelection)
        ensures
            r == config_up(self),
    {
        match self {
            ConfigSelection::SelectPlatform => ConfigSelection::SelectPlatform,
            ConfigSelection::ChangeAutostart => ConfigSelection::SelectPlatform,
            ConfigSelection::UpdateEverything => ConfigSelection::ChangeAutostart,
            ConfigSelection::AboutRetroVeneer => ConfigSelection::UpdateEverything,
            ConfigSelection::LaunchEmulator => ConfigSelection::AboutRetroVeneer,
            ConfigSelection::ExitRetroVeneer => ConfigSelection::LaunchEmulator,
        }
    }
}

impl PlatformSelection {
    /// The platform below this one in the platform list; the invalid
    /// platform, which is not listed, does not move.
    pub fn below(self) -> (r: PlatformSelection)
        ensures
            r == platform_down(self),
    {
        match self {
            PlatformSelection::CommanderX16 => PlatformSelection::Tic80,
            other => other,
        }
    }

    /// The platform above this one in the platform list; the invalid
    /// platform does not move.
    pub fn above(self) -> (r: PlatformSelection)
        ensures
            r == platform_up(self),
    {
        match self {
            PlatformSelection::Tic80 => PlatformSelection::CommanderX16,
            other => other,
        }
    }
}

impl UpdateSelection {
    /// The entry below: "INSTALL UPDATES" moves to "BACK".
    pub fn below(self) -> (r: UpdateSelection)
        ensures
            r == UpdateSelection::Back,
    {
        UpdateSelection::Back
    }

    /// The entry above: "BACK" moves to "INSTALL UPDATES" only while that
    /// entry is offered, that is while updates are available.
    pub fn above(self, updates_available: bool) -> (r: UpdateSelection)
        ensures
            r == update_up(self, updates_available),
    {
        if updates_available {
            UpdateSelection::InstallUpdates
        } else {
            self
        }
    }
}

/// Moving down and then up again comes back to the same about-menu entry,
/// unless the entry was already the last one; moving up and then down
/// comes back unless it was the first.
pub proof fn about_moves_undo(s: AboutSelection)
    ensures
        s != AboutSelection::Back ==> about_up(about_down(s)) == s,
        s != AboutSelection::RetroVeneer ==> about_down(about_up(s)) == s,
        about_down(AboutSelection::Back) == AboutSelection::Back,
        about_up(AboutSelection::RetroVeneer) == AboutSelection::RetroVeneer,
{
}

/// Moving down and then up again comes back to the same configuration entry,
/// unless it was the last one; up then down comes back unless it was the first.
pub proof fn config_moves_undo(s: ConfigSelection)
    ensures
        s != ConfigSelection::ExitRetroVeneer ==> config_up(config_down(s)) == s,
        s != ConfigSelection::SelectPlatform ==> config_down(config_up(s)) == s,
        config_down(ConfigSelection::ExitRetroVeneer) == ConfigSelection::ExitRetroVeneer,
        config_up(ConfigSelection::SelectPlatform) == ConfigSelection::SelectPlatform,
{
}

/// Moving through the platform list never selects the invalid platform, and
/// a move in one direction is undone by a move in the other unless it hit an end.
pub proof fn platform_moves_stay_valid(p: PlatformSelection)
    requires
        p != PlatformSelection::Invalid,
    ensures
        platform_down(p) != PlatformSelection::Invalid,
        platform_up(p) != PlatformSelection::Invalid,
        p != PlatformSelection::Tic80 ==> platform_up(platform_down(p)) == p,
        p != PlatformSelection::CommanderX16 ==> platform_down(platform_up(p)) == p,
{
}

} // verus!
