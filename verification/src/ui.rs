use vstd::prelude::*;

use crate::menu_nav::{
    about_down, about_up, config_down, config_up, platform_down, platform_up, update_up,
    AboutSelection, ConfigSelection, PlatformSelection, UpdateSelection,
};

verus! {

/// Number of frames that make up one second of the start-up countdown.
pub const FRAMES_PER_SECOND: u8 = 60;

/// The seconds shown when the start-up countdown begins.
pub const COUNTDOWN_START: u8 = 10;

/// The key that was pressed during a frame, as far as the menus care.
#[derive(Clone, Copy, Debug, PartialEq, Eq, Structural)]
pub enum Key {
    Up,
    Down,
    Enter,
    Escape,
    Other,
}

/// The screen the front end is showing.
#[derive(Clone, Copy, Debug, PartialEq, Eq, Structural)]
pub enum RunMode {
    About,
    AboutRetroVeneer,
    AboutLicense,
    AboutTheEmulators,
    AboutDirectories,
    Configure,
    Countdown,
    EmulatorRunning,
    UpdateEverything,
    SelectPlatform,
}

/// The four text pages reachable from the about menu.
#[derive(Clone, Copy, Debug, PartialEq, Eq, Structural)]
pub enum AboutPage {
    RetroVeneer,
    License,
    TheEmulators,
    Directories,
}

/// Work that a frame asks the surrounding program to carry out, in order.
#[derive(Clone, Copy, Debug, PartialEq, Eq, Structural)]
pub enum Action {
    /// Write the desktop entry that starts RetroVeneer at log-in.
    EnableAutostart,
    /// Remove that desktop entry.
    DisableAutostart,
    /// Store the platform in the configuration file.
    SavePlatform(PlatformSelection),
    /// Write and start the endless launcher script of the platform's emulator.
    LaunchEmulator(PlatformSelection),
    /// Ask the server whether a newer RetroVeneer exists, and report the
    /// answer with `UiState::record_update_check`.
    CheckForUpdates,
    /// Fetch and start the installer in update mode.
    LaunchUpdatedInstaller,
}

/// What the server said when asked for updates.
#[derive(Clone, Copy, Debug, PartialEq, Eq, Structural)]
pub enum UpdateCheck {
    /// The version file could not be fetched.
    NetworkError,
    /// Installs are frozen on the server.
    Frozen,
    /// The installed version is the newest.
    UpToDate,
    /// A different version is published.
    Available,
}

/// What a frame draws: the screen and the values it shows.
#[allow(inconsistent_fields)]
#[derive(Clone, Copy, Debug, PartialEq, Eq, Structural)]
pub enum Screen {
    About { selection: AboutSelection, spinner: u8 },
    AboutPage { page: AboutPage, spinner: u8 },
    Countdown { platform: PlatformSelection, seconds: u8 },
    EmulatorRunning,
    Configure {
        selection: ConfigSelection,
        platform: PlatformSelection,
        autostart_enabled: bool,
        spinner: u8,
    },
    SelectPlatform { selection: PlatformSelection, spinner: u8 },
    UpdateEverything {
        selection: UpdateSelection,
        networking_error: bool,
        install_freeze: bool,
        updates_available: bool,
        spinner: u8,
    },
}

/// Everything the front end remembers between frames.
#[derive(Clone, Copy, Debug, PartialEq, Eq, Structural)]
pub struct UiModel {
    pub run_mode: RunMode,
    pub about_selection: AboutSelection,
    pub config_selection: ConfigSelection,
    pub platform_selection: PlatformSelection,
    pub update_selection: UpdateSelection,
    /// The busy-indicator phase the menus draw.
    pub spinner: u8,
    /// Frames counted within the current second of the countdown.
    pub countdown_tics: u8,
    /// Seconds shown by the countdown.
    pub countdown_seconds: u8,
    pub autostart_enabled: bool,
    pub updates_available: bool,
    pub networking_error: bool,
    pub install_freeze: bool,
    /// Set once the program is to end after this frame.
    pub exit_now: bool,
}

/// What one frame does, stated over the model.
pub struct FrameOutcome {
    pub model: UiModel,
    pub actions: Seq<Action>,
    pub screen: Option<Screen>,
}

/// What one frame hands back: the work to carry out and what to draw
/// (`None` when the frame left the screen without drawing).
pub struct Frame {
    pub actions: Vec<Action>,
    pub screen: Option<Screen>,
}

/// The states the front end can be in: a platform is always chosen, the
/// frame counter stays within a second, and the countdown never shows zero.
pub open spec fn model_ok(m: UiModel) -> bool {
    &&& m.platform_selection != PlatformSelection::Invalid
    &&& m.countdown_tics < FRAMES_PER_SECOND
    &&& m.run_mode == RunMode::Countdown ==> m.countdown_seconds >= 1
}

/// The state right after start-up, given whether autostart is on and the
/// stored platform; without a stored platform the user picks one first.
pub open spec fn initial_model(autostart_enabled: bool, stored: PlatformSelection) -> UiModel {
    UiModel {
        run_mode: if stored == PlatformSelection::Invalid {
            RunMode::SelectPlatform
        } else {
            RunMode::Countdown
        },
        about_selection: AboutSelection::RetroVeneer,
        config_selection: ConfigSelection::SelectPlatform,
        platform_selection: if stored == PlatformSelection::Invalid {
            PlatformSelection::CommanderX16
        } else {
            stored
        },
        update_selection: UpdateSelection::Back,
        spinner: 0,
        countdown_tics: 0,
        countdown_seconds: COUNTDOWN_START,
        autostart_enabled,
        updates_available: false,
        networking_error: false,
        install_freeze: false,
        exit_now: false,
    }
}

/// Entering the configuration menu, with its first entry selected.
pub open spec fn enter_configure(m: UiModel) -> UiModel {
    UiModel { run_mode: RunMode::Configure, config_selection: ConfigSelection::SelectPlatform, ..m }
}

/// Entering the about menu, with its first entry selected.
pub open spec fn enter_about(m: UiModel) -> UiModel {
    UiModel { run_mode: RunMode::About, about_selection: AboutSelection::RetroVeneer, ..m }
}

/// Entering the platform list, with the first platform selected.
pub open spec fn enter_select_platform(m: UiModel) -> UiModel {
    UiModel {
        run_mode: RunMode::SelectPlatform,
        platform_selection: PlatformSelection::CommanderX16,
        ..m
    }
}

/// A frame's new state, work and drawing, put together.
pub open spec fn outcome(m: UiModel, actions: Seq<Action>, screen: Option<Screen>) -> FrameOutcome {
    FrameOutcome { model: m, actions, screen }
}

/// The about menu: arrows move, Enter opens a page or goes back, Escape goes back.
pub open spec fn about_frame(m0: UiModel, key: Option<Key>, spinner_next: u8) -> FrameOutcome {
    let m = UiModel { spinner: spinner_next, ..m0 };
    let sel = m.about_selection;
    match key {
        Some(Key::Escape) => outcome(enter_configure(m), seq![], None),
        Some(Key::Enter) => match sel {
            AboutSelection::RetroVeneer => outcome(
                UiModel { run_mode: RunMode::AboutRetroVeneer, ..m },
                seq![],
                None,
            ),
            AboutSelection::License => outcome(
                UiModel { run_mode: RunMode::AboutLicense, ..m },
                seq![],
                None,
            ),
            AboutSelection::TheEmulators => outcome(
                UiModel { run_mode: RunMode::AboutTheEmulators, ..m },
                seq![],
                None,
            ),
            AboutSelection::Directories => outcome(
                UiModel { run_mode: RunMode::AboutDirectories, ..m },
                seq![],
                None,
            ),
            AboutSelection::Back => outcome(enter_configure(m), seq![], None),
        },
        _ => {
            let new_sel = match key {
                Some(Key::Down) => about_down(sel),
                Some(Key::Up) => about_up(sel),
                _ => sel,
            };
            outcome(
                UiModel { about_selection: new_sel, ..m },
                seq![],
                Some(Screen::About { selection: new_sel, spinner: spinner_next }),
            )
        },
    }
}

/// An about page: Enter or Escape return to the about menu; the page is drawn either way.
pub open spec fn page_frame(m0: UiModel, page: AboutPage, key: Option<Key>, spinner_next: u8) -> FrameOutcome {
    let m = UiModel { spinner: spinner_next, ..m0 };
    let screen = Some(Screen::AboutPage { page, spinner: spinner_next });
    match key {
        Some(Key::Enter) => outcome(enter_about(m), seq![], screen),
        Some(Key::Escape) => outcome(enter_about(m), seq![], screen),
        _ => outcome(m, seq![], screen),
    }
}

/// The start-up countdown: the screen shows the seconds left; Escape opens
/// the configuration menu and stops the countdown; otherwise every sixtieth
/// frame a second passes, and when the last one passes the emulator is launched.
pub open spec fn countdown_frame(m: UiModel, key: Option<Key>) -> FrameOutcome {
    let screen = Some(
        Screen::Countdown { platform: m.platform_selection, seconds: m.countdown_seconds },
    );
    let tics = m.countdown_tics + 1;
    if key == Some(Key::Escape) {
        outcome(enter_configure(m), seq![], screen)
    } else if tics >= FRAMES_PER_SECOND {
        let seconds = m.countdown_seconds - 1;
        let m2 = UiModel { countdown_tics: 0, countdown_seconds: seconds as u8, ..m };
        if seconds == 0 {
            outcome(
                UiModel { run_mode: RunMode::EmulatorRunning, ..m2 },
                seq![Action::LaunchEmulator(m.platform_selection)],
                screen,
            )
        } else {
            outcome(m2, seq![], screen)
        }
    } else {
        outcome(UiModel { countdown_tics: tics as u8, ..m }, seq![], screen)
    }
}

/// The configuration menu: arrows move, Enter acts on the selected entry.
pub open spec fn configure_frame(m0: UiModel, key: Option<Key>, spinner_next: u8) -> FrameOutcome {
    let m = UiModel { spinner: spinner_next, ..m0 };
    let sel = m.config_selection;
    let autostart = m.autostart_enabled;
    let shown = |s: ConfigSelection|
        Some(
            Screen::Configure {
                selection: s,
                platform: m.platform_selection,
                autostart_enabled: autostart,
                spinner: spinner_next,
            },
        );
    match key {
        Some(Key::Enter) => match sel {
            ConfigSelection::SelectPlatform => outcome(enter_select_platform(m), seq![], None),
            ConfigSelection::ChangeAutostart => outcome(
                UiModel { autostart_enabled: !autostart, ..m },
                if autostart {
                    seq![Action::DisableAutostart]
                } else {
                    seq![Action::EnableAutostart]
                },
                shown(sel),
            ),
            ConfigSelection::UpdateEverything => outcome(
                UiModel { run_mode: RunMode::UpdateEverything, ..m },
                seq![Action::CheckForUpdates],
                None,
            ),
            ConfigSelection::AboutRetroVeneer => outcome(enter_about(m), seq![], None),
            ConfigSelection::LaunchEmulator => outcome(
                UiModel { run_mode: RunMode::EmulatorRunning, ..m },
                seq![Action::LaunchEmulator(m.platform_selection)],
                None,
            ),
            ConfigSelection::ExitRetroVeneer => outcome(
                UiModel { exit_now: true, ..m },
                seq![],
                shown(sel),
            ),
        },
        _ => {
            let new_sel = match key {
                Some(Key::Down) => config_down(sel),
                Some(Key::Up) => config_up(sel),
                _ => sel,
            };
            outcome(UiModel { config_selection: new_sel, ..m }, seq![], shown(new_sel))
        },
    }
}

/// The platform list: arrows move, Enter stores the selected platform and
/// opens the configuration menu; the list is drawn either way.
pub open spec fn select_platform_frame(m0: UiModel, key: Option<Key>, spinner_next: u8) -> FrameOutcome {
    let m = UiModel { spinner: spinner_next, ..m0 };
    let sel = m.platform_selection;
    match key {
        Some(Key::Enter) => outcome(
            enter_configure(m),
            seq![Action::SavePlatform(sel)],
            Some(Screen::SelectPlatform { selection: sel, spinner: spinner_next }),
        ),
        _ => {
            let new_sel = match key {
                Some(Key::Down) => platform_down(sel),
                Some(Key::Up) => platform_up(sel),
                _ => sel,
            };
            outcome(
                UiModel { platform_selection: new_sel, ..m },
                seq![],
                Some(Screen::SelectPlatform { selection: new_sel, spinner: spinner_next }),
            )
        },
    }
}

/// The update menu: arrows move, Escape goes back, Enter installs the
/// update (ending the program) or goes back.
pub open spec fn update_frame(m0: UiModel, key: Option<Key>, spinner_next: u8) -> FrameOutcome {
    let m = UiModel { spinner: spinner_next, ..m0 };
    let sel = m.update_selection;
    match key {
        Some(Key::Escape) => outcome(enter_configure(m), seq![], None),
        Some(Key::Enter) => match sel {
            UpdateSelection::InstallUpdates => outcome(
                UiModel { exit_now: true, ..m },
                seq![Action::LaunchUpdatedInstaller],
                None,
            ),
            UpdateSelection::Back => outcome(enter_configure(m), seq![], None),
        },
        _ => {
            let new_sel = match key {
                Some(Key::Down) => UpdateSelection::Back,
                Some(Key::Up) => update_up(sel, m.updates_available),
                _ => sel,
            };
            outcome(
                UiModel { update_selection: new_sel, ..m },
                seq![],
                Some(
                    Screen::UpdateEverything {
                        selection: new_sel,
                        networking_error: m.networking_error,
                        install_freeze: m.install_freeze,
                        updates_available: m.updates_available,
                        spinner: spinner_next,
                    },
                ),
            )
        },
    }
}

/// One frame of the front end, given the key pressed during it (if any) and
/// the busy-indicator phase that the timer has reached.
pub open spec fn frame_outcome(m: UiModel, key: Option<Key>, spinner_next: u8) -> FrameOutcome {
    match m.run_mode {
        RunMode::About => about_frame(m, key, spinner_next),
        RunMode::AboutRetroVeneer => page_frame(m, AboutPage::RetroVeneer, key, spinner_next),
        RunMode::AboutLicense => page_frame(m, AboutPage::License, key, spinner_next),
        RunMode::AboutTheEmulators => page_frame(m, AboutPage::TheEmulators, key, spinner_next),
        RunMode::AboutDirectories => page_frame(m, AboutPage::Directories, key, spinner_next),
        RunMode::Countdown => countdown_frame(m, key),
        RunMode::EmulatorRunning => outcome(m, seq![], Some(Screen::EmulatorRunning)),
        RunMode::Configure => configure_frame(m, key, spinner_next),
        RunMode::SelectPlatform => select_platform_frame(m, key, spinner_next),
        RunMode::UpdateEverything => update_frame(m, key, spinner_next),
    }
}

/// The state after the answer of an update check: a network error or a
/// freeze, once seen, stays reported; updates count as available only when
/// the server published another version.
pub open spec fn after_update_check(m: UiModel, check: UpdateCheck) -> UiModel {
    UiModel {
        networking_error: m.networking_error || check == UpdateCheck::NetworkError,
        install_freeze: m.install_freeze || check == UpdateCheck::Frozen,
        updates_available: check == UpdateCheck::Available,
        ..m
    }
}

/// The front end's state between frames.
pub struct UiState {
    model: UiModel,
}

impl View for UiState {
    type V = UiModel;

    closed spec fn view(&self) -> UiModel {
        self.model
    }
}

fn enter_configure_exec(m: UiModel) -> (r: UiModel)
    ensures
        r == enter_configure(m),
{
    UiModel { run_mode: RunMode::Configure, config_selection: ConfigSelection::SelectPlatform, ..m }
}

fn enter_about_exec(m: UiModel) -> (r: UiModel)
    ensures
        r == enter_about(m),
{
    UiModel { run_mode: RunMode::About, about_selection: AboutSelection::RetroVeneer, ..m }
}

fn about_step(m0: UiModel, key: Option<Key>, spinner_next: u8) -> (r: (UiModel, Vec<Action>, Option<Screen>))
    ensures
        r.0 == about_frame(m0, key, spinner_next).model,
        r.1@ == about_frame(m0, key, spinner_next).actions,
        r.2 == about_frame(m0, key, spinner_next).screen,
{
    let m = UiModel { spinner: spinner_next, ..m0 };
    let sel = m.about_selection;
    match key {
        Some(Key::Escape) => (enter_configure_exec(m), Vec::new(), None),
        Some(Key::Enter) => match sel {
            AboutSelection::RetroVeneer => (
                UiModel { run_mode: RunMode::AboutRetroVeneer, ..m },
                Vec::new(),
                None,
            ),
            AboutSelection::License => (
                UiModel { run_mode: RunMode::AboutLicense, ..m },
                Vec::new(),
                None,
            ),
            AboutSelection::TheEmulators => (
                UiModel { run_mode: RunMode::AboutTheEmulators, ..m },
                Vec::new(),
                None,
            ),
            AboutSelection::Directories => (
                UiModel { run_mode: RunMode::AboutDirectories, ..m },
                Vec::new(),
                None,
            ),
            AboutSelection::Back => (enter_configure_exec(m), Vec::new(), None),
        },
        _ => {
            let new_sel = match key {
                Some(Key::Down) => sel.below(),
                Some(Key::Up) => sel.above(),
                _ => sel,
            };
            (
                UiModel { about_selection: new_sel, ..m },
                Vec::new(),
                Some(Screen::About { selection: new_sel, spinner: spinner_next }),
            )
        },
    }
}

fn page_step(m0: UiModel, page: AboutPage, key: Option<Key>, spinner_next: u8) -> (r: (
    UiModel,
    Vec<Action>,
    Option<Screen>,
))
    ensures
        r.0 == page_frame(m0, page, key, spinner_next).model,
        r.1@ == page_frame(m0, page, key, spinner_next).actions,
        r.2 == page_frame(m0, page, key, spinner_next).screen,
{
    let m = UiModel { spinner: spinner_next, ..m0 };
    let screen = Some(Screen::AboutPage { page, spinner: spinner_next });
    match key {
        Some(Key::Enter) => (enter_about_exec(m), Vec::new(), screen),
        Some(Key::Escape) => (enter_about_exec(m), Vec::new(), screen),
        _ => (m, Vec::new(), screen),
    }
}

fn countdown_step(m: UiModel, key: Option<Key>) -> (r: (UiModel, Vec<Action>, Option<Screen>))
    requires
        model_ok(m),
        m.run_mode == RunMode::Countdown,
    ensures
        r.0 == countdown_frame(m, key).model,
        r.1@ == countdown_frame(m, key).actions,
        r.2 == countdown_frame(m, key).screen,
{
    let screen = Some(
        Screen::Countdown { platform: m.platform_selection, seconds: m.countdown_seconds },
    );
    if let Some(Key::Escape) = key {
        return (enter_configure_exec(m), Vec::new(), screen);
    }
    let tics: u8 = m.countdown_tics + 1;
    if tics >= FRAMES_PER_SECOND {
        let seconds: u8 = m.countdown_seconds - 1;
        let m2 = UiModel { countdown_tics: 0, countdown_seconds: seconds, ..m };
        if seconds == 0 {
            (
                UiModel { run_mode: RunMode::EmulatorRunning, ..m2 },
                vec![Action::LaunchEmulator(m.platform_selection)],
                screen,
            )
        } else {
            (m2, Vec::new(), screen)
        }
    } else {
        (UiModel { countdown_tics: tics, ..m }, Vec::new(), screen)
    }
}

fn configure_step(m0: UiModel, key: Option<Key>, spinner_next: u8) -> (r: (
    UiModel,
    Vec<Action>,
    Option<Screen>,
))
    ensures
        r.0 == configure_frame(m0, key, spinner_next).model,
        r.1@ == configure_frame(m0, key, spinner_next).actions,
        r.2 == configure_frame(m0, key, spinner_next).screen,
{
    let m = UiModel { spinner: spinner_next, ..m0 };
    let sel = m.config_selection;
    let autostart = m.autostart_enabled;
    match key {
        Some(Key::Enter) => match sel {
            ConfigSelection::SelectPlatform => (
                UiModel {
                    run_mode: RunMode::SelectPlatform,
                    platform_selection: PlatformSelection::CommanderX16,
                    ..m
                },
                Vec::new(),
                None,
            ),
            ConfigSelection::ChangeAutostart => {
                let action = if autostart {
                    Action::DisableAutostart
                } else {
                    Action::EnableAutostart
                };
                (
                    UiModel { autostart_enabled: !autostart, ..m },
                    vec![action],
                    Some(
                        Screen::Configure {
                            selection: sel,
                            platform: m.platform_selection,
                            autostart_enabled: autostart,
                            spinner: spinner_next,
                        },
                    ),
                )
            },
            ConfigSelection::UpdateEverything => (
                UiModel { run_mode: RunMode::UpdateEverything, ..m },
                vec![Action::CheckForUpdates],
                None,
            ),
            ConfigSelection::AboutRetroVeneer => (enter_about_exec(m), Vec::new(), None),
            ConfigSelection::LaunchEmulator => (
                UiModel { run_mode: RunMode::EmulatorRunning, ..m },
                vec![Action::LaunchEmulator(m.platform_selection)],
                None,
            ),
            ConfigSelection::ExitRetroVeneer => (
                UiModel { exit_now: true, ..m },
                Vec::new(),
                Some(
                    Screen::Configure {
                        selection: sel,
                        platform: m.platform_selection,
                        autostart_enabled: autostart,
                        spinner: spinner_next,
                    },
                ),
            ),
        },
        _ => {
            let new_sel = match key {
                Some(Key::Down) => sel.below(),
                Some(Key::Up) => sel.above(),
                _ => sel,
            };
            (
                UiModel { config_selection: new_sel, ..m },
                Vec::new(),
                Some(
                    Screen::Configure {
                        selection: new_sel,
                        platform: m.platform_selection,
                        autostart_enabled: autostart,
                        spinner: spinner_next,
                    },
                ),
            )
        },
    }
}

fn select_platform_step(m0: UiModel, key: Option<Key>, spinner_next: u8) -> (r: (
    UiModel,
    Vec<Action>,
    Option<Screen>,
))
    ensures
        r.0 == select_platform_frame(m0, key, spinner_next).model,
        r.1@ == select_platform_frame(m0, key, spinner_next).actions,
        r.2 == select_platform_frame(m0, key, spinner_next).screen,
{
    let m = UiModel { spinner: spinner_next, ..m0 };
    let sel = m.platform_selection;
    match key {
        Some(Key::Enter) => (
            enter_configure_exec(m),
            vec![Action::SavePlatform(sel)],
            Some(Screen::SelectPlatform { selection: sel, spinner: spinner_next }),
        ),
        _ => {
            let new_sel = match key {
                Some(Key::Down) => sel.below(),
                Some(Key::Up) => sel.above(),
                _ => sel,
            };
            (
                UiModel { platform_selection: new_sel, ..m },
                Vec::new(),
                Some(Screen::SelectPlatform { selection: new_sel, spinner: spinner_next }),
            )
        },
    }
}

fn update_step(m0: UiModel, key: Option<Key>, spinner_next: u8) -> (r: (UiModel, Vec<Action>, Option<Screen>))
    ensures
        r.0 == update_frame(m0, key, spinner_next).model,
        r.1@ == update_frame(m0, key, spinner_next).actions,
        r.2 == update_frame(m0, key, spinner_next).screen,
{
    let m = UiModel { spinner: spinner_next, ..m0 };
    let sel = m.update_selection;
    match key {
        Some(Key::Escape) => (enter_configure_exec(m), Vec::new(), None),
        Some(Key::Enter) => match sel {
            UpdateSelection::InstallUpdates => (
                UiModel { exit_now: true, ..m },
                vec![Action::LaunchUpdatedInstaller],
                None,
            ),
            UpdateSelection::Back => (enter_configure_exec(m), Vec::new(), None),
        },
        _ => {
            let new_sel = match key {
                Some(Key::Down) => sel.below(),
                Some(Key::Up) => sel.above(m.updates_available),
                _ => sel,
            };
            (
                UiModel { update_selection: new_sel, ..m },
                Vec::new(),
                Some(
                    Screen::UpdateEverything {
                        selection: new_sel,
                        networking_error: m.networking_error,
                        install_freeze: m.install_freeze,
                        updates_available: m.updates_available,
                        spinner: spinner_next,
                    },
                ),
            )
        },
    }
}

impl UiState {
    #[verifier::type_invariant]
    spec fn well_formed(self) -> bool {
        model_ok(self.model)
    }

    /// The state at start-up, from whether autostart is on and the platform
    /// read from the configuration (`Invalid` when none is stored): with a
    /// stored platform the countdown runs, otherwise the platform list opens
    /// with the first platform selected.
    pub fn new(autostart_enabled: bool, stored: PlatformSelection) -> (r: UiState)
        ensures
            r@ == initial_model(autostart_enabled, stored),
            model_ok(r@),
    {
        let (run_mode, platform_selection) = match stored {
            PlatformSelection::Invalid => (RunMode::SelectPlatform, PlatformSelection::CommanderX16),
            _ => (RunMode::Countdown, stored),
        };
        UiState {
            model: UiModel {
                run_mode,
                about_selection: AboutSelection::RetroVeneer,
                config_selection: ConfigSelection::SelectPlatform,
                platform_selection,
                update_selection: UpdateSelection::Back,
                spinner: 0,
                countdown_tics: 0,
                countdown_seconds: COUNTDOWN_START,
                autostart_enabled,
                updates_available: false,
                networking_error: false,
                install_freeze: false,
                exit_now: false,
            },
        }
    }

    /// Runs one frame: handles the key pressed during it, takes over the
    /// busy-indicator phase (on the screens that show it), and says what to
    /// carry out and what to draw.
    pub fn frame(&mut self, key: Option<Key>, spinner_next: u8) -> (r: Frame)
        ensures
            model_ok(old(self)@),
            model_ok(final(self)@),
            final(self)@ == frame_outcome(old(self)@, key, spinner_next).model,
            r.actions@ == frame_outcome(old(self)@, key, spinner_next).actions,
            r.screen == frame_outcome(old(self)@, key, spinner_next).screen,
    {
        proof {
            use_type_invariant(&*self);
            frame_keeps_model_ok(self.model, key, spinner_next);
        }
        let m = self.model;
        let (next, actions, screen) = match m.run_mode {
            RunMode::About => about_step(m, key, spinner_next),
            RunMode::AboutRetroVeneer => page_step(m, AboutPage::RetroVeneer, key, spinner_next),
            RunMode::AboutLicense => page_step(m, AboutPage::License, key, spinner_next),
            RunMode::AboutTheEmulators => page_step(m, AboutPage::TheEmulators, key, spinner_next),
            RunMode::AboutDirectories => page_step(m, AboutPage::Directories, key, spinner_next),
            RunMode::Countdown => countdown_step(m, key),
            RunMode::EmulatorRunning => (m, Vec::new(), Some(Screen::EmulatorRunning)),
            RunMode::Configure => configure_step(m, key, spinner_next),
            RunMode::SelectPlatform => select_platform_step(m, key, spinner_next),
            RunMode::UpdateEverything => update_step(m, key, spinner_next),
        };
        self.model = next;
        Frame { actions, screen }
    }

    /// Takes in the answer to a `CheckForUpdates` action.
    pub fn record_update_check(&mut self, check: UpdateCheck)
        ensures
            model_ok(final(self)@),
            final(self)@ == after_update_check(old(self)@, check),
    {
        proof {
            use_type_invariant(&*self);
        }
        let m = self.model;
        let networking_error = match check {
            UpdateCheck::NetworkError => true,
            _ => m.networking_error,
        };
        let install_freeze = match check {
            UpdateCheck::Frozen => true,
            _ => m.install_freeze,
        };
        let updates_available = match check {
            UpdateCheck::Available => true,
            _ => false,
        };
        self.model = UiModel { networking_error, install_freeze, updates_available, ..m };
    }

    /// The whole state, for inspection.
    pub fn model(&self) -> (r: UiModel)
        ensures
            r == self@,
            model_ok(r),
    {
        proof {
            use_type_invariant(self);
        }
        self.model
    }

    /// The screen being shown.
    pub fn run_mode(&self) -> (r: RunMode)
        ensures
            r == self@.run_mode,
    {
        self.model.run_mode
    }

    /// Whether the program is to end.
    pub fn should_exit(&self) -> (r: bool)
        ensures
            r == self@.exit_now,
    {
        self.model.exit_now
    }

    /// The platform the emulator is launched for.
    pub fn platform(&self) -> (r: PlatformSelection)
        ensures
            r == self@.platform_selection,
            r != PlatformSelection::Invalid,
    {
        proof {
            use_type_invariant(self);
        }
        self.model.platform_selection
    }
}

/// Every frame keeps the state within the states the front end can be in:
/// in particular the selected platform is never the invalid one.
pub proof fn frame_keeps_model_ok(m: UiModel, key: Option<Key>, spinner_next: u8)
    requires
        model_ok(m),
    ensures
        model_ok(frame_outcome(m, key, spinner_next).model),
{
}

} // verus!
