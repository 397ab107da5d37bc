use vstd::prelude::*;

use crate::config::{platform_file_text, platform_from_file, stored_platform_reads_back};
use crate::menu_nav::{
    about_rank, config_rank, AboutSelection, ConfigSelection, PlatformSelection, UpdateSelection,
};
use crate::ui::{
    Screen, frame_outcome, initial_model, model_ok, Action, Key, RunMode, UiModel, COUNTDOWN_START,
    FRAMES_PER_SECOND,
};

verus! {

/// Frames the countdown still runs before it launches the emulator: the
/// frame that makes the last second pass is counted.
pub open spec fn countdown_frames_left(m: UiModel) -> int {
    (m.countdown_seconds - 1) * FRAMES_PER_SECOND + (FRAMES_PER_SECOND - m.countdown_tics)
}

/// The state after `n` frames in which no key was pressed.
pub open spec fn idle_frames(m: UiModel, n: nat) -> UiModel
    decreases n,
{
    if n == 0 {
        m
    } else {
        frame_outcome(idle_frames(m, (n - 1) as nat), None, 0).model
    }
}

/// During the countdown every key but Escape is ignored: each frame brings
/// the launch one frame closer, and the frame with one frame left launches
/// the emulator of the selected platform and shows the running screen.
pub proof fn countdown_counts_down(m: UiModel, key: Option<Key>, spinner_next: u8)
    requires
        model_ok(m),
        m.run_mode == RunMode::Countdown,
        key != Some(Key::Escape),
    ensures
        ({
            let o = frame_outcome(m, key, spinner_next);
            &&& o.model.platform_selection == m.platform_selection
            &&& o.model.exit_now == m.exit_now
            &&& if countdown_frames_left(m) == 1 {
                &&& o.model.run_mode == RunMode::EmulatorRunning
                &&& o.actions == seq![Action::LaunchEmulator(m.platform_selection)]
            } else {
                &&& o.model.run_mode == RunMode::Countdown
                &&& countdown_frames_left(o.model) == countdown_frames_left(m) - 1
                &&& o.actions == Seq::<Action>::empty()
            }
        }),
{
}

/// Escape during the countdown opens the configuration menu at its first
/// entry without launching anything, even in the countdown's last frame.
pub proof fn escape_stops_countdown(m: UiModel, spinner_next: u8)
    requires
        model_ok(m),
        m.run_mode == RunMode::Countdown,
    ensures
        frame_outcome(m, Some(Key::Escape), spinner_next).model.run_mode == RunMode::Configure,
        frame_outcome(m, Some(Key::Escape), spinner_next).model.config_selection
            == ConfigSelection::SelectPlatform,
        frame_outcome(m, Some(Key::Escape), spinner_next).actions == Seq::<Action>::empty(),
{
}

/// Without a key pressed, the countdown runs for exactly as many frames as
/// it has left, keeping the platform.
pub proof fn idle_countdown(m: UiModel, n: nat)
    requires
        model_ok(m),
        m.run_mode == RunMode::Countdown,
        n < countdown_frames_left(m),
    ensures
        model_ok(idle_frames(m, n)),
        idle_frames(m, n).run_mode == RunMode::Countdown,
        idle_frames(m, n).platform_selection == m.platform_selection,
        countdown_frames_left(idle_frames(m, n)) == countdown_frames_left(m) - n,
    decreases n,
{
    if n > 0 {
        idle_countdown(m, (n - 1) as nat);
        countdown_counts_down(idle_frames(m, (n - 1) as nat), None, 0);
    }
}

/// With a platform stored, the front end starts with a countdown that, if no
/// key is pressed, launches that platform's emulator in the 600th frame
/// (ten seconds of sixty frames) and in no earlier frame.
pub proof fn start_boots_stored_platform(autostart_enabled: bool, stored: PlatformSelection)
    requires
        stored != PlatformSelection::Invalid,
    ensures
        ({
            let m = initial_model(autostart_enabled, stored);
            let last = idle_frames(m, 599);
            &&& countdown_frames_left(m) == COUNTDOWN_START * FRAMES_PER_SECOND
            &&& countdown_frames_left(m) == 600
            &&& forall|k: nat| k < 600 ==> (#[trigger] idle_frames(m, k)).run_mode == RunMode::Countdown
            &&& frame_outcome(last, None, 0).actions == seq![Action::LaunchEmulator(stored)]
            &&& frame_outcome(last, None, 0).model.run_mode == RunMode::EmulatorRunning
        }),
{
    let m = initial_model(autostart_enabled, stored);
    assert forall|k: nat| k < 600 implies (#[trigger] idle_frames(m, k)).run_mode
        == RunMode::Countdown by {
        idle_countdown(m, k);
    }
    idle_countdown(m, 599);
    countdown_counts_down(idle_frames(m, 599), None, 0);
}

/// Once the program has been told to end, no later frame takes that back.
pub proof fn exit_is_final(m: UiModel, key: Option<Key>, spinner_next: u8)
    requires
        m.exit_now,
    ensures
        frame_outcome(m, key, spinner_next).model.exit_now,
{
}

/// Pressing Enter twice on "ENABLE/DISABLE AUTOSTART" switches autostart
/// and then switches it back, asking for the two matching file changes,
/// and stays on that entry.
pub proof fn autostart_toggle_twice(m: UiModel, s1: u8, s2: u8)
    requires
        m.run_mode == RunMode::Configure,
        m.config_selection == ConfigSelection::ChangeAutostart,
    ensures
        ({
            let o1 = frame_outcome(m, Some(Key::Enter), s1);
            let o2 = frame_outcome(o1.model, Some(Key::Enter), s2);
            &&& o1.model.autostart_enabled == !m.autostart_enabled
            &&& o2.model.autostart_enabled == m.autostart_enabled
            &&& o2.model.run_mode == RunMode::Configure
            &&& o2.model.config_selection == ConfigSelection::ChangeAutostart
            &&& o1.actions + o2.actions == if m.autostart_enabled {
                seq![Action::DisableAutostart, Action::EnableAutostart]
            } else {
                seq![Action::EnableAutostart, Action::DisableAutostart]
            }
        }),
{
    let o1 = frame_outcome(m, Some(Key::Enter), s1);
    let o2 = frame_outcome(o1.model, Some(Key::Enter), s2);
    assert(o1.actions + o2.actions =~= if m.autostart_enabled {
        seq![Action::DisableAutostart, Action::EnableAutostart]
    } else {
        seq![Action::EnableAutostart, Action::DisableAutostart]
    });
}

/// Whatever a frame asks to launch or to store is the platform selected at
/// its start, and never the invalid platform.
pub proof fn actions_name_selected_platform(m: UiModel, key: Option<Key>, spinner_next: u8, i: int)
    requires
        model_ok(m),
        0 <= i < frame_outcome(m, key, spinner_next).actions.len(),
    ensures
        ({
            let a = frame_outcome(m, key, spinner_next).actions[i];
            &&& a matches Action::LaunchEmulator(p) ==> p == m.platform_selection
                && p != PlatformSelection::Invalid
            &&& a matches Action::SavePlatform(p) ==> p == m.platform_selection
                && p != PlatformSelection::Invalid
        }),
{
}

/// Enter on the platform list stores the selected platform, and the next
/// start of the front end reads that platform back and counts down to it.
pub proof fn saved_platform_starts_next_time(m: UiModel, spinner_next: u8, autostart_enabled: bool)
    requires
        model_ok(m),
        m.run_mode == RunMode::SelectPlatform,
    ensures
        ({
            let o = frame_outcome(m, Some(Key::Enter), spinner_next);
            let p = m.platform_selection;
            let next_start = initial_model(
                autostart_enabled,
                platform_from_file(Some(platform_file_text(p))),
            );
            &&& o.actions == seq![Action::SavePlatform(p)]
            &&& o.model.run_mode == RunMode::Configure
            &&& next_start.run_mode == RunMode::Countdown
            &&& next_start.platform_selection == p
        }),
{
    stored_platform_reads_back(m.platform_selection);
}

/// While the emulator runs, the front end only shows that it runs: no key
/// changes anything and nothing is asked for.
pub proof fn emulator_running_is_final(m: UiModel, key: Option<Key>, spinner_next: u8)
    requires
        m.run_mode == RunMode::EmulatorRunning,
    ensures
        frame_outcome(m, key, spinner_next).model == m,
        frame_outcome(m, key, spinner_next).actions == Seq::<Action>::empty(),
{
}

/// Enter on an about-menu entry opens the page of that same entry; "BACK"
/// returns to the configuration menu at its first entry.  Nothing is asked
/// for, and nothing is drawn in that frame.
pub proof fn about_enter_opens_that_page(m: UiModel, spinner_next: u8)
    requires
        m.run_mode == RunMode::About,
    ensures
        ({
            let o = frame_outcome(m, Some(Key::Enter), spinner_next);
            let s = m.about_selection;
            &&& s == AboutSelection::RetroVeneer ==> o.model.run_mode == RunMode::AboutRetroVeneer
            &&& s == AboutSelection::License ==> o.model.run_mode == RunMode::AboutLicense
            &&& s == AboutSelection::TheEmulators ==> o.model.run_mode == RunMode::AboutTheEmulators
            &&& s == AboutSelection::Directories ==> o.model.run_mode == RunMode::AboutDirectories
            &&& s == AboutSelection::Back ==> o.model.run_mode == RunMode::Configure
                && o.model.config_selection == ConfigSelection::SelectPlatform
            &&& o.actions == Seq::<Action>::empty()
            &&& o.screen is None
            &&& o.model.exit_now == m.exit_now
        }),
{
}

/// Enter or Escape on an about page returns to the about menu at its first
/// entry; any other key keeps the page open.  The page is drawn either way.
pub proof fn pages_return_to_about(m: UiModel, key: Option<Key>, spinner_next: u8)
    requires
        m.run_mode == RunMode::AboutRetroVeneer || m.run_mode == RunMode::AboutLicense
            || m.run_mode == RunMode::AboutTheEmulators || m.run_mode == RunMode::AboutDirectories,
    ensures
        ({
            let o = frame_outcome(m, key, spinner_next);
            &&& (key == Some(Key::Enter) || key == Some(Key::Escape)) ==> o.model.run_mode
                == RunMode::About && o.model.about_selection == AboutSelection::RetroVeneer
            &&& !(key == Some(Key::Enter) || key == Some(Key::Escape)) ==> o.model.run_mode
                == m.run_mode
            &&& o.actions == Seq::<Action>::empty()
            &&& o.screen is Some
        }),
{
}

/// In the update menu Enter on "BACK" opens the configuration menu at its
/// first entry, asks for nothing and leaves the program running; Enter on
/// "INSTALL UPDATES" asks for the updated installer and ends the program.
pub proof fn update_enter(m: UiModel, spinner_next: u8)
    requires
        m.run_mode == RunMode::UpdateEverything,
    ensures
        ({
            let o = frame_outcome(m, Some(Key::Enter), spinner_next);
            &&& m.update_selection == UpdateSelection::Back ==> {
                &&& o.actions == Seq::<Action>::empty()
                &&& o.model.exit_now == m.exit_now
                &&& o.model.run_mode == RunMode::Configure
                &&& o.model.config_selection == ConfigSelection::SelectPlatform
            }
            &&& m.update_selection == UpdateSelection::InstallUpdates ==> {
                &&& o.actions == seq![Action::LaunchUpdatedInstaller]
                &&& o.model.exit_now
            }
        }),
{
}

/// The updated installer is asked for only by Enter on "INSTALL UPDATES" in
/// the update menu, and the program is told to end only by that or by Enter
/// on "EXIT RETRO VENEER" in the configuration menu.
pub proof fn installer_and_exit_only_on_purpose(m: UiModel, key: Option<Key>, spinner_next: u8, i: int)
    ensures
        ({
            let o = frame_outcome(m, key, spinner_next);
            let installs = 0 <= i < o.actions.len() && o.actions[i] == Action::LaunchUpdatedInstaller;
            let on_install = m.run_mode == RunMode::UpdateEverything && key == Some(Key::Enter)
                && m.update_selection == UpdateSelection::InstallUpdates;
            let on_exit = m.run_mode == RunMode::Configure && key == Some(Key::Enter)
                && m.config_selection == ConfigSelection::ExitRetroVeneer;
            &&& installs ==> on_install
            &&& (o.model.exit_now && !m.exit_now) ==> (on_install || on_exit)
        }),
{
}

/// Enter on each configuration entry does what the entry says.
pub proof fn configure_enter(m: UiModel, spinner_next: u8)
    requires
        m.run_mode == RunMode::Configure,
    ensures
        ({
            let o = frame_outcome(m, Some(Key::Enter), spinner_next);
            let s = m.config_selection;
            &&& s == ConfigSelection::SelectPlatform ==> o.model.run_mode == RunMode::SelectPlatform
                && o.actions == Seq::<Action>::empty()
            &&& s == ConfigSelection::ChangeAutostart ==> o.model.run_mode == RunMode::Configure
                && o.model.autostart_enabled != m.autostart_enabled && o.actions == if m.autostart_enabled {
                seq![Action::DisableAutostart]
            } else {
                seq![Action::EnableAutostart]
            }
            &&& s == ConfigSelection::UpdateEverything ==> o.model.run_mode
                == RunMode::UpdateEverything && o.actions == seq![Action::CheckForUpdates]
            &&& s == ConfigSelection::AboutRetroVeneer ==> o.model.run_mode == RunMode::About
                && o.model.about_selection == AboutSelection::RetroVeneer && o.actions == Seq::<
                Action,
            >::empty()
            &&& s == ConfigSelection::LaunchEmulator ==> o.model.run_mode == RunMode::EmulatorRunning
                && o.actions == seq![Action::LaunchEmulator(m.platform_selection)]
            &&& s == ConfigSelection::ExitRetroVeneer ==> o.model.exit_now && o.model.run_mode
                == RunMode::Configure && o.actions == Seq::<Action>::empty()
            &&& s != ConfigSelection::ExitRetroVeneer ==> o.model.exit_now == m.exit_now
        }),
{
}

/// The arrow keys only move through the menus: they ask for nothing, keep
/// the screen, and move the selection of the menu shown by one entry
/// (stopping at the ends), or leave it where it is.
pub proof fn arrows_only_move(m: UiModel, key: Option<Key>, spinner_next: u8)
    requires
        model_ok(m),
        key == Some(Key::Up) || key == Some(Key::Down),
        m.run_mode != RunMode::Countdown,
    ensures
        ({
            let o = frame_outcome(m, key, spinner_next);
            let down = key == Some(Key::Down);
            &&& o.actions == Seq::<Action>::empty()
            &&& o.model.run_mode == m.run_mode
            &&& o.model.exit_now == m.exit_now
            &&& o.model.autostart_enabled == m.autostart_enabled
            &&& m.run_mode == RunMode::About ==> about_rank(o.model.about_selection) == if down {
                if about_rank(m.about_selection) < 4 {
                    about_rank(m.about_selection) + 1
                } else {
                    4
                }
            } else {
                if about_rank(m.about_selection) > 0 {
                    about_rank(m.about_selection) - 1
                } else {
                    0
                }
            }
            &&& m.run_mode == RunMode::Configure ==> config_rank(o.model.config_selection) == if down {
                if config_rank(m.config_selection) < 5 {
                    config_rank(m.config_selection) + 1
                } else {
                    5
                }
            } else {
                if config_rank(m.config_selection) > 0 {
                    config_rank(m.config_selection) - 1
                } else {
                    0
                }
            }
            &&& m.run_mode == RunMode::SelectPlatform ==> o.model.platform_selection == if down {
                PlatformSelection::Tic80
            } else {
                PlatformSelection::CommanderX16
            }
            &&& m.run_mode == RunMode::UpdateEverything ==> o.model.update_selection == if down {
                UpdateSelection::Back
            } else if m.updates_available {
                UpdateSelection::InstallUpdates
            } else {
                m.update_selection
            }
            &&& m.run_mode != RunMode::SelectPlatform ==> o.model.platform_selection
                == m.platform_selection
        }),
{
}

/// A menu that stays open draws the selection it ends the frame with, the
/// values it shows, and the busy-indicator phase the timer reached; the
/// countdown draws the seconds it showed when the frame began.
pub proof fn screen_shows_state(m: UiModel, key: Option<Key>, spinner_next: u8)
    requires
        key != Some(Key::Enter),
        key != Some(Key::Escape),
    ensures
        ({
            let o = frame_outcome(m, key, spinner_next);
            let n = o.model;
            &&& m.run_mode == RunMode::About ==> o.screen == Some(
                Screen::About { selection: n.about_selection, spinner: spinner_next },
            )
            &&& m.run_mode == RunMode::Configure ==> o.screen == Some(
                Screen::Configure {
                    selection: n.config_selection,
                    platform: m.platform_selection,
                    autostart_enabled: m.autostart_enabled,
                    spinner: spinner_next,
                },
            )
            &&& m.run_mode == RunMode::SelectPlatform ==> o.screen == Some(
                Screen::SelectPlatform { selection: n.platform_selection, spinner: spinner_next },
            )
            &&& m.run_mode == RunMode::UpdateEverything ==> o.screen == Some(
                Screen::UpdateEverything {
                    selection: n.update_selection,
                    networking_error: m.networking_error,
                    install_freeze: m.install_freeze,
                    updates_available: m.updates_available,
                    spinner: spinner_next,
                },
            )
            &&& m.run_mode == RunMode::Countdown ==> o.screen == Some(
                Screen::Countdown {
                    platform: m.platform_selection,
                    seconds: m.countdown_seconds,
                },
            )
        }),
{
}

} // verus!
