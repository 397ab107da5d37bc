use retro_veneer::menu_nav::{AboutSelection, ConfigSelection, PlatformSelection, UpdateSelection};
use retro_veneer::ui::{Action, AboutPage, Key, RunMode, Screen, UiState, UpdateCheck};

fn configure_state() -> UiState {
    let mut ui = UiState::new(false, PlatformSelection::Tic80);
    ui.frame(Some(Key::Escape), 0);
    assert_eq!(ui.run_mode(), RunMode::Configure);
    ui
}

#[test]
fn start_with_stored_platform_counts_down() {
    let ui = UiState::new(true, PlatformSelection::Tic80);
    let m = ui.model();
    assert_eq!(m.run_mode, RunMode::Countdown);
    assert_eq!(m.platform_selection, PlatformSelection::Tic80);
    assert_eq!(m.countdown_seconds, 10);
    assert!(m.autostart_enabled);
    assert!(!m.exit_now);
}

#[test]
fn start_without_platform_opens_platform_list() {
    let ui = UiState::new(false, PlatformSelection::Invalid);
    assert_eq!(ui.run_mode(), RunMode::SelectPlatform);
    assert_eq!(ui.platform(), PlatformSelection::CommanderX16);
}

#[test]
fn countdown_launches_after_600_idle_frames() {
    let mut ui = UiState::new(false, PlatformSelection::CommanderX16);
    for i in 0..599 {
        let f = ui.frame(None, 0);
        assert!(f.actions.is_empty(), "frame {i} acted");
        assert_eq!(ui.run_mode(), RunMode::Countdown);
    }
    let f = ui.frame(None, 0);
    assert_eq!(f.actions, vec![Action::LaunchEmulator(PlatformSelection::CommanderX16)]);
    assert_eq!(ui.run_mode(), RunMode::EmulatorRunning);
    assert_eq!(f.screen, Some(Screen::Countdown { platform: PlatformSelection::CommanderX16, seconds: 1 }));
    let f = ui.frame(Some(Key::Escape), 0);
    assert_eq!(f.screen, Some(Screen::EmulatorRunning));
    assert!(f.actions.is_empty());
}

#[test]
fn countdown_seconds_shown_go_down_every_sixty_frames() {
    let mut ui = UiState::new(false, PlatformSelection::Tic80);
    for _ in 0..60 {
        let f = ui.frame(Some(Key::Down), 0);
        assert_eq!(f.screen, Some(Screen::Countdown { platform: PlatformSelection::Tic80, seconds: 10 }));
    }
    let f = ui.frame(None, 0);
    assert_eq!(f.screen, Some(Screen::Countdown { platform: PlatformSelection::Tic80, seconds: 9 }));
}

#[test]
fn escape_during_countdown_opens_configuration() {
    let mut ui = UiState::new(false, PlatformSelection::Tic80);
    ui.frame(None, 0);
    let f = ui.frame(Some(Key::Escape), 2);
    assert!(f.actions.is_empty());
    assert!(f.screen.is_some());
    let m = ui.model();
    assert_eq!(m.run_mode, RunMode::Configure);
    assert_eq!(m.config_selection, ConfigSelection::SelectPlatform);
    // nothing launches any more
    for _ in 0..1000 {
        let f = ui.frame(None, 0);
        assert!(f.actions.is_empty());
    }
}

#[test]
fn escape_in_last_countdown_frame_still_configures() {
    let mut ui = UiState::new(false, PlatformSelection::CommanderX16);
    for _ in 0..599 {
        ui.frame(None, 0);
    }
    assert_eq!(ui.run_mode(), RunMode::Countdown);
    let f = ui.frame(Some(Key::Escape), 0);
    assert!(f.actions.is_empty());
    assert_eq!(f.screen, Some(Screen::Countdown { platform: PlatformSelection::CommanderX16, seconds: 1 }));
    assert_eq!(ui.run_mode(), RunMode::Configure);
    assert_eq!(ui.model().config_selection, ConfigSelection::SelectPlatform);
}

#[test]
fn configure_navigation_and_screen() {
    let mut ui = configure_state();
    let f = ui.frame(Some(Key::Down), 3);
    assert_eq!(
        f.screen,
        Some(Screen::Configure {
            selection: ConfigSelection::ChangeAutostart,
            platform: PlatformSelection::Tic80,
            autostart_enabled: false,
            spinner: 3,
        })
    );
    for _ in 0..10 {
        ui.frame(Some(Key::Down), 0);
    }
    assert_eq!(ui.model().config_selection, ConfigSelection::ExitRetroVeneer);
    ui.frame(Some(Key::Up), 0);
    assert_eq!(ui.model().config_selection, ConfigSelection::LaunchEmulator);
    for _ in 0..10 {
        ui.frame(Some(Key::Up), 0);
    }
    assert_eq!(ui.model().config_selection, ConfigSelection::SelectPlatform);
}

#[test]
fn autostart_toggles_and_draws_old_value() {
    let mut ui = configure_state();
    ui.frame(Some(Key::Down), 0);
    let f = ui.frame(Some(Key::Enter), 1);
    assert_eq!(f.actions, vec![Action::EnableAutostart]);
    assert!(ui.model().autostart_enabled);
    assert_eq!(
        f.screen,
        Some(Screen::Configure {
            selection: ConfigSelection::ChangeAutostart,
            platform: PlatformSelection::Tic80,
            autostart_enabled: false,
            spinner: 1,
        })
    );
    let f = ui.frame(Some(Key::Enter), 1);
    assert_eq!(f.actions, vec![Action::DisableAutostart]);
    assert!(!ui.model().autostart_enabled);
}

#[test]
fn exit_entry_ends_program() {
    let mut ui = configure_state();
    for _ in 0..5 {
        ui.frame(Some(Key::Down), 0);
    }
    assert!(!ui.should_exit());
    let f = ui.frame(Some(Key::Enter), 0);
    assert!(f.screen.is_some());
    assert!(ui.should_exit());
    ui.frame(Some(Key::Up), 0);
    assert!(ui.should_exit());
}

#[test]
fn launch_entry_launches_selected_platform() {
    let mut ui = configure_state();
    for _ in 0..4 {
        ui.frame(Some(Key::Down), 0);
    }
    let f = ui.frame(Some(Key::Enter), 0);
    assert_eq!(f.actions, vec![Action::LaunchEmulator(PlatformSelection::Tic80)]);
    assert_eq!(f.screen, None);
    assert_eq!(ui.run_mode(), RunMode::EmulatorRunning);
}

#[test]
fn select_platform_saves_and_returns() {
    let mut ui = configure_state();
    let f = ui.frame(Some(Key::Enter), 0);
    assert_eq!(f.screen, None);
    assert_eq!(ui.run_mode(), RunMode::SelectPlatform);
    assert_eq!(ui.platform(), PlatformSelection::CommanderX16);
    let f = ui.frame(Some(Key::Down), 2);
    assert_eq!(f.screen, Some(Screen::SelectPlatform { selection: PlatformSelection::Tic80, spinner: 2 }));
    ui.frame(Some(Key::Down), 2);
    assert_eq!(ui.platform(), PlatformSelection::Tic80);
    let f = ui.frame(Some(Key::Enter), 2);
    assert_eq!(f.actions, vec![Action::SavePlatform(PlatformSelection::Tic80)]);
    assert_eq!(f.screen, Some(Screen::SelectPlatform { selection: PlatformSelection::Tic80, spinner: 2 }));
    assert_eq!(ui.run_mode(), RunMode::Configure);
    assert_eq!(ui.model().config_selection, ConfigSelection::SelectPlatform);
}

#[test]
fn about_menu_pages_and_back() {
    let mut ui = configure_state();
    for _ in 0..3 {
        ui.frame(Some(Key::Down), 0);
    }
    ui.frame(Some(Key::Enter), 0);
    assert_eq!(ui.run_mode(), RunMode::About);
    assert_eq!(ui.model().about_selection, AboutSelection::RetroVeneer);
    ui.frame(Some(Key::Down), 0);
    let f = ui.frame(Some(Key::Enter), 0);
    assert_eq!(f.screen, None);
    assert_eq!(ui.run_mode(), RunMode::AboutLicense);
    let f = ui.frame(Some(Key::Other), 1);
    assert_eq!(f.screen, Some(Screen::AboutPage { page: AboutPage::License, spinner: 1 }));
    let f = ui.frame(Some(Key::Escape), 1);
    assert_eq!(f.screen, Some(Screen::AboutPage { page: AboutPage::License, spinner: 1 }));
    assert_eq!(ui.run_mode(), RunMode::About);
    assert_eq!(ui.model().about_selection, AboutSelection::RetroVeneer);
    for _ in 0..9 {
        ui.frame(Some(Key::Down), 0);
    }
    assert_eq!(ui.model().about_selection, AboutSelection::Back);
    ui.frame(Some(Key::Enter), 0);
    assert_eq!(ui.run_mode(), RunMode::Configure);
}

#[test]
fn update_menu_checks_and_installs() {
    let mut ui = configure_state();
    ui.frame(Some(Key::Down), 0);
    ui.frame(Some(Key::Down), 0);
    let f = ui.frame(Some(Key::Enter), 0);
    assert_eq!(f.actions, vec![Action::CheckForUpdates]);
    assert_eq!(ui.run_mode(), RunMode::UpdateEverything);
    ui.record_update_check(UpdateCheck::Available);
    let f = ui.frame(Some(Key::Up), 0);
    assert_eq!(
        f.screen,
        Some(Screen::UpdateEverything {
            selection: UpdateSelection::InstallUpdates,
            networking_error: false,
            install_freeze: false,
            updates_available: true,
            spinner: 0,
        })
    );
    let f = ui.frame(Some(Key::Enter), 0);
    assert_eq!(f.actions, vec![Action::LaunchUpdatedInstaller]);
    assert!(ui.should_exit());
}

#[test]
fn install_entry_unreachable_without_updates() {
    let mut ui = configure_state();
    ui.frame(Some(Key::Down), 0);
    ui.frame(Some(Key::Down), 0);
    ui.frame(Some(Key::Enter), 0);
    ui.record_update_check(UpdateCheck::UpToDate);
    ui.frame(Some(Key::Up), 0);
    assert_eq!(ui.model().update_selection, UpdateSelection::Back);
    ui.frame(Some(Key::Escape), 0);
    assert_eq!(ui.run_mode(), RunMode::Configure);
}

#[test]
fn update_errors_are_remembered() {
    let mut ui = UiState::new(false, PlatformSelection::Tic80);
    ui.record_update_check(UpdateCheck::NetworkError);
    ui.record_update_check(UpdateCheck::Frozen);
    ui.record_update_check(UpdateCheck::Available);
    let m = ui.model();
    assert!(m.networking_error);
    assert!(m.install_freeze);
    assert!(m.updates_available);
    ui.record_update_check(UpdateCheck::UpToDate);
    assert!(!ui.model().updates_available);
}
