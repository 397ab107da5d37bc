use retro_veneer::installer::{
    first_install_step, install_work, next_install_step, next_step_after, publish_entry_command, Component,
    InstallStep, InstallWork, Splash,
};
use retro_veneer::menu_nav::{AboutSelection, ConfigSelection, PlatformSelection, UpdateSelection};
use retro_veneer::scene::{Color, DrawCmd};
use retro_veneer::screens::{decimal, draw_screen};
use retro_veneer::ui::{AboutPage, Screen};

fn text(t: &str, x: i32, y: i32, size: i32, color: Color) -> DrawCmd {
    DrawCmd::Text { text: t.to_string(), x, y, size, color }
}

fn header() -> Vec<DrawCmd> {
    vec![
        DrawCmd::Clear(Color::Black),
        text("RETRO VENEER", 12, 12, 40, Color::Gray),
        text("v0.1", 580, 12, 20, Color::Gray),
        DrawCmd::Line { x1: 6, y1: 58, x2: 632, y2: 58, color: Color::Gray },
    ]
}

fn footer() -> Vec<DrawCmd> {
    vec![
        DrawCmd::Line { x1: 6, y1: 442, x2: 632, y2: 442, color: Color::Gray },
        text("by: ModernRetroDev", 420, 450, 20, Color::Gray),
    ]
}

fn yellow(cmds: &[DrawCmd]) -> Vec<(String, i32)> {
    cmds.iter()
        .filter_map(|c| match c {
            DrawCmd::Text { text, y, color: Color::Yellow, .. } => Some((text.clone(), *y)),
            _ => None,
        })
        .collect()
}

#[test]
fn decimal_numbers() {
    assert_eq!(decimal(0), "0");
    assert_eq!(decimal(9), "9");
    assert_eq!(decimal(10), "10");
    assert_eq!(decimal(99), "99");
    assert_eq!(decimal(100), "100");
    assert_eq!(decimal(205), "205");
    assert_eq!(decimal(255), "255");
}

#[test]
fn countdown_screen() {
    let s = draw_screen(Screen::Countdown { platform: PlatformSelection::CommanderX16, seconds: 7 });
    let mut expected = header();
    expected.extend(vec![
        text("[COMMANDER X16]", 177, 163, 30, Color::Blue),
        text("[COMMANDER X16]", 175, 161, 30, Color::Gray),
        text("PUSH `ESC` TO CONFIGURE SYSTEM", 30, 225, 30, Color::White),
        text("ESC", 135, 225, 30, Color::Red),
    ]);
    expected.extend(footer());
    expected.push(text("Starting Emulation in 7 seconds...", 170, 320, 20, Color::Red));
    assert_eq!(s.commands(), &expected);
}

#[test]
fn emulator_running_screen() {
    let s = draw_screen(Screen::EmulatorRunning).into_commands();
    let mut expected = header();
    expected.push(text("EMU RUNNING; RESET TO STOP.", 75, 225, 30, Color::White));
    expected.extend(footer());
    assert_eq!(s, expected);
}

#[test]
fn about_menu_screen() {
    let s = draw_screen(Screen::About { selection: AboutSelection::License, spinner: 1 });
    let c = s.commands();
    assert_eq!(&c[0..4], &header()[..]);
    assert_eq!(c[4], text("ABOUT", 12, 70, 40, Color::Blue));
    assert_eq!(c[5], text("RETROVENEER", 95, 166, 30, Color::White));
    assert_eq!(c[6], text("CODE LICENSE", 97, 208, 30, Color::Red));
    assert_eq!(c[7], text("CODE LICENSE", 95, 206, 30, Color::Yellow));
    assert_eq!(c[10], text("BACK", 95, 366, 30, Color::Gray));
    assert_eq!(c[13], text("--", 53, 208, 30, Color::Red));
    assert_eq!(c[14], text("--", 51, 206, 30, Color::Yellow));
    assert_eq!(c.len(), 15);
    assert_eq!(yellow(c), vec![("CODE LICENSE".to_string(), 206), ("--".to_string(), 206)]);
}

#[test]
fn configure_screen() {
    let s = draw_screen(Screen::Configure {
        selection: ConfigSelection::SelectPlatform,
        platform: PlatformSelection::Tic80,
        autostart_enabled: true,
        spinner: 0,
    });
    let c = s.commands();
    assert_eq!(c[4], text("CONFIGURATION", 12, 70, 40, Color::Blue));
    assert_eq!(c[5], text("SELECT PLATFORM", 97, 123, 30, Color::Red));
    assert_eq!(c[6], text("SELECT PLATFORM", 95, 121, 30, Color::Yellow));
    assert_eq!(c[7], text("* TIC-80", 127, 163, 30, Color::Blue));
    assert_eq!(c[8], text("* TIC-80", 125, 161, 30, Color::Gray));
    assert_eq!(c[9], text("ENABLE/DISABLE AUTOSTART", 95, 201, 30, Color::White));
    assert_eq!(c[10], text("* ENABLED", 125, 241, 30, Color::Gray));
    assert_eq!(c[13], text("LAUNCH EMULATOR", 95, 360, 30, Color::Green));
    assert_eq!(c[14], text("EXIT RETRO VENEER", 95, 400, 30, Color::Red));
    assert_eq!(yellow(c), vec![("SELECT PLATFORM".to_string(), 121), ("/".to_string(), 121)]);

    let s = draw_screen(Screen::Configure {
        selection: ConfigSelection::ExitRetroVeneer,
        platform: PlatformSelection::CommanderX16,
        autostart_enabled: false,
        spinner: 3,
    });
    assert_eq!(
        yellow(s.commands()),
        vec![("EXIT RETRO VENEER".to_string(), 400), (" |".to_string(), 405)]
    );
}

#[test]
fn select_platform_screen() {
    let s = draw_screen(Screen::SelectPlatform { selection: PlatformSelection::Tic80, spinner: 2 });
    let c = s.commands();
    assert_eq!(c[4], text("SELECT PLATFORM", 12, 70, 40, Color::Blue));
    assert_eq!(c[5], text("COMMANDER X16", 95, 186, 30, Color::White));
    assert_eq!(c[6], text("TIC-80", 97, 268, 30, Color::Red));
    assert_eq!(yellow(c), vec![("TIC-80".to_string(), 266), ("\\".to_string(), 266)]);
}

#[test]
fn update_screens() {
    let s = draw_screen(Screen::UpdateEverything {
        selection: UpdateSelection::Back,
        networking_error: true,
        install_freeze: true,
        updates_available: false,
        spinner: 0,
    });
    let c = s.commands();
    assert_eq!(c[5], text("Network Error: Unable to check for Updates.", 50, 186, 20, Color::Red));
    assert_eq!(c[6], text("BACK", 97, 368, 30, Color::Red));
    let s = draw_screen(Screen::UpdateEverything {
        selection: UpdateSelection::InstallUpdates,
        networking_error: false,
        install_freeze: true,
        updates_available: false,
        spinner: 0,
    });
    let c = s.commands();
    assert_eq!(c[5], text("Updates Currently Frozen: Try again later.", 50, 186, 20, Color::Red));
    assert_eq!(c[6], text("* Updates are likely being made to the installers *", 50, 216, 20, Color::Gray));
    assert_eq!(yellow(c), vec![("/".to_string(), 116)]);
    let s = draw_screen(Screen::UpdateEverything {
        selection: UpdateSelection::InstallUpdates,
        networking_error: false,
        install_freeze: false,
        updates_available: true,
        spinner: 0,
    });
    let c = s.commands();
    assert_eq!(c[5], text("An updated RetroVeneer setup is available.", 50, 186, 20, Color::Green));
    assert_eq!(c[6], text("INSTALL UPDATES", 97, 288, 30, Color::Red));
    assert_eq!(yellow(c), vec![("INSTALL UPDATES".to_string(), 286), ("/".to_string(), 286)]);
}

#[test]
fn about_pages() {
    let s = draw_screen(Screen::AboutPage { page: AboutPage::Directories, spinner: 0 });
    let c = s.commands();
    assert_eq!(c[4], text("ABOUT DIRECTORIES", 12, 70, 40, Color::Blue));
    assert_eq!(c[6], text("$HOME/retroveneer", 60, 175, 20, Color::Gray));
    assert_eq!(c[12], text("BACK", 82, 403, 30, Color::Red));
    assert_eq!(c[13], text("BACK", 80, 401, 30, Color::Yellow));
    assert_eq!(c[16], text("/", 38, 403, 30, Color::Red));
    let s = draw_screen(Screen::AboutPage { page: AboutPage::License, spinner: 0 });
    assert_eq!(s.commands().len(), 4 + 1 + 15 + 2 + 2 + 2);
    assert_eq!(s.commands()[5], text("Copyright (c) 2025 <Mike AKA: ModernRetroDev>", 35, 126, 10, Color::White));
}

#[test]
fn installer_archives_and_commands() {
    assert_eq!(Component::X16Emulator.archive("x86_64"), Some("x16emu_linux-x86_64-r48.zip"));
    assert_eq!(Component::Tic80Emulator.archive("aarch64"), Some("tic80-v1.1-rpi.deb"));
    assert_eq!(Component::RetroVeneerUi.archive("aarch64"), Some("retroveneer-ui-aarch64.AppImage"));
    assert_eq!(Component::X16Emulator.archive("riscv64"), None);
    assert_eq!(
        Component::X16Emulator.commands("f.zip"),
        vec![
            "wget https://github.com/X16Community/x16-emulator/releases/download/r48/f.zip",
            "mkdir -p $HOME/retroveneer/emulators/x16emu",
            "mkdir -p $HOME/retroveneer/data/x16emu",
            "unzip f.zip -d $HOME/retroveneer/emulators/x16emu",
            "mkdir -p $HOME/retroveneer/emulators/archives",
            "mv f.zip $HOME/retroveneer/emulators/archives",
        ]
    );
    assert_eq!(
        Component::RetroVeneerUi.commands("ui.AppImage"),
        vec![
            "wget https://raw.githubusercontent.com/ModernRetroDev/retro-veneer/refs/heads/master/hosted/ui.AppImage",
            "chmod +x ui.AppImage",
            "mkdir -p $HOME/retroveneer",
            "mv ui.AppImage $HOME/retroveneer/retroveneer.appimage",
        ]
    );
    assert_eq!(
        publish_entry_command("/h/.config/autostart/retroveneer.desktop"),
        "cp /h/.config/autostart/retroveneer.desktop $HOME/.local/share/applications"
    );
}

#[test]
fn installation_steps_in_order() {
    let mut step = first_install_step();
    let mut seen = vec![step];
    while let Some(next) = next_install_step(step) {
        step = next;
        seen.push(step);
    }
    assert_eq!(
        seen,
        vec![
            InstallStep::Fetch(Component::X16Emulator),
            InstallStep::Fetch(Component::Tic80Emulator),
            InstallStep::Fetch(Component::RetroVeneerUi),
            InstallStep::SetupAutostart,
            InstallStep::Finish,
        ]
    );
    match install_work(InstallStep::Fetch(Component::Tic80Emulator), "x86_64", "/home/bob") {
        InstallWork::Run { announcement, commands } => {
            assert_eq!(announcement, "Installing Emulator -- TIC-80...");
            assert_eq!(commands[3], "dpkg-deb -xv tic80-v1.1-linux.deb $HOME/retroveneer/emulators/tic80");
        }
        other => panic!("unexpected {:?}", other),
    }
    let unsupported = install_work(InstallStep::Fetch(Component::X16Emulator), "sparc", "/home/bob");
    assert_eq!(
        unsupported,
        InstallWork::Unsupported { announcement: "Installing Emulator -- X16...".to_string() }
    );
    assert_eq!(next_step_after(InstallStep::Fetch(Component::X16Emulator), &unsupported), None);
    match install_work(InstallStep::SetupAutostart, "x86_64", "/home/bob") {
        InstallWork::WriteAutostart { entry } => {
            assert!(entry.contains("Exec=/home/bob/retroveneer/retroveneer.appimage\n"));
            assert!(entry.contains("Icon=/home/bob/retroveneer/retroveneer.png\n"));
        }
        other => panic!("unexpected {:?}", other),
    }
    let finish = install_work(InstallStep::Finish, "x86_64", "/home/bob");
    assert_eq!(finish, InstallWork::Finish { announcement: "All Done!!!".to_string() });
    assert_eq!(next_step_after(InstallStep::Finish, &finish), None);
    let run = install_work(InstallStep::Fetch(Component::X16Emulator), "aarch64", "/home/bob");
    assert_eq!(
        next_step_after(InstallStep::Fetch(Component::X16Emulator), &run),
        Some(InstallStep::Fetch(Component::Tic80Emulator))
    );
}

#[test]
fn splash_takes_announced_step() {
    let mut splash = Splash::new();
    let mut next = String::from("Installing RetroVeneer UI...");
    let s = splash.frame(&mut next, 2);
    assert_eq!(next, "");
    assert_eq!(splash.step, "Installing RetroVeneer UI...");
    assert_eq!(
        s.into_commands(),
        vec![
            DrawCmd::Clear(Color::Black),
            text("Installing RETRO VENEER", 125, 24, 30, Color::Gray),
            text("Installing RetroVeneer UI...", 30, 225, 30, Color::White),
            text("\\", 585, 425, 30, Color::Gray),
        ]
    );
    let _ = splash.frame(&mut next, 3);
    assert_eq!(splash.step, "Installing RetroVeneer UI...");
    assert_eq!(splash.spinner, 3);
}
