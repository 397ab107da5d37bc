use retro_veneer::config::{
    assess_update, desktop_entry, launcher_script, parse_platform_config, platform_config_text,
    version,
};
use retro_veneer::menu_nav::{AboutSelection, ConfigSelection, PlatformSelection, UpdateSelection};
use retro_veneer::paths::{
    background_command, fetch_into_command, make_executable_command, remove_files_command,
    server_file_url, RvPaths,
};
use retro_veneer::spinner::{advance_spinner, spinner_glyph};
use retro_veneer::ui::UpdateCheck;

#[test]
fn menu_moves() {
    assert_eq!(AboutSelection::RetroVeneer.below(), AboutSelection::License);
    assert_eq!(AboutSelection::Back.below(), AboutSelection::Back);
    assert_eq!(AboutSelection::RetroVeneer.above(), AboutSelection::RetroVeneer);
    assert_eq!(AboutSelection::Back.above(), AboutSelection::Directories);
    assert_eq!(ConfigSelection::LaunchEmulator.below(), ConfigSelection::ExitRetroVeneer);
    assert_eq!(ConfigSelection::ChangeAutostart.above(), ConfigSelection::SelectPlatform);
    assert_eq!(PlatformSelection::CommanderX16.below(), PlatformSelection::Tic80);
    assert_eq!(PlatformSelection::Tic80.below(), PlatformSelection::Tic80);
    assert_eq!(PlatformSelection::Invalid.above(), PlatformSelection::Invalid);
    assert_eq!(UpdateSelection::Back.above(false), UpdateSelection::Back);
    assert_eq!(UpdateSelection::Back.above(true), UpdateSelection::InstallUpdates);
    assert_eq!(UpdateSelection::InstallUpdates.below(), UpdateSelection::Back);
}

#[test]
fn spinner_cycle() {
    let mut p = 0u8;
    let mut seen = Vec::new();
    for _ in 0..8 {
        seen.push(spinner_glyph(p));
        p = advance_spinner(p);
    }
    assert_eq!(seen, vec!["/", "--", "\\", " |", "/", "--", "\\", " |"]);
    assert_eq!(advance_spinner(7), 0);
    assert_eq!(spinner_glyph(9), "/");
}

#[test]
fn platform_config_round_trip() {
    assert_eq!(platform_config_text(PlatformSelection::CommanderX16), "CommanderX16\n");
    assert_eq!(platform_config_text(PlatformSelection::Tic80), "TIC-80\n");
    assert_eq!(platform_config_text(PlatformSelection::Invalid), "\n");
    for p in [PlatformSelection::CommanderX16, PlatformSelection::Tic80] {
        assert_eq!(parse_platform_config(Some(&platform_config_text(p))), p);
    }
    assert_eq!(parse_platform_config(None), PlatformSelection::Invalid);
    assert_eq!(parse_platform_config(Some("TIC-80")), PlatformSelection::Invalid);
    assert_eq!(parse_platform_config(Some("tic-80\n")), PlatformSelection::Invalid);
}

#[test]
fn update_assessment() {
    assert_eq!(version(), "0.1");
    assert_eq!(assess_update(None, None), UpdateCheck::NetworkError);
    assert_eq!(assess_update(None, Some("TRUE\n")), UpdateCheck::NetworkError);
    assert_eq!(assess_update(Some("0.2\n"), Some("TRUE\n")), UpdateCheck::Frozen);
    assert_eq!(assess_update(Some("0.2\n"), Some("FALSE\n")), UpdateCheck::Available);
    assert_eq!(assess_update(Some("0.1"), None), UpdateCheck::UpToDate);
    assert_eq!(assess_update(Some("0.1\n"), None), UpdateCheck::Available);
}

#[test]
fn desktop_entry_text() {
    let e = desktop_entry("/home/pi/retroveneer");
    assert_eq!(
        e,
        "[Desktop Entry]\nType=Application\nVersion=0.1\nName=RetroVeneer\n\
Comment=Manages an instance of RetroVeneer\nExec=/home/pi/retroveneer/retroveneer.appimage\n\
Icon=/home/pi/retroveneer/retroveneer.png\nTerminal=false\nCategories=Utility;Emulation;\n\
StartupNotify=true\n"
    );
}

#[test]
fn launcher_scripts() {
    assert_eq!(
        launcher_script("/home/u", PlatformSelection::CommanderX16),
        "#!/usr/bin/env bash\n\ncd /home/u/retroveneer/emulators/x16emu\nwhile :; do\n    \
./x16emu -fsroot /home/u/retroveneer/data/x16emu -fullscreen\ndone\n"
    );
    assert_eq!(
        launcher_script("/h", PlatformSelection::Tic80),
        "#!/usr/bin/env bash\n\ncd /h/retroveneer/emulators/tic80\nwhile :; do\n    \
./tic80 --fullscreen --fs=/h/retroveneer/data/tic80\ndone\n"
    );
    assert_eq!(launcher_script("/h", PlatformSelection::Invalid), "#!/usr/bin/env bash\n\ndone\n");
}

#[test]
fn paths_below_home() {
    let p = RvPaths::for_home("/home/pi");
    assert_eq!(p.home, "/home/pi");
    assert_eq!(p.autostart_dir, "/home/pi/.config/autostart");
    assert_eq!(p.autostart_file, "/home/pi/.config/autostart/retroveneer.desktop");
    assert_eq!(p.rv_dir, "/home/pi/retroveneer");
    assert_eq!(p.config_dir, "/home/pi/.config/retroveneer");
    assert_eq!(p.platform_file, "/home/pi/.config/retroveneer/platform");
    assert_eq!(p.temp_dir, "/home/pi/retroveneer/.temp");
    assert_eq!(p.running_file, "/home/pi/retroveneer/.temp/rv_is_running");
    assert_eq!(p.version_file, "/home/pi/retroveneer/.temp/current_version");
    assert_eq!(p.freeze_file, "/home/pi/retroveneer/.temp/install_freeze");
    assert_eq!(p.launcher_file, "/home/pi/retroveneer/.temp/launcher.sh");
    assert_eq!(p.installer_script, "/home/pi/retroveneer/.temp/rvbs.sh");
}

#[test]
fn located_paths_follow_home() {
    if let Some(p) = RvPaths::locate() {
        assert!(!p.home.is_empty());
        assert_eq!(p.rv_dir, format!("{}/retroveneer", p.home));
    }
}

#[test]
fn shell_commands() {
    assert_eq!(
        server_file_url("rvbs.sh"),
        "https://raw.githubusercontent.com/ModernRetroDev/retro-veneer/refs/heads/master/hosted/rvbs.sh"
    );
    assert_eq!(fetch_into_command("http://x/y", "/tmp/t"), "wget http://x/y -P /tmp/t");
    assert_eq!(make_executable_command("/a/b.sh"), "chmod +x /a/b.sh");
    assert_eq!(background_command("/a/b.sh", ""), "/a/b.sh &");
    assert_eq!(background_command("/a/rvbs.sh", " --update"), "/a/rvbs.sh --update &");
    assert_eq!(
        remove_files_command(&vec!["/a".to_string(), "/b c".to_string()]),
        "rm -f /a /b c"
    );
    assert_eq!(remove_files_command(&vec![]), "rm -f");
}
