use vstd::prelude::*;
use vstd::string::*;

use crate::menu_nav::{AboutSelection, ConfigSelection, PlatformSelection, UpdateSelection};
use crate::scene::{
    detail_ops, entry_ops, footer_ops, header_ops, spinner_ops, text_op, title_ops, Color, DrawOp,
    Scene,
};
use crate::spinner::spinner_text;
use crate::ui::{AboutPage, Screen};

verus! {

/// The decimal digit `d` as text.
pub open spec fn digit_text(d: nat) -> Seq<char> {
    if d == 0 {
        "0"@
    } else if d == 1 {
        "1"@
    } else if d == 2 {
        "2"@
    } else if d == 3 {
        "3"@
    } else if d == 4 {
        "4"@
    } else if d == 5 {
        "5"@
    } else if d == 6 {
        "6"@
    } else if d == 7 {
        "7"@
    } else if d == 8 {
        "8"@
    } else {
        "9"@
    }
}

/// A number in decimal notation, without leading zeros.
pub open spec fn decimal_text(n: nat) -> Seq<char>
    decreases n,
{
    if n < 10 {
        digit_text(n)
    } else {
        decimal_text(n / 10) + digit_text(n % 10)
    }
}

fn digit(d: u8) -> (r: &'static str)
    requires
        d < 10,
    ensures
        r@ == digit_text(d as nat),
{
    match d {
        0 => "0",
        1 => "1",
        2 => "2",
        3 => "3",
        4 => "4",
        5 => "5",
        6 => "6",
        7 => "7",
        8 => "8",
        _ => "9",
    }
}

/// Writes a number in decimal notation.
pub fn decimal(n: u8) -> (r: String)
    ensures
        r@ == decimal_text(n as nat),
{
    if n < 10 {
        String::from_str(digit(n))
    } else if n < 100 {
        let mut s = String::from_str(digit(n / 10));
        s.append(digit(n % 10));
        proof {
            assert(decimal_text((n / 10) as nat) == digit_text((n / 10) as nat));
        }
        s
    } else {
        let mut s = String::from_str(digit(n / 100));
        s.append(digit((n / 10) % 10));
        s.append(digit(n % 10));
        proof {
            let m = (n / 10) as nat;
            assert(m / 10 == n / 100);
            assert(decimal_text((n / 100) as nat) == digit_text((n / 100) as nat));
            assert(decimal_text(m) == decimal_text(m / 10) + digit_text(m % 10));
            assert(decimal_text(n as nat) == decimal_text(m) + digit_text((n % 10) as nat));
            assert(s@ =~= decimal_text(n as nat));
        }
        s
    }
}

/// The height of the about-menu entry where the busy indicator stands.
pub open spec fn about_entry_y(sel: AboutSelection) -> int {
    match sel {
        AboutSelection::RetroVeneer => 166,
        AboutSelection::License => 206,
        AboutSelection::TheEmulators => 246,
        AboutSelection::Directories => 286,
        AboutSelection::Back => 366,
    }
}

/// The about menu.
pub open spec fn about_menu_ops(sel: AboutSelection, spinner: u8) -> Seq<DrawOp> {
    header_ops() + title_ops("ABOUT"@)
        + entry_ops("RETROVENEER"@, 95, 166, sel == AboutSelection::RetroVeneer, Color::White)
        + entry_ops("CODE LICENSE"@, 95, 206, sel == AboutSelection::License, Color::White)
        + entry_ops("THE EMULATORS"@, 95, 246, sel == AboutSelection::TheEmulators, Color::White)
        + entry_ops("DIRECTORIES"@, 95, 286, sel == AboutSelection::Directories, Color::White)
        + entry_ops("BACK"@, 95, 366, sel == AboutSelection::Back, Color::Gray) + footer_ops()
        + spinner_ops(spinner, 51, about_entry_y(sel))
}

/// How the configuration menu names the selected platform.
pub open spec fn config_platform_label(p: PlatformSelection) -> Seq<char> {
    match p {
        PlatformSelection::CommanderX16 => "* COMMANDER X16"@,
        PlatformSelection::Tic80 => "* TIC-80"@,
        PlatformSelection::Invalid => ""@,
    }
}

/// How the configuration menu shows whether autostart is on.
pub open spec fn autostart_label(enabled: bool) -> Seq<char> {
    if enabled {
        "* ENABLED"@
    } else {
        "* DISABLED"@
    }
}

/// The height at which the busy indicator marks a configuration entry.
pub open spec fn config_entry_y(sel: ConfigSelection) -> int {
    match sel {
        ConfigSelection::SelectPlatform => 121,
        ConfigSelection::ChangeAutostart => 201,
        ConfigSelection::UpdateEverything => 281,
        ConfigSelection::AboutRetroVeneer => 321,
        ConfigSelection::LaunchEmulator => 365,
        ConfigSelection::ExitRetroVeneer => 405,
    }
}

/// The configuration menu, with the platform and the autostart setting
/// shown under their entries.
pub open spec fn configure_ops(
    sel: ConfigSelection,
    platform: PlatformSelection,
    autostart: bool,
    spinner: u8,
) -> Seq<DrawOp> {
    header_ops() + title_ops("CONFIGURATION"@)
        + entry_ops("SELECT PLATFORM"@, 95, 121, sel == ConfigSelection::SelectPlatform, Color::White)
        + detail_ops(config_platform_label(platform), 125, 161, sel == ConfigSelection::SelectPlatform)
        + entry_ops("ENABLE/DISABLE AUTOSTART"@, 95, 201, sel == ConfigSelection::ChangeAutostart, Color::White)
        + detail_ops(autostart_label(autostart), 125, 241, sel == ConfigSelection::ChangeAutostart)
        + entry_ops("UPDATE EVERYTHING"@, 95, 281, sel == ConfigSelection::UpdateEverything, Color::White)
        + entry_ops("ABOUT RETRO VENEER"@, 95, 321, sel == ConfigSelection::AboutRetroVeneer, Color::White)
        + entry_ops("LAUNCH EMULATOR"@, 95, 360, sel == ConfigSelection::LaunchEmulator, Color::Green)
        + entry_ops("EXIT RETRO VENEER"@, 95, 400, sel == ConfigSelection::ExitRetroVeneer, Color::Red)
        + footer_ops() + spinner_ops(spinner, 51, config_entry_y(sel))
}

/// The height of the busy indicator on the platform list.
pub open spec fn platform_entry_y(p: PlatformSelection) -> int {
    match p {
        PlatformSelection::CommanderX16 => 186,
        PlatformSelection::Tic80 => 266,
        PlatformSelection::Invalid => 116,
    }
}

/// The platform list.
pub open spec fn select_platform_ops(sel: PlatformSelection, spinner: u8) -> Seq<DrawOp> {
    header_ops() + title_ops("SELECT PLATFORM"@)
        + entry_ops("COMMANDER X16"@, 95, 186, sel == PlatformSelection::CommanderX16, Color::White)
        + entry_ops("TIC-80"@, 95, 266, sel == PlatformSelection::Tic80, Color::White)
        + footer_ops() + spinner_ops(spinner, 51, platform_entry_y(sel))
}

/// The message of the update menu: a network error first, then a freeze,
/// then whether an update is available.
pub open spec fn update_status_ops(networking_error: bool, install_freeze: bool, updates_available: bool) -> Seq<DrawOp> {
    if networking_error {
        seq![text_op("Network Error: Unable to check for Updates."@, 50, 186, 20, Color::Red)]
    } else if install_freeze {
        seq![
            text_op("Updates Currently Frozen: Try again later."@, 50, 186, 20, Color::Red),
            text_op("* Updates are likely being made to the installers *"@, 50, 216, 20, Color::Gray),
        ]
    } else if !updates_available {
        seq![text_op("Your RetroVeneer setup is up-to-date."@, 50, 186, 20, Color::White)]
    } else {
        seq![text_op("An updated RetroVeneer setup is available."@, 50, 186, 20, Color::Green)]
    }
}

/// The height of the busy indicator on the update menu; with "INSTALL
/// UPDATES" selected but not offered it stands at the top of the menu.
pub open spec fn update_entry_y(sel: UpdateSelection, updates_available: bool) -> int {
    match sel {
        UpdateSelection::InstallUpdates => if updates_available {
            286
        } else {
            116
        },
        UpdateSelection::Back => 366,
    }
}

/// The update menu; "INSTALL UPDATES" is offered only while updates are available.
pub open spec fn update_ops(
    sel: UpdateSelection,
    networking_error: bool,
    install_freeze: bool,
    updates_available: bool,
    spinner: u8,
) -> Seq<DrawOp> {
    header_ops() + title_ops("UPDATE EVERYTHING"@)
        + update_status_ops(networking_error, install_freeze, updates_available)
        + (if updates_available {
        entry_ops("INSTALL UPDATES"@, 95, 286, sel == UpdateSelection::InstallUpdates, Color::White)
    } else {
        Seq::<DrawOp>::empty()
    }) + entry_ops("BACK"@, 95, 366, sel == UpdateSelection::Back, Color::Gray) + footer_ops()
        + spinner_ops(spinner, 51, update_entry_y(sel, updates_available))
}

/// How the countdown names the platform it will start.
pub open spec fn countdown_platform_label(p: PlatformSelection) -> Seq<char> {
    match p {
        PlatformSelection::CommanderX16 => "[COMMANDER X16]"@,
        PlatformSelection::Tic80 => "[TIC-80]"@,
        PlatformSelection::Invalid => ""@,
    }
}

/// The countdown's message for the seconds left.
pub open spec fn countdown_message(seconds: u8) -> Seq<char> {
    "Starting Emulation in "@ + decimal_text(seconds as nat) + " seconds..."@
}

/// The countdown screen.
pub open spec fn countdown_ops(platform: PlatformSelection, seconds: u8) -> Seq<DrawOp> {
    header_ops() + seq![
        text_op(countdown_platform_label(platform), 177, 163, 30, Color::Blue),
        text_op(countdown_platform_label(platform), 175, 161, 30, Color::Gray),
        text_op("PUSH `ESC` TO CONFIGURE SYSTEM"@, 30, 225, 30, Color::White),
        text_op("ESC"@, 135, 225, 30, Color::Red),
    ] + footer_ops() + seq![text_op(countdown_message(seconds), 170, 320, 20, Color::Red)]
}

/// The screen shown while the emulator runs.
pub open spec fn emulator_running_ops() -> Seq<DrawOp> {
    header_ops() + seq![text_op("EMU RUNNING; RESET TO STOP."@, 75, 225, 30, Color::White)]
        + footer_ops()
}

/// The title of an about page.
pub open spec fn page_title(page: AboutPage) -> Seq<char> {
    match page {
        AboutPage::RetroVeneer => "ABOUT RETRO VENEER"@,
        AboutPage::License => "SOFTWARE LICENSE"@,
        AboutPage::TheEmulators => "ABOUT THE EMULATORS"@,
        AboutPage::Directories => "ABOUT DIRECTORIES"@,
    }
}

/// How far right an about page is laid out.
pub open spec fn page_shift(page: AboutPage) -> int {
    match page {
        AboutPage::RetroVeneer => 35,
        AboutPage::License => 35,
        AboutPage::TheEmulators => 15,
        AboutPage::Directories => 20,
    }
}

/// The text of an about page.
pub open spec fn page_body_ops(page: AboutPage) -> Seq<DrawOp> {
    match page {
        AboutPage::RetroVeneer => seq![
            text_op("RetroVeneer is a set of codes/scripts to simplify the"@, 35, 145, 20, Color::White),
            text_op("process of setting up and keeping up-to-date a set of"@, 35, 170, 20, Color::White),
            text_op("emulators for modern retrocomputers."@, 35, 195, 20, Color::White),
            text_op("If you enjoyed this project, please follow me at:"@, 35, 240, 20, Color::White),
            text_op("* YouTube: @ModernRetroDev"@, 45, 275, 20, Color::Gray),
            text_op("* GitHub: https://github.com/ModernRetroDev"@, 45, 310, 20, Color::Gray),
            text_op("Thanks! ~~ Mike"@, 35, 345, 20, Color::White),
        ],
        AboutPage::License => seq![
            text_op("Copyright (c) 2025 <Mike AKA: ModernRetroDev>"@, 35, 126, 10, Color::White),
            text_op("Permission is hereby granted, free of charge, to any person obtaining a copy of"@, 35, 156, 10, Color::White),
            text_op("this software and associated documentation files (the \"Software\"), to deal in."@, 35, 171, 10, Color::White),
            text_op("the Software without restriction, including without limitation the rights to"@, 35, 186, 10, Color::White),
            text_op("use, copy, modify, merge, publish, distribute, sublicense, and/or sell copies of"@, 35, 201, 10, Color::White),
            text_op("the Software, and to permit persons to whom the Software is furnished to do so,"@, 35, 216, 10, Color::White),
            text_op("subject to the following conditions:"@, 35, 231, 10, Color::White),
            text_op("The above copyright notice and this permission notice shall be included in all"@, 35, 261, 10, Color::White),
            text_op("copies or substantial portions of the Software."@, 35, 276, 10, Color::White),
            text_op("THE SOFTWARE IS PROVIDED \"AS IS\", WITHOUT WARRANTY OF ANY KIND, EXPRESS OR"@, 35, 306, 10, Color::White),
            text_op("IMPLIED, INCLUDING BUT NOT LIMITED TO THE WARRANTIES OF MERCHANTABILITY, FITNESS"@, 35, 321, 10, Color::White),
            text_op("FOR A PARTICULAR PURPOSE AND NONINFRINGEMENT. IN NO EVENT SHALL THE AUTHORS OR"@, 35, 336, 10, Color::White),
            text_op("COPYRIGHT HOLDERS BE LIABLE FOR ANY CLAIM, DAMAGES OR OTHER LIABILITY, WHETHER"@, 35, 351, 10, Color::White),
            text_op("IN AN ACTION OF CONTRACT, TORT OR OTHERWISE, ARISING FROM, OUT OF OR IN"@, 35, 366, 10, Color::White),
            text_op("CONNECTION WITH THE SOFTWARE OR THE USE OR OTHER DEALINGS IN THE SOFTWARE."@, 35, 381, 10, Color::White),
        ],
        AboutPage::TheEmulators => seq![
            text_op("The various platform emulators installed by RetroVeneer"@, 15, 140, 20, Color::White),
            text_op("all utilize their own licenses. The archives from which"@, 15, 165, 20, Color::White),
            text_op("they are installed should all include these licenses."@, 15, 190, 20, Color::White),
            text_op("Archives used for emulator installation are stored here:"@, 15, 235, 20, Color::White),
            text_op("$HOME/retroveneer/emulator/archives"@, 55, 270, 20, Color::Gray),
            text_op("If you enjoy the platforms being emulated, please support"@, 15, 315, 20, Color::Green),
            text_op("these projects by purchasing actual hardware (if possible)."@, 15, 350, 20, Color::Green),
        ],
        AboutPage::Directories => seq![
            text_op("Files installed by RetroVeneer end up within the path:"@, 20, 140, 20, Color::White),
            text_op("$HOME/retroveneer"@, 60, 175, 20, Color::Gray),
            text_op("Most importantly, platform directories located within:"@, 20, 210, 20, Color::White),
            text_op("$HOME/retroveneer/data"@, 60, 245, 20, Color::Gray),
            text_op("are mounted by the emulators when they are started. So"@, 20, 280, 20, Color::White),
            text_op("if you wish to make code and or programs accessible to"@, 20, 315, 20, Color::White),
            text_op("the emulators. Save them within these directories."@, 20, 350, 20, Color::White),
        ],
    }
}

/// An about page: its title and text, and "BACK", always selected.
pub open spec fn about_page_ops(page: AboutPage, spinner: u8) -> Seq<DrawOp> {
    header_ops() + title_ops(page_title(page)) + page_body_ops(page)
        + entry_ops("BACK"@, 60 + page_shift(page), 401, true, Color::Gray) + footer_ops()
        + spinner_ops(spinner, 16 + page_shift(page), 401)
}

/// What a screen draws.
pub open spec fn screen_ops(s: Screen) -> Seq<DrawOp> {
    match s {
        Screen::About { selection, spinner } => about_menu_ops(selection, spinner),
        Screen::AboutPage { page, spinner } => about_page_ops(page, spinner),
        Screen::Countdown { platform, seconds } => countdown_ops(platform, seconds),
        Screen::EmulatorRunning => emulator_running_ops(),
        Screen::Configure { selection, platform, autostart_enabled, spinner } => configure_ops(
            selection,
            platform,
            autostart_enabled,
            spinner,
        ),
        Screen::SelectPlatform { selection, spinner } => select_platform_ops(selection, spinner),
        Screen::UpdateEverything {
            selection,
            networking_error,
            install_freeze,
            updates_available,
            spinner,
        } => update_ops(selection, networking_error, install_freeze, updates_available, spinner),
    }
}

fn about_entry_height(sel: AboutSelection) -> (r: i32)
    ensures
        r == about_entry_y(sel),
{
    match sel {
        AboutSelection::RetroVeneer => 166,
        AboutSelection::License => 206,
        AboutSelection::TheEmulators => 246,
        AboutSelection::Directories => 286,
        AboutSelection::Back => 366,
    }
}

fn draw_about_menu(sel: AboutSelection, spinner: u8) -> (r: Scene)
    ensures
        r@ == about_menu_ops(sel, spinner),
{
    let mut s = Scene::framed();
    s.title("ABOUT");
    s.entry("RETROVENEER", 95, 166, sel == AboutSelection::RetroVeneer, Color::White);
    s.entry("CODE LICENSE", 95, 206, sel == AboutSelection::License, Color::White);
    s.entry("THE EMULATORS", 95, 246, sel == AboutSelection::TheEmulators, Color::White);
    s.entry("DIRECTORIES", 95, 286, sel == AboutSelection::Directories, Color::White);
    s.entry("BACK", 95, 366, sel == AboutSelection::Back, Color::Gray);
    s.footer();
    s.spinner(spinner, 51, about_entry_height(sel));
    s
}

fn config_entry_height(sel: ConfigSelection) -> (r: i32)
    ensures
        r == config_entry_y(sel),
{
    match sel {
        ConfigSelection::SelectPlatform => 121,
        ConfigSelection::ChangeAutostart => 201,
        ConfigSelection::UpdateEverything => 281,
        ConfigSelection::AboutRetroVeneer => 321,
        ConfigSelection::LaunchEmulator => 365,
        ConfigSelection::ExitRetroVeneer => 405,
    }
}

fn draw_configure(sel: ConfigSelection, platform: PlatformSelection, autostart: bool, spinner: u8) -> (r: Scene)
    ensures
        r@ == configure_ops(sel, platform, autostart, spinner),
{
    let platform_label = match platform {
        PlatformSelection::CommanderX16 => "* COMMANDER X16",
        PlatformSelection::Tic80 => "* TIC-80",
        PlatformSelection::Invalid => "",
    };
    let autostart_text = if autostart {
        "* ENABLED"
    } else {
        "* DISABLED"
    };
    let mut s = Scene::framed();
    s.title("CONFIGURATION");
    s.entry("SELECT PLATFORM", 95, 121, sel == ConfigSelection::SelectPlatform, Color::White);
    s.detail(platform_label, 125, 161, sel == ConfigSelection::SelectPlatform);
    s.entry(
        "ENABLE/DISABLE AUTOSTART",
        95,
        201,
        sel == ConfigSelection::ChangeAutostart,
        Color::White,
    );
    s.detail(autostart_text, 125, 241, sel == ConfigSelection::ChangeAutostart);
    s.entry("UPDATE EVERYTHING", 95, 281, sel == ConfigSelection::UpdateEverything, Color::White);
    s.entry("ABOUT RETRO VENEER", 95, 321, sel == ConfigSelection::AboutRetroVeneer, Color::White);
    s.entry("LAUNCH EMULATOR", 95, 360, sel == ConfigSelection::LaunchEmulator, Color::Green);
    s.entry("EXIT RETRO VENEER", 95, 400, sel == ConfigSelection::ExitRetroVeneer, Color::Red);
    s.footer();
    s.spinner(spinner, 51, config_entry_height(sel));
    s
}

fn draw_select_platform(sel: PlatformSelection, spinner: u8) -> (r: Scene)
    ensures
        r@ == select_platform_ops(sel, spinner),
{
    let y: i32 = match sel {
        PlatformSelection::CommanderX16 => 186,
        PlatformSelection::Tic80 => 266,
        PlatformSelection::Invalid => 116,
    };
    let mut s = Scene::framed();
    s.title("SELECT PLATFORM");
    s.entry("COMMANDER X16", 95, 186, sel == PlatformSelection::CommanderX16, Color::White);
    s.entry("TIC-80", 95, 266, sel == PlatformSelection::Tic80, Color::White);
    s.footer();
    s.spinner(spinner, 51, y);
    s
}

fn draw_update(
    sel: UpdateSelection,
    networking_error: bool,
    install_freeze: bool,
    updates_available: bool,
    spinner: u8,
) -> (r: Scene)
    ensures
        r@ == update_ops(sel, networking_error, install_freeze, updates_available, spinner),
{
    let mut s = Scene::framed();
    s.title("UPDATE EVERYTHING");
    let ghost before = s@;
    if networking_error {
        s.text("Network Error: Unable to check for Updates.", 50, 186, 20, Color::Red);
    } else if install_freeze {
        s.text("Updates Currently Frozen: Try again later.", 50, 186, 20, Color::Red);
        s.text("* Updates are likely being made to the installers *", 50, 216, 20, Color::Gray);
    } else if !updates_available {
        s.text("Your RetroVeneer setup is up-to-date.", 50, 186, 20, Color::White);
    } else {
        s.text("An updated RetroVeneer setup is available.", 50, 186, 20, Color::Green);
    }
    assert(s@ =~= before + update_status_ops(networking_error, install_freeze, updates_available));
    let ghost before = s@;
    if updates_available {
        s.entry("INSTALL UPDATES", 95, 286, sel == UpdateSelection::InstallUpdates, Color::White);
    }
    assert(s@ =~= before + (if updates_available {
        entry_ops("INSTALL UPDATES"@, 95, 286, sel == UpdateSelection::InstallUpdates, Color::White)
    } else {
        Seq::<DrawOp>::empty()
    }));
    s.entry("BACK", 95, 366, sel == UpdateSelection::Back, Color::Gray);
    s.footer();
    let y: i32 = match sel {
        UpdateSelection::InstallUpdates => if updates_available {
            286
        } else {
            116
        },
        UpdateSelection::Back => 366,
    };
    s.spinner(spinner, 51, y);
    s
}

fn draw_countdown(platform: PlatformSelection, seconds: u8) -> (r: Scene)
    ensures
        r@ == countdown_ops(platform, seconds),
{
    let label = match platform {
        PlatformSelection::CommanderX16 => "[COMMANDER X16]",
        PlatformSelection::Tic80 => "[TIC-80]",
        PlatformSelection::Invalid => "",
    };
    let mut message = String::from_str("Starting Emulation in ");
    let number = decimal(seconds);
    message.append(number.as_str());
    message.append(" seconds...");
    let mut s = Scene::framed();
    let ghost before = s@;
    s.text(label, 177, 163, 30, Color::Blue);
    s.text(label, 175, 161, 30, Color::Gray);
    s.text("PUSH `ESC` TO CONFIGURE SYSTEM", 30, 225, 30, Color::White);
    s.text("ESC", 135, 225, 30, Color::Red);
    assert(s@ =~= before + seq![
        text_op(countdown_platform_label(platform), 177, 163, 30, Color::Blue),
        text_op(countdown_platform_label(platform), 175, 161, 30, Color::Gray),
        text_op("PUSH `ESC` TO CONFIGURE SYSTEM"@, 30, 225, 30, Color::White),
        text_op("ESC"@, 135, 225, 30, Color::Red),
    ]);
    s.footer();
    let ghost before = s@;
    s.text(message.as_str(), 170, 320, 20, Color::Red);
    assert(s@ =~= before + seq![text_op(countdown_message(seconds), 170, 320, 20, Color::Red)]);
    s
}

fn draw_emulator_running() -> (r: Scene)
    ensures
        r@ == emulator_running_ops(),
{
    let mut s = Scene::framed();
    let ghost before = s@;
    s.text("EMU RUNNING; RESET TO STOP.", 75, 225, 30, Color::White);
    assert(s@ =~= before + seq![
        text_op("EMU RUNNING; RESET TO STOP."@, 75, 225, 30, Color::White),
    ]);
    s.footer();
    s
}

fn draw_page_body(s: &mut Scene, page: AboutPage)
    ensures
        final(s)@ == old(s)@ + page_body_ops(page),
{
    match page {
        AboutPage::RetroVeneer => {
            s.text("RetroVeneer is a set of codes/scripts to simplify the", 35, 145, 20, Color::White);
            s.text("process of setting up and keeping up-to-date a set of", 35, 170, 20, Color::White);
            s.text("emulators for modern retrocomputers.", 35, 195, 20, Color::White);
            s.text("If you enjoyed this project, please follow me at:", 35, 240, 20, Color::White);
            s.text("* YouTube: @ModernRetroDev", 45, 275, 20, Color::Gray);
            s.text("* GitHub: https://github.com/ModernRetroDev", 45, 310, 20, Color::Gray);
            s.text("Thanks! ~~ Mike", 35, 345, 20, Color::White);
        },
        AboutPage::License => {
            s.text("Copyright (c) 2025 <Mike AKA: ModernRetroDev>", 35, 126, 10, Color::White);
            s.text("Permission is hereby granted, free of charge, to any person obtaining a copy of", 35, 156, 10, Color::White);
            s.text("this software and associated documentation files (the \"Software\"), to deal in.", 35, 171, 10, Color::White);
            s.text("the Software without restriction, including without limitation the rights to", 35, 186, 10, Color::White);
            s.text("use, copy, modify, merge, publish, distribute, sublicense, and/or sell copies of", 35, 201, 10, Color::White);
            s.text("the Software, and to permit persons to whom the Software is furnished to do so,", 35, 216, 10, Color::White);
            s.text("subject to the following conditions:", 35, 231, 10, Color::White);
            s.text("The above copyright notice and this permission notice shall be included in all", 35, 261, 10, Color::White);
            s.text("copies or substantial portions of the Software.", 35, 276, 10, Color::White);
            s.text("THE SOFTWARE IS PROVIDED \"AS IS\", WITHOUT WARRANTY OF ANY KIND, EXPRESS OR", 35, 306, 10, Color::White);
            s.text("IMPLIED, INCLUDING BUT NOT LIMITED TO THE WARRANTIES OF MERCHANTABILITY, FITNESS", 35, 321, 10, Color::White);
            s.text("FOR A PARTICULAR PURPOSE AND NONINFRINGEMENT. IN NO EVENT SHALL THE AUTHORS OR", 35, 336, 10, Color::White);
            s.text("COPYRIGHT HOLDERS BE LIABLE FOR ANY CLAIM, DAMAGES OR OTHER LIABILITY, WHETHER", 35, 351, 10, Color::White);
            s.text("IN AN ACTION OF CONTRACT, TORT OR OTHERWISE, ARISING FROM, OUT OF OR IN", 35, 366, 10, Color::White);
            s.text("CONNECTION WITH THE SOFTWARE OR THE USE OR OTHER DEALINGS IN THE SOFTWARE.", 35, 381, 10, Color::White);
        },
        AboutPage::TheEmulators => {
            s.text("The various platform emulators installed by RetroVeneer", 15, 140, 20, Color::White);
            s.text("all utilize their own licenses. The archives from which", 15, 165, 20, Color::White);
            s.text("they are installed should all include these licenses.", 15, 190, 20, Color::White);
            s.text("Archives used for emulator installation are stored here:", 15, 235, 20, Color::White);
            s.text("$HOME/retroveneer/emulator/archives", 55, 270, 20, Color::Gray);
            s.text("If you enjoy the platforms being emulated, please support", 15, 315, 20, Color::Green);
            s.text("these projects by purchasing actual hardware (if possible).", 15, 350, 20, Color::Green);
        },
        AboutPage::Directories => {
            s.text("Files installed by RetroVeneer end up within the path:", 20, 140, 20, Color::White);
            s.text("$HOME/retroveneer", 60, 175, 20, Color::Gray);
            s.text("Most importantly, platform directories located within:", 20, 210, 20, Color::White);
            s.text("$HOME/retroveneer/data", 60, 245, 20, Color::Gray);
            s.text("are mounted by the emulators when they are started. So", 20, 280, 20, Color::White);
            s.text("if you wish to make code and or programs accessible to", 20, 315, 20, Color::White);
            s.text("the emulators. Save them within these directories.", 20, 350, 20, Color::White);
        },
    }
    assert(final(s)@ =~= old(s)@ + page_body_ops(page));
}

fn draw_about_page(page: AboutPage, spinner: u8) -> (r: Scene)
    ensures
        r@ == about_page_ops(page, spinner),
{
    let (title, shift): (&str, i32) = match page {
        AboutPage::RetroVeneer => ("ABOUT RETRO VENEER", 35),
        AboutPage::License => ("SOFTWARE LICENSE", 35),
        AboutPage::TheEmulators => ("ABOUT THE EMULATORS", 15),
        AboutPage::Directories => ("ABOUT DIRECTORIES", 20),
    };
    let mut s = Scene::framed();
    s.title(title);
    draw_page_body(&mut s, page);
    s.entry("BACK", 60 + shift, 401, true, Color::Gray);
    s.footer();
    s.spinner(spinner, 16 + shift, 401);
    s
}

/// The drawing commands of a screen.
pub fn draw_screen(screen: Screen) -> (r: Scene)
    ensures
        r@ == screen_ops(screen),
{
    match screen {
        Screen::About { selection, spinner } => draw_about_menu(selection, spinner),
        Screen::AboutPage { page, spinner } => draw_about_page(page, spinner),
        Screen::Countdown { platform, seconds } => draw_countdown(platform, seconds),
        Screen::EmulatorRunning => draw_emulator_running(),
        Screen::Configure { selection, platform, autostart_enabled, spinner } => draw_configure(
            selection,
            platform,
            autostart_enabled,
            spinner,
        ),
        Screen::SelectPlatform { selection, spinner } => draw_select_platform(selection, spinner),
        Screen::UpdateEverything {
            selection,
            networking_error,
            install_freeze,
            updates_available,
            spinner,
        } => draw_update(selection, networking_error, install_freeze, updates_available, spinner),
    }
}

/// The texts drawn in yellow, that is what stands out on a screen, with
/// the height of each, in drawing order.
pub open spec fn highlights(ops: Seq<DrawOp>) -> Seq<(Seq<char>, int)>
    decreases ops.len(),
{
    if ops.len() == 0 {
        Seq::empty()
    } else {
        highlights(ops.drop_last()) + highlight_of(ops.last())
    }
}

pub open spec fn highlight_of(op: DrawOp) -> Seq<(Seq<char>, int)> {
    match op {
        DrawOp::Text(t, _x, y, _size, Color::Yellow) => seq![(t, y)],
        _ => Seq::empty(),
    }
}

proof fn highlights_push(ops: Seq<DrawOp>, op: DrawOp)
    ensures
        highlights(ops.push(op)) == highlights(ops) + highlight_of(op),
{
    assert(ops.push(op).drop_last() =~= ops);
}

proof fn highlights_add(a: Seq<DrawOp>, b: Seq<DrawOp>)
    ensures
        highlights(a + b) == highlights(a) + highlights(b),
    decreases b.len(),
{
    if b.len() == 0 {
        assert(a + b =~= a);
        assert(highlights(a) + highlights(b) =~= highlights(a));
    } else {
        highlights_add(a, b.drop_last());
        assert((a + b).drop_last() =~= a + b.drop_last());
        assert((a + b).last() == b.last());
        assert(highlights(a) + highlights(b.drop_last()) + highlight_of(b.last()) =~= highlights(a)
            + (highlights(b.drop_last()) + highlight_of(b.last())));
    }
}

proof fn highlights_of_two(x: DrawOp, y: DrawOp)
    ensures
        highlights(seq![x, y]) == highlight_of(x) + highlight_of(y),
{
    highlights_push(seq![x], y);
    highlights_push(Seq::empty(), x);
    assert(seq![x] =~= Seq::<DrawOp>::empty().push(x));
    assert(seq![x, y] =~= seq![x].push(y));
    assert(Seq::<(Seq<char>, int)>::empty() + highlight_of(x) =~= highlight_of(x));
}

proof fn highlights_of_one(x: DrawOp)
    ensures
        highlights(seq![x]) == highlight_of(x),
{
    highlights_push(Seq::empty(), x);
    assert(seq![x] =~= Seq::<DrawOp>::empty().push(x));
    assert(Seq::<(Seq<char>, int)>::empty() + highlight_of(x) =~= highlight_of(x));
}

proof fn highlights_of_four(a: DrawOp, b: DrawOp, c: DrawOp, d: DrawOp)
    ensures
        highlights(seq![a, b, c, d]) == highlight_of(a) + highlight_of(b) + highlight_of(c)
            + highlight_of(d),
{
    highlights_of_two(a, b);
    highlights_of_two(c, d);
    assert(seq![a, b, c, d] =~= seq![a, b] + seq![c, d]);
    highlights_add(seq![a, b], seq![c, d]);
}

proof fn frame_parts_plain(t: Seq<char>, u: Seq<char>, x: int, y: int, selected: bool)
    ensures
        highlights(header_ops()) == Seq::<(Seq<char>, int)>::empty(),
        highlights(footer_ops()) == Seq::<(Seq<char>, int)>::empty(),
        highlights(title_ops(t)) == Seq::<(Seq<char>, int)>::empty(),
        highlights(detail_ops(u, x, y, selected)) == Seq::<(Seq<char>, int)>::empty(),
{
    let h = header_ops();
    highlights_of_four(h[0], h[1], h[2], h[3]);
    assert(h =~= seq![h[0], h[1], h[2], h[3]]);
    let f = footer_ops();
    highlights_of_two(f[0], f[1]);
    assert(f =~= seq![f[0], f[1]]);
    highlights_of_one(title_ops(t)[0]);
    assert(title_ops(t) =~= seq![title_ops(t)[0]]);
    let d = detail_ops(u, x, y, selected);
    if selected {
        highlights_of_two(d[0], d[1]);
        assert(d =~= seq![d[0], d[1]]);
    } else {
        highlights_of_one(d[0]);
        assert(d =~= seq![d[0]]);
    }
    assert(Seq::<(Seq<char>, int)>::empty() + Seq::<(Seq<char>, int)>::empty() =~= Seq::<(Seq<char>, int)>::empty());
}

proof fn entry_highlight(label: Seq<char>, x: int, y: int, selected: bool, idle: Color)
    requires
        idle != Color::Yellow,
    ensures
        highlights(entry_ops(label, x, y, selected, idle)) == if selected {
            seq![(label, y)]
        } else {
            Seq::<(Seq<char>, int)>::empty()
        },
{
    let e = entry_ops(label, x, y, selected, idle);
    if selected {
        highlights_of_two(e[0], e[1]);
        assert(e =~= seq![e[0], e[1]]);
        assert(Seq::<(Seq<char>, int)>::empty() + seq![(label, y)] =~= seq![(label, y)]);
    } else {
        highlights_of_one(e[0]);
        assert(e =~= seq![e[0]]);
    }
}

proof fn spinner_highlight(phase: u8, x: int, y: int)
    ensures
        highlights(spinner_ops(phase, x, y)) == seq![(spinner_text(phase), y)],
{
    let e = spinner_ops(phase, x, y);
    highlights_of_two(e[0], e[1]);
    assert(e =~= seq![e[0], e[1]]);
    assert(Seq::<(Seq<char>, int)>::empty() + seq![(spinner_text(phase), y)] =~= seq![(spinner_text(phase), y)]);
}

/// The label of an about-menu entry.
pub open spec fn about_label(sel: AboutSelection) -> Seq<char> {
    match sel {
        AboutSelection::RetroVeneer => "RETROVENEER"@,
        AboutSelection::License => "CODE LICENSE"@,
        AboutSelection::TheEmulators => "THE EMULATORS"@,
        AboutSelection::Directories => "DIRECTORIES"@,
        AboutSelection::Back => "BACK"@,
    }
}

/// The label of a configuration entry.
pub open spec fn config_label(sel: ConfigSelection) -> Seq<char> {
    match sel {
        ConfigSelection::SelectPlatform => "SELECT PLATFORM"@,
        ConfigSelection::ChangeAutostart => "ENABLE/DISABLE AUTOSTART"@,
        ConfigSelection::UpdateEverything => "UPDATE EVERYTHING"@,
        ConfigSelection::AboutRetroVeneer => "ABOUT RETRO VENEER"@,
        ConfigSelection::LaunchEmulator => "LAUNCH EMULATOR"@,
        ConfigSelection::ExitRetroVeneer => "EXIT RETRO VENEER"@,
    }
}

/// The height of a configuration entry's label.
pub open spec fn config_label_y(sel: ConfigSelection) -> int {
    match sel {
        ConfigSelection::SelectPlatform => 121,
        ConfigSelection::ChangeAutostart => 201,
        ConfigSelection::UpdateEverything => 281,
        ConfigSelection::AboutRetroVeneer => 321,
        ConfigSelection::LaunchEmulator => 360,
        ConfigSelection::ExitRetroVeneer => 400,
    }
}

/// The label of a platform in the platform list.
pub open spec fn platform_label(p: PlatformSelection) -> Seq<char> {
    match p {
        PlatformSelection::CommanderX16 => "COMMANDER X16"@,
        PlatformSelection::Tic80 => "TIC-80"@,
        PlatformSelection::Invalid => ""@,
    }
}

/// What stands out on a screen: the selected entry and, beside it, the
/// busy indicator; the countdown and the running screen have no menu.
pub open spec fn marked(s: Screen) -> Seq<(Seq<char>, int)> {
    match s {
        Screen::About { selection, spinner } => seq![
            (about_label(selection), about_entry_y(selection)),
            (spinner_text(spinner), about_entry_y(selection)),
        ],
        Screen::AboutPage { page, spinner } => seq![("BACK"@, 401), (spinner_text(spinner), 401)],
        Screen::Countdown { .. } => Seq::empty(),
        Screen::EmulatorRunning => Seq::empty(),
        Screen::Configure { selection, spinner, .. } => seq![
            (config_label(selection), config_label_y(selection)),
            (spinner_text(spinner), config_entry_y(selection)),
        ],
        Screen::SelectPlatform { selection, spinner } => if selection
            == PlatformSelection::Invalid {
            seq![(spinner_text(spinner), 116)]
        } else {
            seq![
                (platform_label(selection), platform_entry_y(selection)),
                (spinner_text(spinner), platform_entry_y(selection)),
            ]
        },
        Screen::UpdateEverything { selection, updates_available, spinner, .. } => if selection
            == UpdateSelection::Back {
            seq![("BACK"@, 366), (spinner_text(spinner), 366)]
        } else if updates_available {
            seq![("INSTALL UPDATES"@, 286), (spinner_text(spinner), 286)]
        } else {
            seq![(spinner_text(spinner), 116)]
        },
    }
}

proof fn status_plain(n: bool, f: bool, a: bool)
    ensures
        highlights(update_status_ops(n, f, a)) == Seq::<(Seq<char>, int)>::empty(),
{
    let u = update_status_ops(n, f, a);
    if !n && f {
        highlights_of_two(u[0], u[1]);
        assert(u =~= seq![u[0], u[1]]);
        assert(Seq::<(Seq<char>, int)>::empty() + Seq::<(Seq<char>, int)>::empty() =~= Seq::<(Seq<char>, int)>::empty());
    } else {
        highlights_of_one(u[0]);
        assert(u =~= seq![u[0]]);
    }
}

proof fn about_menu_marked(sel: AboutSelection, spinner: u8)
    ensures
        highlights(screen_ops(Screen::About { selection: sel, spinner })) == marked(Screen::About { selection: sel, spinner }),
{
    let s = Screen::About { selection: sel, spinner };

            frame_parts_plain("ABOUT"@, ""@, 0, 0, false);
            let p0 = header_ops();
            let t = title_ops("ABOUT"@);
            let e1 = entry_ops("RETROVENEER"@, 95, 166, sel == AboutSelection::RetroVeneer, Color::White);
            let e2 = entry_ops("CODE LICENSE"@, 95, 206, sel == AboutSelection::License, Color::White);
            let e3 = entry_ops("THE EMULATORS"@, 95, 246, sel == AboutSelection::TheEmulators, Color::White);
            let e4 = entry_ops("DIRECTORIES"@, 95, 286, sel == AboutSelection::Directories, Color::White);
            let e5 = entry_ops("BACK"@, 95, 366, sel == AboutSelection::Back, Color::Gray);
            let f = footer_ops();
            let sp = spinner_ops(spinner, 51, about_entry_y(sel));
            entry_highlight("RETROVENEER"@, 95, 166, sel == AboutSelection::RetroVeneer, Color::White);
            entry_highlight("CODE LICENSE"@, 95, 206, sel == AboutSelection::License, Color::White);
            entry_highlight("THE EMULATORS"@, 95, 246, sel == AboutSelection::TheEmulators, Color::White);
            entry_highlight("DIRECTORIES"@, 95, 286, sel == AboutSelection::Directories, Color::White);
            entry_highlight("BACK"@, 95, 366, sel == AboutSelection::Back, Color::Gray);
            spinner_highlight(spinner, 51, about_entry_y(sel));
            highlights_add(p0, t);
            highlights_add(p0 + t, e1);
            highlights_add(p0 + t + e1, e2);
            highlights_add(p0 + t + e1 + e2, e3);
            highlights_add(p0 + t + e1 + e2 + e3, e4);
            highlights_add(p0 + t + e1 + e2 + e3 + e4, e5);
            highlights_add(p0 + t + e1 + e2 + e3 + e4 + e5, f);
            highlights_add(p0 + t + e1 + e2 + e3 + e4 + e5 + f, sp);
            assert(highlights(screen_ops(s)) =~= marked(s));
        
}

proof fn about_page_marked(page: AboutPage, spinner: u8)
    ensures
        highlights(screen_ops(Screen::AboutPage { page, spinner })) == marked(Screen::AboutPage { page, spinner }),
{
    let s = Screen::AboutPage { page, spinner };
    let e = Seq::<(Seq<char>, int)>::empty();

            frame_parts_plain(page_title(page), ""@, 0, 0, false);
            let p0 = header_ops();
            let t = title_ops(page_title(page));
            let b = page_body_ops(page);
            let e1 = entry_ops("BACK"@, 60 + page_shift(page), 401, true, Color::Gray);
            let f = footer_ops();
            let sp = spinner_ops(spinner, 16 + page_shift(page), 401);
            assert(highlights(b) == e) by {
                reveal_with_fuel(highlights, 16);
                match page {
                    AboutPage::RetroVeneer => {},
                    AboutPage::License => {},
                    AboutPage::TheEmulators => {},
                    AboutPage::Directories => {},
                }
                assert(highlights(b) =~= e);
            }
            entry_highlight("BACK"@, 60 + page_shift(page), 401, true, Color::Gray);
            spinner_highlight(spinner, 16 + page_shift(page), 401);
            highlights_add(p0, t);
            highlights_add(p0 + t, b);
            highlights_add(p0 + t + b, e1);
            highlights_add(p0 + t + b + e1, f);
            highlights_add(p0 + t + b + e1 + f, sp);
            assert(highlights(screen_ops(s)) =~= marked(s));
        
}

proof fn countdown_marked(platform: PlatformSelection, seconds: u8)
    ensures
        highlights(screen_ops(Screen::Countdown { platform, seconds })) == marked(Screen::Countdown { platform, seconds }),
{
    let s = Screen::Countdown { platform, seconds };

            frame_parts_plain(""@, ""@, 0, 0, false);
            let p0 = header_ops();
            let m = seq![
                text_op(countdown_platform_label(platform), 177, 163, 30, Color::Blue),
                text_op(countdown_platform_label(platform), 175, 161, 30, Color::Gray),
                text_op("PUSH `ESC` TO CONFIGURE SYSTEM"@, 30, 225, 30, Color::White),
                text_op("ESC"@, 135, 225, 30, Color::Red),
            ];
            let f = footer_ops();
            let l = seq![text_op(countdown_message(seconds), 170, 320, 20, Color::Red)];
            highlights_of_four(m[0], m[1], m[2], m[3]);
            highlights_of_one(l[0]);
            highlights_add(p0, m);
            highlights_add(p0 + m, f);
            highlights_add(p0 + m + f, l);
            assert(highlights(screen_ops(s)) =~= marked(s));
        
}

proof fn running_marked()
    ensures
        highlights(screen_ops(Screen::EmulatorRunning)) == marked(Screen::EmulatorRunning),
{
    let s = Screen::EmulatorRunning;

            frame_parts_plain(""@, ""@, 0, 0, false);
            let p0 = header_ops();
            let m = seq![text_op("EMU RUNNING; RESET TO STOP."@, 75, 225, 30, Color::White)];
            let f = footer_ops();
            highlights_of_one(m[0]);
            highlights_add(p0, m);
            highlights_add(p0 + m, f);
            assert(highlights(screen_ops(s)) =~= marked(s));
        
}

proof fn configure_marked(sel: ConfigSelection, platform: PlatformSelection, autostart_enabled: bool, spinner: u8)
    ensures
        highlights(screen_ops(Screen::Configure { selection: sel, platform, autostart_enabled, spinner })) == marked(Screen::Configure { selection: sel, platform, autostart_enabled, spinner }),
{
    let s = Screen::Configure { selection: sel, platform, autostart_enabled, spinner };

            frame_parts_plain("CONFIGURATION"@, config_platform_label(platform), 125, 161, sel == ConfigSelection::SelectPlatform);
            frame_parts_plain("CONFIGURATION"@, autostart_label(autostart_enabled), 125, 241, sel == ConfigSelection::ChangeAutostart);
            let p0 = header_ops();
            let t = title_ops("CONFIGURATION"@);
            let e1 = entry_ops("SELECT PLATFORM"@, 95, 121, sel == ConfigSelection::SelectPlatform, Color::White);
            let d1 = detail_ops(config_platform_label(platform), 125, 161, sel == ConfigSelection::SelectPlatform);
            let e2 = entry_ops("ENABLE/DISABLE AUTOSTART"@, 95, 201, sel == ConfigSelection::ChangeAutostart, Color::White);
            let d2 = detail_ops(autostart_label(autostart_enabled), 125, 241, sel == ConfigSelection::ChangeAutostart);
            let e3 = entry_ops("UPDATE EVERYTHING"@, 95, 281, sel == ConfigSelection::UpdateEverything, Color::White);
            let e4 = entry_ops("ABOUT RETRO VENEER"@, 95, 321, sel == ConfigSelection::AboutRetroVeneer, Color::White);
            let e5 = entry_ops("LAUNCH EMULATOR"@, 95, 360, sel == ConfigSelection::LaunchEmulator, Color::Green);
            let e6 = entry_ops("EXIT RETRO VENEER"@, 95, 400, sel == ConfigSelection::ExitRetroVeneer, Color::Red);
            let f = footer_ops();
            let sp = spinner_ops(spinner, 51, config_entry_y(sel));
            entry_highlight("SELECT PLATFORM"@, 95, 121, sel == ConfigSelection::SelectPlatform, Color::White);
            entry_highlight("ENABLE/DISABLE AUTOSTART"@, 95, 201, sel == ConfigSelection::ChangeAutostart, Color::White);
            entry_highlight("UPDATE EVERYTHING"@, 95, 281, sel == ConfigSelection::UpdateEverything, Color::White);
            entry_highlight("ABOUT RETRO VENEER"@, 95, 321, sel == ConfigSelection::AboutRetroVeneer, Color::White);
            entry_highlight("LAUNCH EMULATOR"@, 95, 360, sel == ConfigSelection::LaunchEmulator, Color::Green);
            entry_highlight("EXIT RETRO VENEER"@, 95, 400, sel == ConfigSelection::ExitRetroVeneer, Color::Red);
            spinner_highlight(spinner, 51, config_entry_y(sel));
            let a1 = p0 + t;
            let a2 = a1 + e1;
            let a3 = a2 + d1;
            let a4 = a3 + e2;
            let a5 = a4 + d2;
            let a6 = a5 + e3;
            let a7 = a6 + e4;
            let a8 = a7 + e5;
            let a9 = a8 + e6;
            let a10 = a9 + f;
            highlights_add(p0, t);
            highlights_add(a1, e1);
            highlights_add(a2, d1);
            highlights_add(a3, e2);
            highlights_add(a4, d2);
            highlights_add(a5, e3);
            highlights_add(a6, e4);
            highlights_add(a7, e5);
            highlights_add(a8, e6);
            highlights_add(a9, f);
            highlights_add(a10, sp);
            assert(highlights(screen_ops(s)) =~= marked(s));
        
}

proof fn select_marked(sel: PlatformSelection, spinner: u8)
    ensures
        highlights(screen_ops(Screen::SelectPlatform { selection: sel, spinner })) == marked(Screen::SelectPlatform { selection: sel, spinner }),
{
    let s = Screen::SelectPlatform { selection: sel, spinner };

            frame_parts_plain("SELECT PLATFORM"@, ""@, 0, 0, false);
            let p0 = header_ops();
            let t = title_ops("SELECT PLATFORM"@);
            let e1 = entry_ops("COMMANDER X16"@, 95, 186, sel == PlatformSelection::CommanderX16, Color::White);
            let e2 = entry_ops("TIC-80"@, 95, 266, sel == PlatformSelection::Tic80, Color::White);
            let f = footer_ops();
            let sp = spinner_ops(spinner, 51, platform_entry_y(sel));
            entry_highlight("COMMANDER X16"@, 95, 186, sel == PlatformSelection::CommanderX16, Color::White);
            entry_highlight("TIC-80"@, 95, 266, sel == PlatformSelection::Tic80, Color::White);
            spinner_highlight(spinner, 51, platform_entry_y(sel));
            highlights_add(p0, t);
            highlights_add(p0 + t, e1);
            highlights_add(p0 + t + e1, e2);
            highlights_add(p0 + t + e1 + e2, f);
            highlights_add(p0 + t + e1 + e2 + f, sp);
            assert(highlights(screen_ops(s)) =~= marked(s));
        
}

proof fn update_marked(sel: UpdateSelection, networking_error: bool, install_freeze: bool, updates_available: bool, spinner: u8)
    ensures
        highlights(screen_ops(Screen::UpdateEverything { selection: sel, networking_error, install_freeze, updates_available, spinner })) == marked(Screen::UpdateEverything { selection: sel, networking_error, install_freeze, updates_available, spinner }),
{
    let s = Screen::UpdateEverything { selection: sel, networking_error, install_freeze, updates_available, spinner };

            frame_parts_plain("UPDATE EVERYTHING"@, ""@, 0, 0, false);
            status_plain(networking_error, install_freeze, updates_available);
            let p0 = header_ops();
            let t = title_ops("UPDATE EVERYTHING"@);
            let st = update_status_ops(networking_error, install_freeze, updates_available);
            let i = if updates_available {
                entry_ops("INSTALL UPDATES"@, 95, 286, sel == UpdateSelection::InstallUpdates, Color::White)
            } else {
                Seq::<DrawOp>::empty()
            };
            let b = entry_ops("BACK"@, 95, 366, sel == UpdateSelection::Back, Color::Gray);
            let f = footer_ops();
            let sp = spinner_ops(spinner, 51, update_entry_y(sel, updates_available));
            entry_highlight("INSTALL UPDATES"@, 95, 286, sel == UpdateSelection::InstallUpdates, Color::White);
            entry_highlight("BACK"@, 95, 366, sel == UpdateSelection::Back, Color::Gray);
            spinner_highlight(spinner, 51, update_entry_y(sel, updates_available));
            highlights_add(p0, t);
            highlights_add(p0 + t, st);
            highlights_add(p0 + t + st, i);
            highlights_add(p0 + t + st + i, b);
            highlights_add(p0 + t + st + i + b, f);
            highlights_add(p0 + t + st + i + b + f, sp);
            assert(highlights(screen_ops(s)) =~= marked(s));
        
}

/// On every screen with a menu exactly the selected entry is drawn
/// highlighted, and the busy indicator is the only other highlighted text,
/// on the entry's row (five pixels lower for the last two configuration
/// entries); with "INSTALL UPDATES" selected but not offered, or no
/// platform selected, only the busy indicator stands out, at the top.
pub proof fn selected_entry_is_marked(s: Screen)
    ensures
        highlights(screen_ops(s)) == marked(s),
{
    match s {
        Screen::About { selection, spinner } => about_menu_marked(selection, spinner),
        Screen::AboutPage { page, spinner } => about_page_marked(page, spinner),
        Screen::Countdown { platform, seconds } => countdown_marked(platform, seconds),
        Screen::EmulatorRunning => running_marked(),
        Screen::Configure { selection, platform, autostart_enabled, spinner } => configure_marked(selection, platform, autostart_enabled, spinner),
        Screen::SelectPlatform { selection, spinner } => select_marked(selection, spinner),
        Screen::UpdateEverything { selection, networking_error, install_freeze, updates_available, spinner } => update_marked(selection, networking_error, install_freeze, updates_available, spinner),
    }
}

/// The name a platform goes by on screen.
pub open spec fn platform_display_name(p: PlatformSelection) -> Seq<char> {
    if p == PlatformSelection::CommanderX16 {
        "COMMANDER X16"@
    } else {
        "TIC-80"@
    }
}

/// The configuration menu names, under "SELECT PLATFORM", the platform it
/// is given, in gray at (125, 161), as "* " and the platform's name; the
/// countdown names it in brackets; and the two platforms never get the same label.
pub proof fn screens_name_the_platform(
    sel: ConfigSelection,
    p: PlatformSelection,
    autostart: bool,
    spinner: u8,
    seconds: u8,
)
    requires
        p != PlatformSelection::Invalid,
    ensures
        configure_ops(sel, p, autostart, spinner)[if sel == ConfigSelection::SelectPlatform {
            8int
        } else {
            6int
        }] == text_op("* "@ + platform_display_name(p), 125, 161, 30, Color::Gray),
        countdown_ops(p, seconds)[5] == text_op(
            "["@ + platform_display_name(p) + "]"@,
            175,
            161,
            30,
            Color::Gray,
        ),
        config_platform_label(PlatformSelection::CommanderX16) != config_platform_label(
            PlatformSelection::Tic80,
        ),
        countdown_platform_label(PlatformSelection::CommanderX16) != countdown_platform_label(
            PlatformSelection::Tic80,
        ),
{
    reveal_strlit("* ");
    reveal_strlit("[");
    reveal_strlit("]");
    reveal_strlit("COMMANDER X16");
    reveal_strlit("TIC-80");
    reveal_strlit("* COMMANDER X16");
    reveal_strlit("* TIC-80");
    reveal_strlit("[COMMANDER X16]");
    reveal_strlit("[TIC-80]");
    assert("* "@ + "COMMANDER X16"@ =~= "* COMMANDER X16"@);
    assert("* "@ + "TIC-80"@ =~= "* TIC-80"@);
    assert("["@ + "COMMANDER X16"@ + "]"@ =~= "[COMMANDER X16]"@);
    assert("["@ + "TIC-80"@ + "]"@ =~= "[TIC-80]"@);
    assert("* COMMANDER X16"@.len() != "* TIC-80"@.len());
    assert("[COMMANDER X16]"@.len() != "[TIC-80]"@.len());
    let ops = configure_ops(sel, p, autostart, spinner);
    let h = header_ops() + title_ops("CONFIGURATION"@);
    let e1 = entry_ops("SELECT PLATFORM"@, 95, 121, sel == ConfigSelection::SelectPlatform, Color::White);
    let d1 = detail_ops(config_platform_label(p), 125, 161, sel == ConfigSelection::SelectPlatform);
    assert(h.len() == 5);
    let i: int = if sel == ConfigSelection::SelectPlatform { 8 } else { 6 };
    assert((h + e1 + d1)[i] == text_op(config_platform_label(p), 125, 161, 30, Color::Gray));
    assert(ops[i] == (h + e1 + d1)[i]);
}

/// The configuration menu shows, in gray at (125, 241) under
/// "ENABLE/DISABLE AUTOSTART", "* ENABLED" exactly when autostart is on.
pub proof fn configure_shows_autostart(
    sel: ConfigSelection,
    p: PlatformSelection,
    autostart: bool,
    spinner: u8,
)
    ensures
        configure_ops(sel, p, autostart, spinner)[if sel == ConfigSelection::SelectPlatform
            || sel == ConfigSelection::ChangeAutostart {
            10int
        } else {
            8int
        }] == text_op(
            if autostart {
                "* ENABLED"@
            } else {
                "* DISABLED"@
            },
            125,
            241,
            30,
            Color::Gray,
        ),
{
    let ops = configure_ops(sel, p, autostart, spinner);
    let h = header_ops() + title_ops("CONFIGURATION"@);
    let e1 = entry_ops("SELECT PLATFORM"@, 95, 121, sel == ConfigSelection::SelectPlatform, Color::White);
    let d1 = detail_ops(config_platform_label(p), 125, 161, sel == ConfigSelection::SelectPlatform);
    let e2 = entry_ops("ENABLE/DISABLE AUTOSTART"@, 95, 201, sel == ConfigSelection::ChangeAutostart, Color::White);
    let d2 = detail_ops(autostart_label(autostart), 125, 241, sel == ConfigSelection::ChangeAutostart);
    let i: int = if sel == ConfigSelection::SelectPlatform || sel == ConfigSelection::ChangeAutostart {
        10
    } else {
        8
    };
    assert((h + e1 + d1 + e2 + d2)[i] == text_op(autostart_label(autostart), 125, 241, 30, Color::Gray));
    assert(ops[i] == (h + e1 + d1 + e2 + d2)[i]);
}

/// The number that a text of decimal digits stands for.
pub open spec fn digits_value(s: Seq<char>) -> int
    decreases s.len(),
{
    if s.len() == 0 {
        0
    } else {
        digits_value(s.drop_last()) * 10 + (s.last() as int - '0' as int)
    }
}

/// Every character is a decimal digit.
pub open spec fn all_digits(s: Seq<char>) -> bool {
    forall|i: int| 0 <= i < s.len() ==> '0' <= #[trigger] s[i] <= '9'
}

proof fn digit_text_is_the_digit(d: nat)
    requires
        d < 10,
    ensures
        digit_text(d).len() == 1,
        digit_text(d)[0] as int == '0' as int + d,
{
    reveal_strlit("0");
    reveal_strlit("1");
    reveal_strlit("2");
    reveal_strlit("3");
    reveal_strlit("4");
    reveal_strlit("5");
    reveal_strlit("6");
    reveal_strlit("7");
    reveal_strlit("8");
    reveal_strlit("9");
}

/// The decimal text of a number is made of digits, starts with a nonzero
/// digit unless the number is zero, and stands for that number.
pub proof fn decimal_text_reads_back(n: nat)
    ensures
        all_digits(decimal_text(n)),
        decimal_text(n).len() >= 1,
        n > 0 ==> decimal_text(n)[0] != '0',
        digits_value(decimal_text(n)) == n,
    decreases n,
{
    digit_text_is_the_digit(n % 10);
    if n < 10 {
        let t = decimal_text(n);
        assert(t.drop_last() =~= Seq::<char>::empty());
        assert(t.last() == t[0]);
        assert(digits_value(t.drop_last()) == 0);
        assert(digits_value(t) == digits_value(t.drop_last()) * 10 + (t.last() as int - '0' as int));
    } else {
        decimal_text_reads_back(n / 10);
        let a = decimal_text(n / 10);
        let t = decimal_text(n);
        assert(t == a + digit_text(n % 10));
        assert(t.drop_last() =~= a);
        assert(t.last() == digit_text(n % 10)[0]);
        assert(t[0] == a[0]);
        assert(digits_value(t) == digits_value(a) * 10 + (t.last() as int - '0' as int));
        assert(n == (n / 10) * 10 + n % 10) by (nonlinear_arith);
        assert forall|i: int| 0 <= i < t.len() implies '0' <= #[trigger] t[i] <= '9' by {
            if i < a.len() {
                assert(t[i] == a[i]);
            }
        }
    }
}

} // verus!


