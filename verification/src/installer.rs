use vstd::prelude::*;
use vstd::string::*;

use crate::config::{desktop_entry, desktop_entry_text};
use crate::scene::{text_op, Color, DrawOp, Scene};
use crate::spinner::{spinner_glyph, spinner_text};

verus! {

/// The pieces the installer puts in place, in the order it installs them.
#[derive(Clone, Copy, Debug, PartialEq, Eq, Structural)]
pub enum Component {
    /// The Commander X16 emulator.
    X16Emulator,
    /// The TIC-80 fantasy console.
    Tic80Emulator,
    /// The RetroVeneer front end.
    RetroVeneerUi,
}

/// The steps of an installation.
#[derive(Clone, Copy, Debug, PartialEq, Eq, Structural)]
pub enum InstallStep {
    /// Download and unpack a component.
    Fetch(Component),
    /// Write the desktop entry that starts the front end at log-in.
    SetupAutostart,
    /// Say that all is done, wait two seconds and end.
    Finish,
}

/// What the surrounding program is to do for a step.
#[derive(Clone, Debug, PartialEq, Eq)]
pub enum InstallWork {
    /// Show `announcement`, then run the shell commands in order.
    Run { announcement: String, commands: Vec<String> },
    /// Show `announcement`, report that the machine's architecture is not
    /// supported, and stop installing.
    Unsupported { announcement: String },
    /// Write `entry` as the autostart desktop entry and copy it among the
    /// desktop's applications.
    WriteAutostart { entry: String },
    /// Show `announcement`, wait two seconds and end.
    Finish { announcement: String },
}

/// The processor architectures the installer has downloads for.
pub open spec fn arch_supported(arch: Seq<char>) -> bool {
    arch == "x86_64"@ || arch == "aarch64"@
}

/// The message shown while a component is installed.
pub open spec fn component_announcement(c: Component) -> Seq<char> {
    match c {
        Component::X16Emulator => "Installing Emulator -- X16..."@,
        Component::Tic80Emulator => "Installing Emulator -- TIC-80..."@,
        Component::RetroVeneerUi => "Installing RetroVeneer UI..."@,
    }
}

/// Where a component's downloads are published.
pub open spec fn component_source(c: Component) -> Seq<char> {
    match c {
        Component::X16Emulator => "https://github.com/X16Community/x16-emulator/releases/download/r48/"@,
        Component::Tic80Emulator => "https://github.com/nesbox/TIC-80/releases/download/v1.1.2837/"@,
        Component::RetroVeneerUi => "https://raw.githubusercontent.com/ModernRetroDev/retro-veneer/refs/heads/master/hosted/"@,
    }
}

/// The file downloaded for a component on an architecture (a supported one).
pub open spec fn component_archive(c: Component, arch: Seq<char>) -> Seq<char> {
    if arch == "x86_64"@ {
        match c {
            Component::X16Emulator => "x16emu_linux-x86_64-r48.zip"@,
            Component::Tic80Emulator => "tic80-v1.1-linux.deb"@,
            Component::RetroVeneerUi => "retroveneer-ui-x86_64.AppImage"@,
        }
    } else {
        match c {
            Component::X16Emulator => "x16emu_linux-aarch64-r48.zip"@,
            Component::Tic80Emulator => "tic80-v1.1-rpi.deb"@,
            Component::RetroVeneerUi => "retroveneer-ui-aarch64.AppImage"@,
        }
    }
}

/// The shell commands that install a component from the downloaded file
/// `file`: download it, make its directories, unpack it, and keep the
/// emulator archives; the front end is made executable and moved in place.
pub open spec fn component_commands(c: Component, file: Seq<char>) -> Seq<Seq<char>> {
    let fetch = "wget "@ + component_source(c) + file;
    match c {
        Component::X16Emulator => seq![
            fetch,
            "mkdir -p $HOME/retroveneer/emulators/x16emu"@,
            "mkdir -p $HOME/retroveneer/data/x16emu"@,
            "unzip "@ + file + " -d $HOME/retroveneer/emulators/x16emu"@,
            "mkdir -p $HOME/retroveneer/emulators/archives"@,
            "mv "@ + file + " $HOME/retroveneer/emulators/archives"@,
        ],
        Component::Tic80Emulator => seq![
            fetch,
            "mkdir -p $HOME/retroveneer/emulators/tic80"@,
            "mkdir -p $HOME/retroveneer/data/tic80"@,
            "dpkg-deb -xv "@ + file + " $HOME/retroveneer/emulators/tic80"@,
            "mkdir -p $HOME/retroveneer/emulators/archives"@,
            "mv "@ + file + " $HOME/retroveneer/emulators/archives"@,
        ],
        Component::RetroVeneerUi => seq![
            fetch,
            "chmod +x "@ + file,
            "mkdir -p $HOME/retroveneer"@,
            "mv "@ + file + " $HOME/retroveneer/retroveneer.appimage"@,
        ],
    }
}

/// The message shown when the installation is complete.
pub open spec fn done_announcement() -> Seq<char> {
    "All Done!!!"@
}

/// The directory where the front end of the user whose home directory is
/// `home` is installed, which the autostart entry points at.
pub open spec fn installed_ui_dir(home: Seq<char>) -> Seq<char> {
    home + "/retroveneer"@
}

/// The step after a step that went through; there is none after `Finish`.
pub open spec fn step_after(step: InstallStep) -> Option<InstallStep> {
    match step {
        InstallStep::Fetch(Component::X16Emulator) => Some(
            InstallStep::Fetch(Component::Tic80Emulator),
        ),
        InstallStep::Fetch(Component::Tic80Emulator) => Some(
            InstallStep::Fetch(Component::RetroVeneerUi),
        ),
        InstallStep::Fetch(Component::RetroVeneerUi) => Some(InstallStep::SetupAutostart),
        InstallStep::SetupAutostart => Some(InstallStep::Finish),
        InstallStep::Finish => None,
    }
}

pub open spec fn string_views(v: Seq<String>) -> Seq<Seq<char>> {
    v.map_values(|s: String| s@)
}

impl Component {
    /// The message shown while this component is installed.
    pub fn announcement(self) -> (r: &'static str)
        ensures
            r@ == component_announcement(self),
    {
        match self {
            Component::X16Emulator => "Installing Emulator -- X16...",
            Component::Tic80Emulator => "Installing Emulator -- TIC-80...",
            Component::RetroVeneerUi => "Installing RetroVeneer UI...",
        }
    }

    /// The file to download for this component on the architecture `arch`,
    /// or `None` when there is none for it.
    pub fn archive(self, arch: &str) -> (r: Option<&'static str>)
        ensures
            r is Some <==> arch_supported(arch@),
            r matches Some(f) ==> f@ == component_archive(self, arch@),
    {
        let a = String::from_str(arch);
        if a == String::from_str("x86_64") {
            Some(
                match self {
                    Component::X16Emulator => "x16emu_linux-x86_64-r48.zip",
                    Component::Tic80Emulator => "tic80-v1.1-linux.deb",
                    Component::RetroVeneerUi => "retroveneer-ui-x86_64.AppImage",
                },
            )
        } else if a == String::from_str("aarch64") {
            Some(
                match self {
                    Component::X16Emulator => "x16emu_linux-aarch64-r48.zip",
                    Component::Tic80Emulator => "tic80-v1.1-rpi.deb",
                    Component::RetroVeneerUi => "retroveneer-ui-aarch64.AppImage",
                },
            )
        } else {
            None
        }
    }

    /// The shell commands that install this component from the file `file`.
    pub fn commands(self, file: &str) -> (r: Vec<String>)
        ensures
            string_views(r@) == component_commands(self, file@),
    {
        let mut fetch = String::from_str("wget ");
        match self {
            Component::X16Emulator => fetch.append(
                "https://github.com/X16Community/x16-emulator/releases/download/r48/",
            ),
            Component::Tic80Emulator => fetch.append(
                "https://github.com/nesbox/TIC-80/releases/download/v1.1.2837/",
            ),
            Component::RetroVeneerUi => fetch.append(
                "https://raw.githubusercontent.com/ModernRetroDev/retro-veneer/refs/heads/master/hosted/",
            ),
        }
        fetch.append(file);
        let mut v: Vec<String> = Vec::new();
        v.push(fetch);
        match self {
            Component::X16Emulator => {
                v.push(String::from_str("mkdir -p $HOME/retroveneer/emulators/x16emu"));
                v.push(String::from_str("mkdir -p $HOME/retroveneer/data/x16emu"));
                let mut unpack = String::from_str("unzip ");
                unpack.append(file);
                unpack.append(" -d $HOME/retroveneer/emulators/x16emu");
                v.push(unpack);
                v.push(String::from_str("mkdir -p $HOME/retroveneer/emulators/archives"));
                let mut keep = String::from_str("mv ");
                keep.append(file);
                keep.append(" $HOME/retroveneer/emulators/archives");
                v.push(keep);
            },
            Component::Tic80Emulator => {
                v.push(String::from_str("mkdir -p $HOME/retroveneer/emulators/tic80"));
                v.push(String::from_str("mkdir -p $HOME/retroveneer/data/tic80"));
                let mut unpack = String::from_str("dpkg-deb -xv ");
                unpack.append(file);
                unpack.append(" $HOME/retroveneer/emulators/tic80");
                v.push(unpack);
                v.push(String::from_str("mkdir -p $HOME/retroveneer/emulators/archives"));
                let mut keep = String::from_str("mv ");
                keep.append(file);
                keep.append(" $HOME/retroveneer/emulators/archives");
                v.push(keep);
            },
            Component::RetroVeneerUi => {
                let mut exec = String::from_str("chmod +x ");
                exec.append(file);
                v.push(exec);
                v.push(String::from_str("mkdir -p $HOME/retroveneer"));
                let mut place = String::from_str("mv ");
                place.append(file);
                place.append(" $HOME/retroveneer/retroveneer.appimage");
                v.push(place);
            },
        }
        assert(string_views(v@) =~= component_commands(self, file@));
        v
    }
}

/// What the surrounding program is to do for `step` on the architecture
/// `arch`, installing for the user whose home directory is `home`.
pub open spec fn work_for(r: InstallWork, step: InstallStep, arch: Seq<char>, home: Seq<char>) -> bool {
    match step {
        InstallStep::Fetch(c) => if arch_supported(arch) {
            r matches InstallWork::Run { announcement, commands } && announcement@
                == component_announcement(c) && string_views(commands@) == component_commands(
                c,
                component_archive(c, arch),
            )
        } else {
            r matches InstallWork::Unsupported { announcement } && announcement@
                == component_announcement(c)
        },
        InstallStep::SetupAutostart => r matches InstallWork::WriteAutostart { entry } && entry@
            == desktop_entry_text(installed_ui_dir(home)),
        InstallStep::Finish => r matches InstallWork::Finish { announcement } && announcement@
            == done_announcement(),
    }
}

/// The first step of an installation.
pub fn first_install_step() -> (r: InstallStep)
    ensures
        r == InstallStep::Fetch(Component::X16Emulator),
{
    InstallStep::Fetch(Component::X16Emulator)
}

/// The step after `step`, once `step` went through.
pub fn next_install_step(step: InstallStep) -> (r: Option<InstallStep>)
    ensures
        r == step_after(step),
{
    match step {
        InstallStep::Fetch(Component::X16Emulator) => Some(
            InstallStep::Fetch(Component::Tic80Emulator),
        ),
        InstallStep::Fetch(Component::Tic80Emulator) => Some(
            InstallStep::Fetch(Component::RetroVeneerUi),
        ),
        InstallStep::Fetch(Component::RetroVeneerUi) => Some(InstallStep::SetupAutostart),
        InstallStep::SetupAutostart => Some(InstallStep::Finish),
        InstallStep::Finish => None,
    }
}

/// The work of an installation step on the architecture `arch`, for the
/// user whose home directory is `home`.
pub fn install_work(step: InstallStep, arch: &str, home: &str) -> (r: InstallWork)
    ensures
        work_for(r, step, arch@, home@),
{
    match step {
        InstallStep::Fetch(c) => {
            let announcement = String::from_str(c.announcement());
            match c.archive(arch) {
                Some(file) => InstallWork::Run { announcement, commands: c.commands(file) },
                None => InstallWork::Unsupported { announcement },
            }
        },
        InstallStep::SetupAutostart => {
            let mut ui_dir = String::from_str(home);
            ui_dir.append("/retroveneer");
            InstallWork::WriteAutostart { entry: desktop_entry(ui_dir.as_str()) }
        },
        InstallStep::Finish => InstallWork::Finish { announcement: String::from_str("All Done!!!") },
    }
}

/// The step that follows `step` once its work `work` is done: none after an
/// unsupported architecture, which ends the installation, nor after the
/// final step; otherwise the next step in order.
pub open spec fn step_after_work(step: InstallStep, work: InstallWork) -> Option<InstallStep> {
    match work {
        InstallWork::Unsupported { .. } => None,
        InstallWork::Finish { .. } => None,
        _ => step_after(step),
    }
}

/// The step to go on with after `step`, whose work was `work`.
pub fn next_step_after(step: InstallStep, work: &InstallWork) -> (r: Option<InstallStep>)
    ensures
        r == step_after_work(step, *work),
{
    match work {
        InstallWork::Unsupported { .. } => None,
        InstallWork::Finish { .. } => None,
        _ => next_install_step(step),
    }
}

/// The shell command that copies the desktop entry at `path` among the
/// desktop's applications, so that launchers list it.
pub fn publish_entry_command(path: &str) -> (r: String)
    ensures
        r@ == "cp "@ + path@ + " $HOME/.local/share/applications"@,
{
    let mut s = String::from_str("cp ");
    s.append(path);
    s.append(" $HOME/.local/share/applications");
    s
}

/// The steps of a complete installation, in order.
pub open spec fn install_order() -> Seq<InstallStep> {
    seq![
        InstallStep::Fetch(Component::X16Emulator),
        InstallStep::Fetch(Component::Tic80Emulator),
        InstallStep::Fetch(Component::RetroVeneerUi),
        InstallStep::SetupAutostart,
        InstallStep::Finish,
    ]
}

/// An installation goes through the two emulators, the front end, the
/// autostart entry and the final message, in that order and then stops; on
/// a supported architecture every download step runs its commands, and on
/// any other the very first step stops the installation before anything is
/// downloaded; the autostart entry starts the front end installed in the
/// installing user's home directory.
pub proof fn installation_order(arch: Seq<char>, home: Seq<char>, r: InstallWork)
    ensures
        install_order()[0] == InstallStep::Fetch(Component::X16Emulator),
        forall|i: int| 0 <= i < 4 ==> step_after(#[trigger] install_order()[i]) == Some(install_order()[i + 1]),
        step_after(install_order()[4]) == Option::<InstallStep>::None,
        arch_supported(arch) ==> forall|c: Component| !(work_for(r, InstallStep::Fetch(c), arch, home)
            && r is Unsupported),
        !arch_supported(arch) && work_for(r, InstallStep::Fetch(Component::X16Emulator), arch, home)
            ==> r is Unsupported && step_after_work(InstallStep::Fetch(Component::X16Emulator), r) is None,
        forall|step: InstallStep| work_for(r, step, arch, home) && !(r is Unsupported) && step != InstallStep::Finish
            ==> #[trigger] step_after_work(step, r) == step_after(step),
        work_for(r, InstallStep::SetupAutostart, arch, home) ==> (r matches InstallWork::WriteAutostart { entry }
            && entry@ == desktop_entry_text(home + "/retroveneer"@)),
{
    assert forall|i: int| 0 <= i < 4 implies step_after(#[trigger] install_order()[i]) == Some(
        install_order()[i + 1],
    ) by {
        if i == 0 {
        } else if i == 1 {
        } else if i == 2 {
        } else {
        }
    }
}

/// The installer's window: what it is doing and its busy indicator.
pub struct Splash {
    /// The message shown.
    pub step: String,
    /// The busy-indicator phase shown.
    pub spinner: u8,
}

/// What the installer's window draws.
pub open spec fn splash_ops(step: Seq<char>, spinner: u8) -> Seq<DrawOp> {
    seq![
        DrawOp::Clear(Color::Black),
        text_op("Installing RETRO VENEER"@, 125, 24, 30, Color::Gray),
        text_op(step, 30, 225, 30, Color::White),
        text_op(spinner_text(spinner), 585, 425, 30, Color::Gray),
    ]
}

impl Splash {
    /// The window before any step has been announced.
    pub fn new() -> (r: Splash)
        ensures
            r.step@ == Seq::<char>::empty(),
            r.spinner == 0,
    {
        Splash { step: String::new(), spinner: 0 }
    }

    /// One frame of the installer's window: a message announced since the
    /// last frame (`step_next`, emptied here) replaces the shown one, the
    /// busy indicator takes the phase the timer reached, and the window is drawn.
    pub fn frame(&mut self, step_next: &mut String, spinner_next: u8) -> (r: Scene)
        ensures
            old(step_next)@.len() > 0 ==> final(self).step@ == old(step_next)@ && final(step_next)@
                == Seq::<char>::empty(),
            old(step_next)@.len() == 0 ==> final(self).step@ == old(self).step@ && final(step_next)@
                == old(step_next)@,
            final(self).spinner == spinner_next,
            r@ == splash_ops(final(self).step@, spinner_next),
    {
        if !step_next.as_str().is_empty() {
            self.step = step_next.clone();
            *step_next = String::new();
        }
        self.spinner = spinner_next;
        let mut s = Scene::new();
        s.clear(Color::Black);
        s.text("Installing RETRO VENEER", 125, 24, 30, Color::Gray);
        s.text(self.step.as_str(), 30, 225, 30, Color::White);
        s.text(spinner_glyph(spinner_next), 585, 425, 30, Color::Gray);
        assert(s@ =~= splash_ops(self.step@, spinner_next));
        s
    }
}

/// The archive downloaded for a component is the build for the machine's
/// architecture: the emulator and the front end carry the architecture's
/// name, TIC-80 comes as its Raspberry Pi (`rpi`) build on `aarch64` and its
/// generic `linux` build on `x86_64`; so the two architectures never get
/// the same file.
pub proof fn archives_match_architecture(c: Component)
    ensures
        component_archive(Component::X16Emulator, "x86_64"@) == "x16emu_linux-"@ + "x86_64"@ + "-r48.zip"@,
        component_archive(Component::X16Emulator, "aarch64"@) == "x16emu_linux-"@ + "aarch64"@ + "-r48.zip"@,
        component_archive(Component::RetroVeneerUi, "x86_64"@) == "retroveneer-ui-"@ + "x86_64"@ + ".AppImage"@,
        component_archive(Component::RetroVeneerUi, "aarch64"@) == "retroveneer-ui-"@ + "aarch64"@ + ".AppImage"@,
        component_archive(Component::Tic80Emulator, "x86_64"@) == "tic80-v1.1-"@ + "linux"@ + ".deb"@,
        component_archive(Component::Tic80Emulator, "aarch64"@) == "tic80-v1.1-"@ + "rpi"@ + ".deb"@,
        component_archive(c, "x86_64"@) != component_archive(c, "aarch64"@),
{
    reveal_strlit("x86_64");
    reveal_strlit("aarch64");
    reveal_strlit("linux");
    reveal_strlit("rpi");
    reveal_strlit("x16emu_linux-");
    reveal_strlit("-r48.zip");
    reveal_strlit("retroveneer-ui-");
    reveal_strlit(".AppImage");
    reveal_strlit("tic80-v1.1-");
    reveal_strlit(".deb");
    reveal_strlit("x16emu_linux-x86_64-r48.zip");
    reveal_strlit("x16emu_linux-aarch64-r48.zip");
    reveal_strlit("tic80-v1.1-linux.deb");
    reveal_strlit("tic80-v1.1-rpi.deb");
    reveal_strlit("retroveneer-ui-x86_64.AppImage");
    reveal_strlit("retroveneer-ui-aarch64.AppImage");
    assert("x86_64"@ != "aarch64"@) by {
        assert("x86_64"@.len() != "aarch64"@.len());
    }
    assert("x16emu_linux-"@ + "x86_64"@ + "-r48.zip"@ =~= "x16emu_linux-x86_64-r48.zip"@);
    assert("x16emu_linux-"@ + "aarch64"@ + "-r48.zip"@ =~= "x16emu_linux-aarch64-r48.zip"@);
    assert("retroveneer-ui-"@ + "x86_64"@ + ".AppImage"@ =~= "retroveneer-ui-x86_64.AppImage"@);
    assert("retroveneer-ui-"@ + "aarch64"@ + ".AppImage"@ =~= "retroveneer-ui-aarch64.AppImage"@);
    assert("tic80-v1.1-"@ + "linux"@ + ".deb"@ =~= "tic80-v1.1-linux.deb"@);
    assert("tic80-v1.1-"@ + "rpi"@ + ".deb"@ =~= "tic80-v1.1-rpi.deb"@);
    assert("x16emu_linux-x86_64-r48.zip"@.len() != "x16emu_linux-aarch64-r48.zip"@.len());
    assert("tic80-v1.1-linux.deb"@.len() != "tic80-v1.1-rpi.deb"@.len());
    assert("retroveneer-ui-x86_64.AppImage"@.len() != "retroveneer-ui-aarch64.AppImage"@.len());
}

} // verus!
