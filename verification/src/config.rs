use vstd::prelude::*;
use vstd::string::*;

use crate::menu_nav::PlatformSelection;
use crate::ui::UpdateCheck;

verus! {

/// The version of RetroVeneer this program is.
pub open spec fn version_text() -> Seq<char> {
    "0.1"@
}

/// The version of RetroVeneer this program is.
pub fn version() -> (r: &'static str)
    ensures
        r@ == version_text(),
{
    "0.1"
}

/// The name under which a platform is stored in the configuration file.
pub open spec fn platform_name(p: PlatformSelection) -> Seq<char> {
    match p {
        PlatformSelection::CommanderX16 => "CommanderX16"@,
        PlatformSelection::Tic80 => "TIC-80"@,
        PlatformSelection::Invalid => ""@,
    }
}

/// The contents of the platform configuration file for a platform: its name on one line.
pub open spec fn platform_file_text(p: PlatformSelection) -> Seq<char> {
    platform_name(p) + "\n"@
}

/// The platform a configuration file names: a missing file, or any contents
/// other than exactly one known name on one line, name no platform.
pub open spec fn platform_from_file(contents: Option<Seq<char>>) -> PlatformSelection {
    match contents {
        None => PlatformSelection::Invalid,
        Some(c) => if c == "CommanderX16\n"@ {
            PlatformSelection::CommanderX16
        } else if c == "TIC-80\n"@ {
            PlatformSelection::Tic80
        } else {
            PlatformSelection::Invalid
        },
    }
}

pub open spec fn opt_view(s: Option<&str>) -> Option<Seq<char>> {
    match s {
        Some(t) => Some(t@),
        None => None,
    }
}

/// What to write to the platform configuration file.
pub fn platform_config_text(p: PlatformSelection) -> (r: String)
    ensures
        r@ == platform_file_text(p),
{
    let mut text = match p {
        PlatformSelection::CommanderX16 => String::from_str("CommanderX16"),
        PlatformSelection::Tic80 => String::from_str("TIC-80"),
        PlatformSelection::Invalid => String::new(),
    };
    proof {
        reveal_strlit("");
    }
    text.append("\n");
    text
}

/// The platform named by the configuration file's contents (`None` when
/// there is no such file).
pub fn parse_platform_config(contents: Option<&str>) -> (r: PlatformSelection)
    ensures
        r == platform_from_file(opt_view(contents)),
{
    match contents {
        None => PlatformSelection::Invalid,
        Some(c) => {
            let text = String::from_str(c);
            if text == String::from_str("CommanderX16\n") {
                PlatformSelection::CommanderX16
            } else if text == String::from_str("TIC-80\n") {
                PlatformSelection::Tic80
            } else {
                PlatformSelection::Invalid
            }
        },
    }
}

/// Reading back what was stored for a platform gives that platform.
pub proof fn stored_platform_reads_back(p: PlatformSelection)
    requires
        p != PlatformSelection::Invalid,
    ensures
        platform_from_file(Some(platform_file_text(p))) == p,
{
    reveal_strlit("CommanderX16");
    reveal_strlit("TIC-80");
    reveal_strlit("\n");
    reveal_strlit("CommanderX16\n");
    reveal_strlit("TIC-80\n");
    assert("CommanderX16"@ + "\n"@ =~= "CommanderX16\n"@);
    assert("TIC-80"@ + "\n"@ =~= "TIC-80\n"@);
    assert("CommanderX16\n"@ != "TIC-80\n"@ ) by {
        assert("CommanderX16\n"@.len() != "TIC-80\n"@.len());
    }
}

/// The contents of the freeze file by which the server stops updates.
pub open spec fn freeze_marker() -> Seq<char> {
    "TRUE\n"@
}

/// The answer of an update check, from the version file fetched from the
/// server (`None` when it could not be fetched) and the freeze file
/// (`None` when there is none): no version file is a network error; a
/// freeze file that says `TRUE` freezes updates; otherwise an update is
/// available when the published version differs from this one.
pub open spec fn update_answer(version: Option<Seq<char>>, freeze: Option<Seq<char>>) -> UpdateCheck {
    match version {
        None => UpdateCheck::NetworkError,
        Some(v) => if freeze == Some(freeze_marker()) {
            UpdateCheck::Frozen
        } else if v != version_text() {
            UpdateCheck::Available
        } else {
            UpdateCheck::UpToDate
        },
    }
}

/// Decides the answer of an update check from the files fetched from the server.
pub fn assess_update(version: Option<&str>, freeze: Option<&str>) -> (r: UpdateCheck)
    ensures
        r == update_answer(opt_view(version), opt_view(freeze)),
{
    match version {
        None => UpdateCheck::NetworkError,
        Some(v) => {
            let frozen = match freeze {
                Some(f) => String::from_str(f) == String::from_str("TRUE\n"),
                None => false,
            };
            if frozen {
                UpdateCheck::Frozen
            } else if String::from_str(v) == String::from_str("0.1") {
                UpdateCheck::UpToDate
            } else {
                UpdateCheck::Available
            }
        },
    }
}

/// The desktop entry that starts the RetroVeneer front end found in the
/// directory `rv_dir` when the user logs in.
pub open spec fn desktop_entry_text(rv_dir: Seq<char>) -> Seq<char> {
    "[Desktop Entry]\nType=Application\nVersion=0.1\nName=RetroVeneer\nComment=Manages an instance of RetroVeneer\nExec="@
        + rv_dir + "/retroveneer.appimage\nIcon="@ + rv_dir
        + "/retroveneer.png\nTerminal=false\nCategories=Utility;Emulation;\nStartupNotify=true\n"@
}

/// Builds the desktop entry for the front end installed in `rv_dir`.
pub fn desktop_entry(rv_dir: &str) -> (r: String)
    ensures
        r@ == desktop_entry_text(rv_dir@),
{
    let mut text = String::from_str(
        "[Desktop Entry]\nType=Application\nVersion=0.1\nName=RetroVeneer\nComment=Manages an instance of RetroVeneer\nExec=",
    );
    text.append(rv_dir);
    text.append("/retroveneer.appimage\nIcon=");
    text.append(rv_dir);
    text.append("/retroveneer.png\nTerminal=false\nCategories=Utility;Emulation;\nStartupNotify=true\n");
    text
}

/// The lines of the launcher script, after its header, that restart the
/// platform's emulator for ever, full screen, on the platform's data
/// directory under `home`.
pub open spec fn launcher_loop_text(home: Seq<char>, p: PlatformSelection) -> Seq<char> {
    match p {
        PlatformSelection::CommanderX16 => "cd "@ + home + "/retroveneer/emulators/x16emu\nwhile :; do\n    ./x16emu -fsroot "@
            + home + "/retroveneer/data/x16emu -fullscreen\n"@,
        PlatformSelection::Tic80 => "cd "@ + home + "/retroveneer/emulators/tic80\nwhile :; do\n    ./tic80 --fullscreen --fs="@
            + home + "/retroveneer/data/tic80\n"@,
        PlatformSelection::Invalid => Seq::<char>::empty(),
    }
}

/// The launcher script for a platform, for the user whose home directory is `home`.
pub open spec fn launcher_script_text(home: Seq<char>, p: PlatformSelection) -> Seq<char> {
    "#!/usr/bin/env bash\n\n"@ + launcher_loop_text(home, p) + "done\n"@
}

/// Builds the launcher script that keeps the platform's emulator running.
pub fn launcher_script(home: &str, p: PlatformSelection) -> (r: String)
    ensures
        r@ == launcher_script_text(home@, p),
{
    let mut text = String::from_str("#!/usr/bin/env bash\n\n");
    match p {
        PlatformSelection::CommanderX16 => {
            text.append("cd ");
            text.append(home);
            text.append("/retroveneer/emulators/x16emu\nwhile :; do\n    ./x16emu -fsroot ");
            text.append(home);
            text.append("/retroveneer/data/x16emu -fullscreen\n");
        },
        PlatformSelection::Tic80 => {
            text.append("cd ");
            text.append(home);
            text.append("/retroveneer/emulators/tic80\nwhile :; do\n    ./tic80 --fullscreen --fs=");
            text.append(home);
            text.append("/retroveneer/data/tic80\n");
        },
        PlatformSelection::Invalid => {},
    }
    text.append("done\n");
    proof {
        assert(text@ =~= launcher_script_text(home@, p));
    }
    text
}

/// How the update answer follows from the files: without a version file the
/// server is unreachable, whatever else was fetched; a freeze file that
/// says `TRUE` freezes updates; any other freeze file counts for nothing;
/// and then an update is available exactly when the published version is
/// not `0.1`.
pub proof fn update_answer_laws(version: Seq<char>, freeze: Option<Seq<char>>, other: Seq<char>)
    requires
        other != "TRUE\n"@,
    ensures
        update_answer(None, freeze) == UpdateCheck::NetworkError,
        update_answer(Some(version), Some("TRUE\n"@)) == UpdateCheck::Frozen,
        update_answer(Some(version), Some(other)) == update_answer(Some(version), None),
        update_answer(Some(version), None) == if version == "0.1"@ {
            UpdateCheck::UpToDate
        } else {
            UpdateCheck::Available
        },
        (update_answer(Some(version), freeze) == UpdateCheck::Available) == (freeze != Some(
            "TRUE\n"@,
        ) && version != "0.1"@),
{
}

/// Only the exact file stored for a platform names that platform.
pub proof fn only_stored_text_names_platform(c: Seq<char>)
    ensures
        platform_from_file(Some(c)) != PlatformSelection::Invalid ==> c == platform_file_text(
            platform_from_file(Some(c)),
        ),
{
    reveal_strlit("CommanderX16");
    reveal_strlit("TIC-80");
    reveal_strlit("\n");
    reveal_strlit("CommanderX16\n");
    reveal_strlit("TIC-80\n");
    assert("CommanderX16"@ + "\n"@ =~= "CommanderX16\n"@);
    assert("TIC-80"@ + "\n"@ =~= "TIC-80\n"@);
}

} // verus!
