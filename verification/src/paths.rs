use vstd::prelude::*;
use vstd::string::*;

verus! {

/// Asks the `dirs` crate for the current user's home directory
/// (`dirs::home_dir`) and renders it as text.  Its source takes `$HOME`
/// when set and not empty, else the password database entry when that is
/// not empty, and otherwise gives nothing; so a directory it gives is never
/// the empty text.  Which directory that is depends on the environment and
/// is not stated.
#[verifier::external_body]
fn home_dir_text() -> (r: Option<String>)
    ensures
        r matches Some(h) ==> h@.len() > 0,
{
    match dirs::home_dir() {
        Some(p) => Some(p.display().to_string()),
        None => None,
    }
}

/// The files and directories RetroVeneer uses, all below the user's home directory.
pub struct RvPaths {
    pub home: String,
    /// Directory of the desktop entries started at log-in.
    pub autostart_dir: String,
    /// RetroVeneer's own desktop entry in that directory.
    pub autostart_file: String,
    /// Where the front end and its emulators are installed.
    pub rv_dir: String,
    /// Directory of RetroVeneer's configuration.
    pub config_dir: String,
    /// The file that stores the selected platform.
    pub platform_file: String,
    /// Scratch directory for downloads, markers and scripts.
    pub temp_dir: String,
    /// Marker present while the front end runs.
    pub running_file: String,
    /// The published version, as fetched from the server.
    pub version_file: String,
    /// The install freeze marker, as fetched from the server.
    pub freeze_file: String,
    /// The launcher script of the selected emulator.
    pub launcher_file: String,
    /// The installer script, as fetched from the server.
    pub installer_script: String,
}

/// The paths that belong to the home directory `home`.
pub open spec fn paths_of(p: &RvPaths, home: Seq<char>) -> bool {
    let temp = home + "/retroveneer/.temp"@;
    &&& p.home@ == home
    &&& p.autostart_dir@ == home + "/.config/autostart"@
    &&& p.autostart_file@ == home + "/.config/autostart"@ + "/retroveneer.desktop"@
    &&& p.rv_dir@ == home + "/retroveneer"@
    &&& p.config_dir@ == home + "/.config/retroveneer"@
    &&& p.platform_file@ == home + "/.config/retroveneer"@ + "/platform"@
    &&& p.temp_dir@ == temp
    &&& p.running_file@ == temp + "/rv_is_running"@
    &&& p.version_file@ == temp + "/current_version"@
    &&& p.freeze_file@ == temp + "/install_freeze"@
    &&& p.launcher_file@ == temp + "/launcher.sh"@
    &&& p.installer_script@ == temp + "/rvbs.sh"@
}

fn joined(base: &str, tail: &str) -> (r: String)
    ensures
        r@ == base@ + tail@,
{
    let mut s = String::from_str(base);
    s.append(tail);
    s
}

impl RvPaths {
    /// The paths for the user whose home directory is `home`.
    pub fn for_home(home: &str) -> (r: RvPaths)
        ensures
            paths_of(&r, home@),
    {
        let autostart_dir = joined(home, "/.config/autostart");
        let autostart_file = joined(autostart_dir.as_str(), "/retroveneer.desktop");
        let config_dir = joined(home, "/.config/retroveneer");
        let platform_file = joined(config_dir.as_str(), "/platform");
        let temp_dir = joined(home, "/retroveneer/.temp");
        let running_file = joined(temp_dir.as_str(), "/rv_is_running");
        let version_file = joined(temp_dir.as_str(), "/current_version");
        let freeze_file = joined(temp_dir.as_str(), "/install_freeze");
        let launcher_file = joined(temp_dir.as_str(), "/launcher.sh");
        let installer_script = joined(temp_dir.as_str(), "/rvbs.sh");
        RvPaths {
            home: String::from_str(home),
            autostart_dir,
            autostart_file,
            rv_dir: joined(home, "/retroveneer"),
            config_dir,
            platform_file,
            temp_dir,
            running_file,
            version_file,
            freeze_file,
            launcher_file,
            installer_script,
        }
    }

    /// The paths for the current user, or `None` when no home directory can
    /// be found.
    pub fn locate() -> (r: Option<RvPaths>)
        ensures
            r matches Some(p) ==> p.home@.len() > 0 && paths_of(&p, p.home@),
    {
        match home_dir_text() {
            Some(h) => Some(RvPaths::for_home(h.as_str())),
            None => None,
        }
    }
}

/// Where RetroVeneer publishes its version, freeze marker and installer.
pub open spec fn server_base() -> Seq<char> {
    "https://raw.githubusercontent.com/ModernRetroDev/retro-veneer/refs/heads/master/hosted"@
}

/// The address of a file published on RetroVeneer's server.
pub fn server_file_url(name: &str) -> (r: String)
    ensures
        r@ == server_base() + "/"@ + name@,
{
    let mut s = String::from_str(
        "https://raw.githubusercontent.com/ModernRetroDev/retro-veneer/refs/heads/master/hosted",
    );
    s.append("/");
    s.append(name);
    s
}

/// The shell command that downloads `url` into the directory `dir`.
pub fn fetch_into_command(url: &str, dir: &str) -> (r: String)
    ensures
        r@ == "wget "@ + url@ + " -P "@ + dir@,
{
    let mut s = String::from_str("wget ");
    s.append(url);
    s.append(" -P ");
    s.append(dir);
    s
}

/// The shell command that marks `path` executable.
pub fn make_executable_command(path: &str) -> (r: String)
    ensures
        r@ == "chmod +x "@ + path@,
{
    let mut s = String::from_str("chmod +x ");
    s.append(path);
    s
}

/// The shell command that starts `path` with the arguments `args` (written
/// with their leading space) without waiting for it.
pub fn background_command(path: &str, args: &str) -> (r: String)
    ensures
        r@ == path@ + args@ + " &"@,
{
    let mut s = String::from_str(path);
    s.append(args);
    s.append(" &");
    s
}

/// The files named on a command line, each after a space.
pub open spec fn spaced(files: Seq<Seq<char>>) -> Seq<char>
    decreases files.len(),
{
    if files.len() == 0 {
        Seq::<char>::empty()
    } else {
        spaced(files.drop_last()) + " "@ + files.last()
    }
}

/// The shell command that removes the files, and is silent about those
/// that do not exist.
pub fn remove_files_command(files: &Vec<String>) -> (r: String)
    ensures
        r@ == "rm -f"@ + spaced(files@.map_values(|f: String| f@)),
{
    let mut s = String::from_str("rm -f");
    let ghost names = files@.map_values(|f: String| f@);
    let mut i: usize = 0;
    while i < files.len()
        invariant
            i <= files.len(),
            names == files@.map_values(|f: String| f@),
            s@ == "rm -f"@ + spaced(names.take(i as int)),
        decreases files.len() - i,
    {
        s.append(" ");
        s.append(files[i].as_str());
        proof {
            assert(names.take(i + 1).drop_last() =~= names.take(i as int));
            assert(names.take(i + 1).last() == files@[i as int]@);
        }
        i = i + 1;
    }
    proof {
        assert(names.take(files.len() as int) =~= names);
    }
    s
}

} // verus!
