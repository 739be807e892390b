//! Starting the program at login: the entry that each system needs, and
//! whether to write or remove it.

use vstd::prelude::*;

verus! {

/// The kind of system the program runs on.
#[derive(Debug, Clone, Copy, PartialEq, Eq, Structural)]
pub enum Platform {
    MacOs,
    Windows,
    Linux,
    Other,
}

/// The launch agent's directory, under the home directory, on macOS.
pub const MACOS_AGENT_DIR: &'static str = "Library/LaunchAgents";

/// The launch agent's file name on macOS.
pub const MACOS_AGENT_FILE: &'static str = "com.acdiost.focuslock.plist";

/// The autostart directory, under the home directory, on Linux.
pub const LINUX_AUTOSTART_DIR: &'static str = ".config/autostart";

/// The autostart entry's file name on Linux.
pub const LINUX_AUTOSTART_FILE: &'static str = "com.acdiost.focuslock.desktop";

/// The name of the value under the current user's `Run` key on Windows.
pub const WINDOWS_RUN_VALUE: &'static str = "Focus Lock";

/// What comes before the program's path in the launch agent.
pub const PLIST_HEAD: &'static str = "<?xml version=\"1.0\" encoding=\"UTF-8\"?>\n<!DOCTYPE plist PUBLIC \"-//Apple//DTD PLIST 1.0//EN\" \"http://www.apple.com/DTDs/PropertyList-1.0.dtd\">\n<plist version=\"1.0\">\n<dict>\n\t<key>Label</key>\n\t<string>com.acdiost.focuslock</string>\n\t<key>ProgramArguments</key>\n\t<array>\n\t\t<string>";

/// What comes after the program's path in the launch agent.
pub const PLIST_TAIL: &'static str = "</string>\n\t</array>\n\t<key>RunAtLoad</key>\n\t<true/>\n\t<key>KeepAlive</key>\n\t<false/>\n</dict>\n</plist>\n";

/// What comes before the program's path in the autostart entry.
pub const DESKTOP_HEAD: &'static str = "[Desktop Entry]\nType=Application\nName=Focus Lock\nComment=Pomodoro timer with break-time screen lock\nExec=";

/// What comes after the program's path in the autostart entry.
pub const DESKTOP_TAIL: &'static str = "\nIcon=com.acdiost.focuslock\nHidden=false\nNoDisplay=false\nX-GNOME-Autostart-enabled=true\n";

/// What the shell is to do so that the program starts, or no longer starts,
/// at login. Directories and files are relative to `home`.
#[derive(Debug)]
pub enum LoginItemPlan {
    Nothing,
    /// Create `home/dir` and write `contents` to `home/dir/file`.
    WriteHomeFile { home: String, dir: String, file: String, contents: String },
    /// Remove `home/dir/file`.
    RemoveHomeFile { home: String, dir: String, file: String },
    /// Set the value `name` of the current user's `Run` key to `value`.
    SetRunValue { name: String, value: String },
    /// Delete the value `name` of the current user's `Run` key.
    DeleteRunValue { name: String },
}

/// The mathematical content of [`LoginItemPlan`].
pub enum LoginItemPlanView {
    Nothing,
    WriteHomeFile { home: Seq<char>, dir: Seq<char>, file: Seq<char>, contents: Seq<char> },
    RemoveHomeFile { home: Seq<char>, dir: Seq<char>, file: Seq<char> },
    SetRunValue { name: Seq<char>, value: Seq<char> },
    DeleteRunValue { name: Seq<char> },
}

impl View for LoginItemPlan {
    type V = LoginItemPlanView;

    open spec fn view(&self) -> LoginItemPlanView {
        match self {
            LoginItemPlan::Nothing => LoginItemPlanView::Nothing,
            LoginItemPlan::WriteHomeFile { home, dir, file, contents } => {
                LoginItemPlanView::WriteHomeFile {
                    home: home@,
                    dir: dir@,
                    file: file@,
                    contents: contents@,
                }
            },
            LoginItemPlan::RemoveHomeFile { home, dir, file } => LoginItemPlanView::RemoveHomeFile {
                home: home@,
                dir: dir@,
                file: file@,
            },
            LoginItemPlan::SetRunValue { name, value } => LoginItemPlanView::SetRunValue {
                name: name@,
                value: value@,
            },
            LoginItemPlan::DeleteRunValue { name } => LoginItemPlanView::DeleteRunValue {
                name: name@,
            },
        }
    }
}

/// The launch agent that starts the program at `exe` at login on macOS.
pub open spec fn plist_contents(exe: Seq<char>) -> Seq<char> {
    PLIST_HEAD@ + exe + PLIST_TAIL@
}

/// The autostart entry that starts the program at `exe` at login on Linux.
pub open spec fn desktop_contents(exe: Seq<char>) -> Seq<char> {
    DESKTOP_HEAD@ + exe + DESKTOP_TAIL@
}

/// The plan for a home-directory file `dir/file` whose contents for the
/// program at `exe` are `contents`: nothing without a home directory; when
/// enabling, write the file if the program's path is known; when disabling,
/// remove it.
pub open spec fn home_file_plan(
    enable: bool,
    home: Option<Seq<char>>,
    exe: Option<Seq<char>>,
    dir: Seq<char>,
    file: Seq<char>,
    contents: spec_fn(Seq<char>) -> Seq<char>,
) -> LoginItemPlanView {
    match home {
        None => LoginItemPlanView::Nothing,
        Some(h) => if enable {
            match exe {
                Some(e) => LoginItemPlanView::WriteHomeFile { home: h, dir, file, contents: contents(e) },
                None => LoginItemPlanView::Nothing,
            }
        } else {
            LoginItemPlanView::RemoveHomeFile { home: h, dir, file }
        },
    }
}

/// The plan for each system: a launch agent on macOS, a value of the `Run`
/// key on Windows, an autostart entry on Linux, nothing elsewhere.
pub open spec fn login_plan_spec(
    enable: bool,
    platform: Platform,
    home: Option<Seq<char>>,
    exe: Option<Seq<char>>,
) -> LoginItemPlanView {
    match platform {
        Platform::MacOs => home_file_plan(
            enable,
            home,
            exe,
            MACOS_AGENT_DIR@,
            MACOS_AGENT_FILE@,
            |e: Seq<char>| plist_contents(e),
        ),
        Platform::Linux => home_file_plan(
            enable,
            home,
            exe,
            LINUX_AUTOSTART_DIR@,
            LINUX_AUTOSTART_FILE@,
            |e: Seq<char>| desktop_contents(e),
        ),
        Platform::Windows => if enable {
            match exe {
                Some(e) => LoginItemPlanView::SetRunValue { name: WINDOWS_RUN_VALUE@, value: e },
                None => LoginItemPlanView::Nothing,
            }
        } else {
            LoginItemPlanView::DeleteRunValue { name: WINDOWS_RUN_VALUE@ }
        },
        Platform::Other => LoginItemPlanView::Nothing,
    }
}

/// The view of an optional text.
pub open spec fn opt_seq(o: Option<String>) -> Option<Seq<char>> {
    match o {
        Some(s) => Some(s@),
        None => None,
    }
}

/// `head`, then `middle`, then `tail`.
fn enclose(head: &str, middle: &str, tail: &str) -> (r: String)
    ensures
        r@ == head@ + middle@ + tail@,
{
    let mut s = String::from_str(head);
    s.append(middle);
    s.append(tail);
    s
}

/// The launch agent for the program at `exe`.
pub fn launch_agent_plist(exe: &str) -> (r: String)
    ensures
        r@ == plist_contents(exe@),
{
    enclose(PLIST_HEAD, exe, PLIST_TAIL)
}

/// The autostart entry for the program at `exe`.
pub fn autostart_desktop_entry(exe: &str) -> (r: String)
    ensures
        r@ == desktop_contents(exe@),
{
    enclose(DESKTOP_HEAD, exe, DESKTOP_TAIL)
}

/// What to do so that the program starts at login when `enable`, and no
/// longer does otherwise (see [`login_plan_spec`]). `home` is the home
/// directory and `exe` the program's path, each when the system tells them.
pub fn apply_launch_at_login(
    enable: bool,
    platform: Platform,
    home: Option<String>,
    exe: Option<String>,
) -> (r: LoginItemPlan)
    ensures
        r@ == login_plan_spec(enable, platform, opt_seq(home), opt_seq(exe)),
{
    match platform {
        Platform::MacOs | Platform::Linux => {
            let mac = platform == Platform::MacOs;
            let (dir, file) = if mac {
                (MACOS_AGENT_DIR, MACOS_AGENT_FILE)
            } else {
                (LINUX_AUTOSTART_DIR, LINUX_AUTOSTART_FILE)
            };
            match home {
                None => LoginItemPlan::Nothing,
                Some(h) => if enable {
                    match exe {
                        Some(e) => {
                            let contents = if mac {
                                launch_agent_plist(e.as_str())
                            } else {
                                autostart_desktop_entry(e.as_str())
                            };
                            LoginItemPlan::WriteHomeFile {
                                home: h,
                                dir: String::from_str(dir),
                                file: String::from_str(file),
                                contents,
                            }
                        },
                        None => LoginItemPlan::Nothing,
                    }
                } else {
                    LoginItemPlan::RemoveHomeFile {
                        home: h,
                        dir: String::from_str(dir),
                        file: String::from_str(file),
                    }
                },
            }
        },
        Platform::Windows => if enable {
            match exe {
                Some(e) => LoginItemPlan::SetRunValue {
                    name: String::from_str(WINDOWS_RUN_VALUE),
                    value: e,
                },
                None => LoginItemPlan::Nothing,
            }
        } else {
            LoginItemPlan::DeleteRunValue { name: String::from_str(WINDOWS_RUN_VALUE) }
        },
        Platform::Other => LoginItemPlan::Nothing,
    }
}

/// Turning launch at login off undoes turning it on: on macOS and Linux,
/// with a home directory, disabling removes exactly the file that enabling
/// writes (whether or not the program's path is known); on Windows,
/// disabling deletes the value that enabling sets to the program's path;
/// elsewhere neither does anything.
pub proof fn lemma_disable_undoes_enable(
    platform: Platform,
    home: Seq<char>,
    exe: Seq<char>,
    any_exe: Option<Seq<char>>,
    any_home: Option<Seq<char>>,
)
    ensures
        platform == Platform::MacOs || platform == Platform::Linux ==> {
            &&& login_plan_spec(true, platform, Some(home), Some(exe)) matches
                LoginItemPlanView::WriteHomeFile { home: h, dir, file, .. }
            &&& h == home
            &&& login_plan_spec(false, platform, Some(home), any_exe)
                == LoginItemPlanView::RemoveHomeFile { home: h, dir, file }
        },
        platform == Platform::Windows ==> {
            &&& login_plan_spec(true, platform, any_home, Some(exe)) matches
                LoginItemPlanView::SetRunValue { name, value }
            &&& value == exe
            &&& login_plan_spec(false, platform, any_home, any_exe)
                == LoginItemPlanView::DeleteRunValue { name }
        },
        platform == Platform::Other ==> login_plan_spec(true, platform, any_home, any_exe)
            == LoginItemPlanView::Nothing && login_plan_spec(false, platform, any_home, any_exe)
            == LoginItemPlanView::Nothing,
{
}

/// Without a home directory nothing is planned on macOS or Linux, and
/// without the program's path nothing is written or set when enabling.
pub proof fn lemma_plan_needs_paths(platform: Platform, home: Option<Seq<char>>, exe: Option<Seq<char>>)
    ensures
        (platform == Platform::MacOs || platform == Platform::Linux) && home is None
            ==> login_plan_spec(true, platform, home, exe) == LoginItemPlanView::Nothing
            && login_plan_spec(false, platform, home, exe) == LoginItemPlanView::Nothing,
        exe is None ==> login_plan_spec(true, platform, home, exe) == LoginItemPlanView::Nothing,
{
}

} // verus!
