//! The desktop shell: its preferences, tray behaviour and automatic
//! startup, and the state it shares with the tray.

use vstd::prelude::*;

use std::sync::atomic::AtomicBool;
use std::sync::atomic::Ordering;
use std::sync::{Arc, Mutex};

use crate::connector::strings_view;
use crate::text::{owned, push_char, push_str, str_eq};

verus! {

/// The user's desktop preferences.
#[derive(Clone, Copy, Debug)]
pub struct Preferences {
    pub close_to_tray: bool,
    pub run_at_startup: bool,
    pub start_minimized: bool,
}

impl Default for Preferences {
    /// Every preference off.
    fn default() -> (r: Preferences)
        ensures
            !r.close_to_tray,
            !r.run_at_startup,
            !r.start_minimized,
    {
        Preferences { close_to_tray: false, run_at_startup: false, start_minimized: false }
    }
}

/// Preferences can only ask to close to the tray when a tray exists.
pub fn validate_preferences(preferences: &Preferences, tray_available: bool) -> (r: Result<(), String>)
    ensures
        r is Ok <==> !(preferences.close_to_tray && !tray_available),
        r matches Err(m) ==> m@ == "The system tray is unavailable on this desktop."@,
{
    if preferences.close_to_tray && !tray_available {
        return Err(owned("The system tray is unavailable on this desktop."));
    }
    Ok(())
}

/// The registry key of per-user startup programs.
pub const RUN_KEY: &'static str = "HKCU\\Software\\Microsoft\\Windows\\CurrentVersion\\Run";

/// What `reg.exe` must do to apply the startup preference.
pub enum AutostartPlan {
    /// Nothing to change.
    Nothing,
    /// Run `reg.exe` with these arguments to register the application.
    Register(Vec<String>),
    /// Run `reg.exe` with `query`; when the value exists, run it with
    /// `delete`.
    Unregister { query: Vec<String>, delete: Vec<String> },
}

/// The registry value that starts the application: its quoted path, with
/// `--minimized` when it should start minimized.
pub open spec fn startup_command(executable: Seq<char>, minimized: bool) -> Seq<char> {
    seq!['"'] + executable + seq!['"'] + if minimized {
        " --minimized"@
    } else {
        Seq::<char>::empty()
    }
}

/// The startup value is the executable's path in double quotes, followed
/// by ` --minimized` exactly when the application should start minimized.
pub proof fn startup_value_rule(executable: Seq<char>, minimized: bool, value: Seq<char>)
    requires
        value == startup_command(executable, minimized),
    ensures
        !minimized ==> value == seq!['"'] + executable + seq!['"'],
        minimized ==> value == seq!['"'] + executable + seq!['"', ' ', '-', '-', 'm', 'i', 'n', 'i', 'm', 'i', 'z', 'e', 'd'],
        value.len() == executable.len() + 2 + if minimized { 12int } else { 0int },
{
    reveal_strlit(" --minimized");
    if minimized {
        assert(" --minimized"@ =~= seq![' ', '-', '-', 'm', 'i', 'n', 'i', 'm', 'i', 'z', 'e', 'd']);
    } else {
        assert(seq!['"'] + executable + seq!['"'] + Seq::<char>::empty() =~= seq!['"'] + executable + seq!['"']);
    }
}

fn push_owned(v: &mut Vec<String>, s: &str)
    ensures
        strings_view(final(v)@) == strings_view(old(v)@).push(s@),
{
    v.push(owned(s));
    proof {
        assert(strings_view(v@) =~= strings_view(old(v)@).push(s@));
    }
}

/// Applies the automatic-startup preference. Outside Windows it can only
/// be off. On Windows it is registered under the `Run` key as `Unibox`
/// (which needs the executable's path) or removed from there when present.
pub fn set_autostart(preferences: &Preferences, windows: bool, executable: Option<&str>) -> (r: Result<AutostartPlan, String>)
    ensures
        !windows && preferences.run_at_startup ==> (r matches Err(m) && m@
            == "Automatic startup is currently available on Windows."@),
        !windows && !preferences.run_at_startup ==> r matches Ok(AutostartPlan::Nothing),
        windows && preferences.run_at_startup ==> match executable {
            None => r matches Err(m) && m@ == "Application path is unavailable."@,
            Some(exe) => r matches Ok(AutostartPlan::Register(args)) && strings_view(args@)[7]
                == seq!['"'] + exe@ + seq!['"'] + (if preferences.start_minimized {
                " --minimized"@
            } else {
                Seq::<char>::empty()
            }) && strings_view(args@) == seq![
                "add"@,
                RUN_KEY@,
                "/v"@,
                "Unibox"@,
                "/t"@,
                "REG_SZ"@,
                "/d"@,
                startup_command(exe@, preferences.start_minimized),
                "/f"@,
            ],
        },
        windows && !preferences.run_at_startup ==> (r matches Ok(AutostartPlan::Unregister { query, delete })
            && strings_view(query@) == seq!["query"@, RUN_KEY@, "/v"@, "Unibox"@]
            && strings_view(delete@) == seq!["delete"@, RUN_KEY@, "/v"@, "Unibox"@, "/f"@]),
{
    if !windows {
        if preferences.run_at_startup {
            return Err(owned("Automatic startup is currently available on Windows."));
        }
        return Ok(AutostartPlan::Nothing);
    }
    if preferences.run_at_startup {
        let exe = match executable {
            Some(e) => e,
            None => return Err(owned("Application path is unavailable.")),
        };
        let mut value = String::new();
        push_char(&mut value, '"');
        push_str(&mut value, exe);
        push_char(&mut value, '"');
        if preferences.start_minimized {
            push_str(&mut value, " --minimized");
        }
        proof {
            assert(value@ =~= startup_command(exe@, preferences.start_minimized));
        }
        let mut args: Vec<String> = Vec::new();
        push_owned(&mut args, "add");
        push_owned(&mut args, RUN_KEY);
        push_owned(&mut args, "/v");
        push_owned(&mut args, "Unibox");
        push_owned(&mut args, "/t");
        push_owned(&mut args, "REG_SZ");
        push_owned(&mut args, "/d");
        push_owned(&mut args, value.as_str());
        push_owned(&mut args, "/f");
        proof {
            assert(strings_view(args@) =~= seq![
                "add"@,
                RUN_KEY@,
                "/v"@,
                "Unibox"@,
                "/t"@,
                "REG_SZ"@,
                "/d"@,
                startup_command(exe@, preferences.start_minimized),
                "/f"@,
            ]);
        }
        Ok(AutostartPlan::Register(args))
    } else {
        let mut query: Vec<String> = Vec::new();
        push_owned(&mut query, "query");
        push_owned(&mut query, RUN_KEY);
        push_owned(&mut query, "/v");
        push_owned(&mut query, "Unibox");
        let mut delete: Vec<String> = Vec::new();
        push_owned(&mut delete, "delete");
        push_owned(&mut delete, RUN_KEY);
        push_owned(&mut delete, "/v");
        push_owned(&mut delete, "Unibox");
        push_owned(&mut delete, "/f");
        proof {
            assert(strings_view(query@) =~= seq!["query"@, RUN_KEY@, "/v"@, "Unibox"@]);
            assert(strings_view(delete@) =~= seq!["delete"@, RUN_KEY@, "/v"@, "Unibox"@, "/f"@]);
        }
        Ok(AutostartPlan::Unregister { query, delete })
    }
}

/// Some argument is exactly `--minimized`.
pub open spec fn has_minimized_flag(args: Seq<Seq<char>>) -> bool {
    exists|i: int| 0 <= i < args.len() && #[trigger] args[i] == "--minimized"@
}

/// Whether the window starts hidden in the tray: the tray must exist, and
/// either the preference or the `--minimized` argument asks for it.
pub fn start_hidden(preferences: &Preferences, args: &Vec<String>, tray_available: bool) -> (r: bool)
    ensures
        r == (tray_available && (preferences.start_minimized || has_minimized_flag(strings_view(args@)))),
{
    let mut flag = false;
    let mut i: usize = 0;
    while i < args.len()
        invariant
            i <= args@.len(),
            flag == exists|j: int| 0 <= j < i && #[trigger] strings_view(args@)[j] == "--minimized"@,
        decreases args.len() - i,
    {
        if str_eq(args[i].as_str(), "--minimized") {
            flag = true;
        }
        proof {
            if flag {
                let j = choose|j: int| 0 <= j < i + 1 && #[trigger] strings_view(args@)[j] == "--minimized"@ || strings_view(args@)[i as int] == "--minimized"@;
            }
        }
        i += 1;
    }
    tray_available && (preferences.start_minimized || flag)
}

/// What a tray menu entry does.
pub enum TrayAction {
    /// Bring the main window to the front.
    Show,
    /// Quit the application.
    Exit,
    /// Not a known entry.
    Ignore,
}

/// The tray menu: `open` shows the window; `quit` exits, except during
/// maintenance, when it shows the window instead.
pub fn tray_menu_action(id: &str, maintenance_active: bool) -> (r: TrayAction)
    ensures
        id@ == "open"@ ==> r is Show,
        id@ == "quit"@ ==> (if maintenance_active { r is Show } else { r is Exit }),
        id@ != "open"@ && id@ != "quit"@ ==> r is Ignore,
{
    proof {
        reveal_strlit("open");
        reveal_strlit("quit");
        assert("open"@[0] != "quit"@[0]);
    }
    if str_eq(id, "open") {
        TrayAction::Show
    } else if str_eq(id, "quit") {
        if maintenance_active {
            TrayAction::Show
        } else {
            TrayAction::Exit
        }
    } else {
        TrayAction::Ignore
    }
}

// ---------------------------------------------------------------------------
// The shell's shared state
// ---------------------------------------------------------------------------

/// std's `Mutex`, carried opaquely: what it holds changes under other
/// threads, so nothing is said of its contents.
#[verifier::external_type_specification]
#[verifier::external_body]
#[verifier::reject_recursive_types(T)]
pub struct ExMutex<T: ?Sized>(Mutex<T>);

/// Builds a mutex holding `value` (`Mutex::new`).
#[verifier::external_body]
fn new_mutex(value: Preferences) -> (r: Mutex<Preferences>) {
    Mutex::new(value)
}

/// A copy of the preferences behind the lock (`Mutex::lock`), `None` when
/// the lock is poisoned. Another thread may have stored any preferences,
/// so nothing is said of the value.
#[verifier::external_body]
fn read_locked(m: &Mutex<Preferences>) -> (r: Option<Preferences>) {
    match m.lock() {
        Ok(guard) => Some(*guard),
        Err(_) => None,
    }
}

/// The answer to a read of the stored preferences, from what the lock gave
/// (`None` when it is poisoned): the preferences themselves, or the error
/// that settings are unavailable.
pub fn preferences_from_lock(read: Option<Preferences>) -> (r: Result<Preferences, String>)
    ensures
        match read {
            Some(p) => r == Ok::<Preferences, String>(p),
            None => r matches Err(m) && m@ == "Settings are unavailable."@,
        },
{
    match read {
        Some(p) => Ok(p),
        None => Err(owned("Settings are unavailable.")),
    }
}

/// The desktop shell's state: the stored preferences, whether a tray icon
/// could be created, and whether runtime maintenance is under way (which
/// the tray's quit entry respects).
pub struct DesktopState {
    pub preferences: Mutex<Preferences>,
    pub tray_available: bool,
    pub maintenance_active: Arc<AtomicBool>,
}

impl DesktopState {
    /// The state at startup: the loaded preferences, no maintenance.
    pub fn new(preferences: Preferences, tray_available: bool) -> (r: DesktopState)
        ensures
            r.tray_available == tray_available,
    {
        DesktopState {
            preferences: new_mutex(preferences),
            tray_available,
            maintenance_active: Arc::new(AtomicBool::new(false)),
        }
    }

    /// The stored preferences, or an error when the lock is poisoned: what
    /// `preferences_from_lock` makes of the lock's answer.
    pub fn desktop_preferences(&self) -> (r: Result<Preferences, String>)
        ensures
            r matches Err(m) ==> m@ == "Settings are unavailable."@,
    {
        preferences_from_lock(read_locked(&self.preferences))
    }

    /// What a tray menu entry does now: `open` shows the window, `quit`
    /// exits unless maintenance is under way, other entries do nothing.
    pub fn tray_action(&self, id: &str) -> (r: TrayAction)
        ensures
            id@ == "open"@ ==> r is Show,
            id@ == "quit"@ ==> (r is Show || r is Exit),
            id@ != "open"@ && id@ != "quit"@ ==> r is Ignore,
    {
        let busy = self.maintenance_active.load(Ordering::SeqCst);
        tray_menu_action(id, busy)
    }
}

} // verus!
