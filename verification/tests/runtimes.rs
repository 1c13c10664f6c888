use std::sync::atomic::Ordering;
use unibox_core::desktop::{
    preferences_from_lock, set_autostart, start_hidden, tray_menu_action, validate_preferences,
    AutostartPlan, DesktopState, Preferences, TrayAction, RUN_KEY,
};
use unibox_core::model::ConnectorDefinition;
use unibox_core::native::{
    self, ConfigValue, ConfigurePlan, ConnectorLocalSettings, NativeSecrets,
};
use unibox_core::wsl;

const HASH: &str = "0123456789abcdef0123456789abcdef";

fn connector(id: &str, name: &str, adapter: &str, port: u16) -> ConnectorDefinition {
    ConnectorDefinition {
        id: id.to_string(),
        name: name.to_string(),
        category: "chat".to_string(),
        repository: format!("mautrix/{id}"),
        binary: format!("mautrix-{id}"),
        asset_linux_amd64: format!("mautrix-{id}-amd64"),
        port,
        maturity: "stable".to_string(),
        adapter: adapter.to_string(),
        description: String::new(),
        multi_account: false,
        risk_notice: None,
        bot_localpart: None,
        legacy_login: None,
    }
}

fn strings(v: &[&str]) -> Vec<String> {
    v.iter().map(|s| s.to_string()).collect()
}

// --- WSL runtime ------------------------------------------------------------

#[test]
fn wsl_listing_is_read_line_by_line() {
    assert!(wsl::listing_has_distro("Ubuntu\r\n  UniboxRuntime  \r\n"));
    assert!(wsl::listing_has_distro("UniboxRuntime"));
    assert!(!wsl::listing_has_distro("UniboxRuntime2\nUbuntu\n"));
    assert!(!wsl::listing_has_distro(""));
    // The listing of `wsl.exe -l --running -q` names only running distributions.
    assert!(wsl::listing_has_distro("Ubuntu\r\nUniboxRuntime\r\n"));
    assert!(!wsl::listing_has_distro("Ubuntu\r\n"));
}

#[test]
fn wsl_connector_commands() {
    let c = connector("signal", "Signal", "bridgev2", 29328);
    assert_eq!(
        wsl::install_connector_argv(&c),
        strings(&[
            "-d", "UniboxRuntime", "--", "/opt/unibox/bin/unibox-connector", "install", "signal",
            "bridgev2", "mautrix/signal", "mautrix-signal", "mautrix-signal-amd64", "29328",
        ])
    );
    assert_eq!(
        wsl::update_connector_argv(&c),
        strings(&[
            "-d", "UniboxRuntime", "--", "/opt/unibox/bin/unibox-connector", "update", "signal",
            "bridgev2", "mautrix/signal", "mautrix-signal", "mautrix-signal-amd64",
        ])
    );
    assert_eq!(
        wsl::connector_service_argv(&c, false),
        strings(&["-d", "UniboxRuntime", "--", "/opt/unibox/bin/unibox-connector", "stop", "signal"])
    );
    assert_eq!(
        wsl::wsl_shell_argv("true"),
        strings(&["-d", "UniboxRuntime", "--", "bash", "-lc", "true"])
    );
    assert_eq!(
        wsl::start_services_shell(),
        "systemctl start postgresql unibox-synapse && systemctl is-active postgresql unibox-synapse"
    );
    assert_eq!(wsl::installed_probe_shell(&c), "test -x /opt/unibox/connectors/signal/mautrix-signal");
    let legacy = connector("fb", "Facebook", "python-legacy", 1);
    assert_eq!(wsl::installed_probe_shell(&legacy), "test -f /opt/unibox/connectors/fb/.installed");
    assert_eq!(wsl::running_probe_shell(&c), "systemctl is-active --quiet unibox-signal.service");
}

#[test]
fn wsl_statuses() {
    let c = connector("signal", "Signal", "bridgev2", 29328);
    let s = wsl::connector_status(&c, true, false);
    assert!(s.installed && !s.running);
    assert_eq!(s.provisioning_url.as_deref(), Some("http://127.0.0.1:29328/_matrix/provision"));
    let s = wsl::connector_status(&connector("fb", "Facebook", "python-legacy", 1), true, true);
    assert!(s.running && s.provisioning_url.is_none());
    assert!(wsl::connector_status(&c, false, true).provisioning_url.is_none());

    let r = wsl::runtime_status("windows", "C:\\data", true, true, false, true, true);
    assert!(r.distro_installed && !r.distro_running && r.synapse_ready && r.matrix_session_ready);
    let r = wsl::runtime_status("windows", "C:\\data", false, true, true, false, true);
    assert!(!r.distro_installed && !r.distro_running && !r.matrix_session_ready);
    assert_eq!(r.data_root, "C:\\data");
}

#[test]
fn wsl_provisioning_needs_bridgev2() {
    let c = connector("signal", "Signal", "bridgev2", 29328);
    assert_eq!(wsl::provision_request_url(&c, "v3/whoami").unwrap(), "http://127.0.0.1:29328/_matrix/provision/v3/whoami");
    let legacy = connector("fb", "Facebook", "python-legacy", 1);
    assert_eq!(
        wsl::provision_request_url(&legacy, "/x").unwrap_err(),
        "Facebook does not use the BridgeV2 provisioning API"
    );
}

// --- Native runtime ---------------------------------------------------------

#[test]
fn windows_paths_lose_their_extended_prefix() {
    assert_eq!(native::normalize_windows_path("\\\\?\\C:\\Users\\me"), "C:\\Users\\me");
    assert_eq!(native::normalize_windows_path("\\\\?\\UNC\\server\\share"), "\\\\server\\share");
    assert_eq!(native::normalize_windows_path("C:\\plain"), "C:\\plain");
    assert_eq!(native::slash_path("C:\\a\\b"), "C:/a/b");
}

#[test]
fn toml_strings_are_escaped() {
    assert_eq!(native::toml_escape("a\"b\\c"), "a\\\"b\\\\c");
    assert_eq!(native::toml_escape("plain"), "plain");
}

#[test]
fn tuwunel_config_is_local_only() {
    let text = native::tuwunel_config("C:\\data\\db", "C:\\data\\app\"s", "s3cr\\et");
    assert_eq!(
        text,
        "[global]\nserver_name = \"unibox.local\"\ndatabase_path = \"C:/data/db\"\naddress = [\"127.0.0.1\"]\nport = 8008\nallow_federation = false\nallow_registration = false\ncreate_admin_room = false\nnew_user_displayname_suffix = \"\"\nappservice_dir = \"C:/data/app\\\"s\"\nregistration_shared_secret = \"s3cr\\\\et\"\nlog = \"warn,tuwunel=info\"\n"
    );
}

#[test]
fn legacy_cleanup_script_quotes_paths() {
    assert!(native::stop_legacy_native_slot_processes("C:\\r", None).is_none());
    let script = native::stop_legacy_native_slot_processes("C:\\O'Neil\\v2", Some("C:\\O'Neil")).unwrap();
    assert!(script.starts_with("$current='C:\\O''Neil\\v2'; $parent='C:\\O''Neil'; Get-CimInstance Win32_Process"));
    assert!(script.ends_with("Stop-Process -Id $_.ProcessId -Force -ErrorAction SilentlyContinue }"));
}

#[test]
fn fresh_secrets_are_alphanumeric() {
    let secrets = NativeSecrets::generate();
    assert_eq!(secrets.registration_shared_secret.len(), 64);
    assert_eq!(secrets.matrix_password.len(), 48);
    assert!(secrets.registration_shared_secret.chars().all(|c| c.is_ascii_alphanumeric()));
    assert!(secrets.matrix_password.chars().all(|c| c.is_ascii_alphanumeric()));
    assert_eq!(native::random_secret(0), "");
    assert_ne!(native::random_secret(32), native::random_secret(32));
}

#[test]
fn registration_message_and_mac() {
    assert_eq!(native::registration_payload("n1", "pw"), "n1\0unibox\0pw\0notadmin");
    // HMAC-SHA1 of the payload, keyed with the shared secret, in lower-case hex.
    assert_eq!(native::registration_mac("key", "n1", "pw"), "f2d98f71c83a586f7edddfcb6823ba9405bbb786");
    assert_eq!(native::registration_mac("secret", "abc", "pass"), "9497e2e9d1a6f5380a1431cd8c23d88c960f10df");
    let mac = native::registration_mac("secret", "abc", "pass");
    assert!(mac.chars().all(|c| c.is_ascii_hexdigit() && !c.is_ascii_uppercase()));
    assert_ne!(mac, native::registration_mac("secret", "abd", "pass"));
}

#[test]
fn sessions_need_user_and_token() {
    let s = native::session_from_registration(Some("@unibox:unibox.local"), Some("tok"), Some("DEV")).unwrap();
    assert_eq!(s.homeserver, "http://127.0.0.1:8008");
    assert_eq!(s.user_id, "@unibox:unibox.local");
    assert_eq!(s.access_token, "tok");
    assert_eq!(s.device_id.as_deref(), Some("DEV"));
    assert!(native::session_from_login(Some("u"), Some("t"), None).unwrap().device_id.is_none());
    assert_eq!(native::session_from_login(None, Some("t"), None).unwrap_err(), "login response missing user_id");
    assert_eq!(
        native::session_from_registration(Some("u"), None, None).unwrap_err(),
        "registration response missing access_token"
    );
}

#[test]
fn native_connector_requirements() {
    let signal = connector("signal", "Signal", "python-legacy", 1);
    assert_eq!(
        native::require_native_connector(&signal, true).unwrap_err(),
        "Signal is not using the native BridgeV2 adapter in this Windows build."
    );
    let telegram = connector("telegram", "Telegram", "bridgev2", 29317);
    assert_eq!(
        native::require_native_connector(&telegram, false).unwrap_err(),
        "Telegram native connector binary is not bundled in this build."
    );
    assert!(native::require_native_connector(&telegram, true).is_ok());

    let none = native::connector_requirements(&connector("signal", "Signal", "bridgev2", 1), &ConnectorLocalSettings::empty());
    assert!(!none.required && none.fields.is_empty() && none.help.is_none());
    // Telegram users are never asked for API credentials.
    let telegram_needs = native::connector_requirements(&telegram, &ConnectorLocalSettings::empty());
    assert!(!telegram_needs.required && telegram_needs.fields.is_empty() && telegram_needs.help.is_none());
}

#[test]
fn configuring_telegram_checks_and_normalises() {
    let telegram = connector("telegram", "Telegram", "bridgev2", 29317);
    match native::configure_connector(&telegram, true, " 12345 ", &format!(" {} ", HASH.to_uppercase())).unwrap() {
        ConfigurePlan::StoreTelegram(s) => {
            assert_eq!(s.api_id, Some(12345));
            assert_eq!(s.api_hash.as_deref(), Some(HASH));
        }
        _ => panic!("Telegram settings are stored"),
    }
    assert_eq!(
        native::configure_connector(&telegram, true, "-5", HASH).err().unwrap(),
        "Telegram API ID must be a positive number"
    );
    assert_eq!(
        native::configure_connector(&telegram, true, "abc", HASH).err().unwrap(),
        "Telegram API ID must be a positive number"
    );
    assert_eq!(
        native::configure_connector(&telegram, true, "5", "xyz").err().unwrap(),
        "Telegram API hash must be exactly 32 hexadecimal characters"
    );
    let signal = connector("signal", "Signal", "source-go", 1);
    match native::configure_connector(&signal, true, "", "").unwrap() {
        ConfigurePlan::NothingToStore(m) => assert_eq!(m, "Signal does not require pre-connection settings."),
        _ => panic!("nothing to store"),
    }
    assert!(native::configure_connector(&signal, false, "", "").is_err());
    assert_eq!(
        native::update_connector(&signal, true).unwrap(),
        "Signal connector updates are delivered by verified Unibox Windows builds."
    );
}

#[test]
fn native_statuses() {
    let c = connector("signal", "Signal", "bridgev2", 29328);
    let s = native::connector_status(&c, true, true, false);
    assert!(s.installed && !s.running);
    assert_eq!(s.provisioning_url.as_deref(), Some("http://127.0.0.1:29328/_matrix/provision"));
    assert!(!native::connector_status(&c, true, false, true).installed);
    let r = native::runtime_status("windows", "D:\\u", true, false, true);
    assert!(r.wsl_available && r.distro_installed && !r.distro_running && !r.matrix_session_ready);
}

#[test]
fn connector_configuration_edits() {
    let signal = connector("signal", "Signal", "bridgev2", 29328);
    let edits = native::connector_config_edits(&signal, "C:\\s\\bridge.db", &ConnectorLocalSettings::empty()).unwrap();
    assert_eq!(edits.len(), 16);
    assert_eq!(edits[3].key, "address");
    assert!(matches!(&edits[3].value, ConfigValue::Text(t) if t == "http://127.0.0.1:29328"));
    assert!(matches!(&edits[8].value, ConfigValue::Text(t) if t == "file:C:/s/bridge.db?_txlock=immediate"));
    assert!(matches!(&edits[11].value, ConfigValue::Grant { user, level } if user == "@unibox:unibox.local" && level == "admin"));
    assert_eq!(edits[12].section.as_deref(), Some("matrix"));
    assert!(!edits[12].create);

    let telegram = connector("telegram", "Telegram", "bridgev2", 29317);
    let stored = ConnectorLocalSettings { api_id: Some(99), api_hash: Some(HASH.to_string()) };
    let edits = native::connector_config_edits(&telegram, "db", &stored).unwrap();
    assert_eq!(edits.len(), 18);
    assert!(edits[12].section.is_none() && matches!(edits[12].value, ConfigValue::Integer(99)));
    assert!(matches!(&edits[13].value, ConfigValue::Text(t) if t == HASH));
    assert_eq!(
        native::connector_config_edits(&telegram, "db", &ConnectorLocalSettings::empty()).err().unwrap(),
        "Telegram API ID is not configured"
    );
    let padded = ConnectorLocalSettings { api_id: Some(1), api_hash: Some(format!(" {HASH}")) };
    assert_eq!(
        native::connector_config_edits(&telegram, "db", &padded).err().unwrap(),
        "Telegram API hash is not configured"
    );
}

#[test]
fn native_provisioning_url_carries_the_user() {
    assert_eq!(
        native::provision_request_url(29317, "v3/login/start/qr", "@unibox:unibox.local").unwrap(),
        "http://127.0.0.1:29317/_matrix/provision/v3/login/start/qr?user_id=%40unibox%3Aunibox.local"
    );
    assert_eq!(
        native::provision_request_url(29317, "/v3/whoami?x=1", "u").unwrap(),
        "http://127.0.0.1:29317/_matrix/provision/v3/whoami?x=1&user_id=u"
    );
}

// --- Desktop shell ----------------------------------------------------------

#[test]
fn tray_preference_needs_a_tray() {
    let wants_tray = Preferences { close_to_tray: true, run_at_startup: false, start_minimized: false };
    assert_eq!(validate_preferences(&wants_tray, false).unwrap_err(), "The system tray is unavailable on this desktop.");
    assert!(validate_preferences(&wants_tray, true).is_ok());
    assert!(validate_preferences(&Preferences::default(), false).is_ok());
}

#[test]
fn autostart_plans() {
    let on = Preferences { close_to_tray: false, run_at_startup: true, start_minimized: true };
    let off = Preferences::default();
    assert_eq!(set_autostart(&on, false, Some("x")).err().unwrap(), "Automatic startup is currently available on Windows.");
    assert!(matches!(set_autostart(&off, false, None).unwrap(), AutostartPlan::Nothing));
    assert_eq!(set_autostart(&on, true, None).err().unwrap(), "Application path is unavailable.");
    match set_autostart(&on, true, Some("C:\\Apps\\Unibox.exe")).unwrap() {
        AutostartPlan::Register(args) => assert_eq!(
            args,
            strings(&["add", RUN_KEY, "/v", "Unibox", "/t", "REG_SZ", "/d", "\"C:\\Apps\\Unibox.exe\" --minimized", "/f"])
        ),
        _ => panic!("expected a registration"),
    }
    match set_autostart(&off, true, None).unwrap() {
        AutostartPlan::Unregister { query, delete } => {
            assert_eq!(query, strings(&["query", RUN_KEY, "/v", "Unibox"]));
            assert_eq!(delete, strings(&["delete", RUN_KEY, "/v", "Unibox", "/f"]));
        }
        _ => panic!("expected a removal"),
    }
    assert_eq!(RUN_KEY, "HKCU\\Software\\Microsoft\\Windows\\CurrentVersion\\Run");
}

#[test]
fn window_starts_hidden_only_with_a_tray() {
    let minimized = Preferences { close_to_tray: false, run_at_startup: false, start_minimized: true };
    let plain = Preferences::default();
    assert!(start_hidden(&minimized, &vec![], true));
    assert!(!start_hidden(&minimized, &vec![], false));
    assert!(start_hidden(&plain, &strings(&["unibox.exe", "--minimized"]), true));
    assert!(!start_hidden(&plain, &strings(&["unibox.exe", "--minimized=1"]), true));
}

#[test]
fn tray_menu_entries() {
    assert!(matches!(tray_menu_action("open", false), TrayAction::Show));
    assert!(matches!(tray_menu_action("quit", false), TrayAction::Exit));
    assert!(matches!(tray_menu_action("quit", true), TrayAction::Show));
    assert!(matches!(tray_menu_action("other", false), TrayAction::Ignore));
}

#[test]
fn desktop_state_serves_preferences_and_tray_actions() {
    let prefs = Preferences { close_to_tray: true, run_at_startup: false, start_minimized: true };
    let state = DesktopState::new(prefs, true);
    assert!(state.tray_available);
    let read = state.desktop_preferences().unwrap();
    assert!(read.close_to_tray && !read.run_at_startup && read.start_minimized);
    assert!(matches!(state.tray_action("quit"), TrayAction::Exit));
    state.maintenance_active.store(true, Ordering::SeqCst);
    assert!(matches!(state.tray_action("quit"), TrayAction::Show));
    assert!(matches!(state.tray_action("open"), TrayAction::Show));
    assert!(matches!(state.tray_action("about"), TrayAction::Ignore));
}

#[test]
fn lock_answers_become_preferences_or_an_error() {
    let p = Preferences { close_to_tray: false, run_at_startup: true, start_minimized: false };
    let read = preferences_from_lock(Some(p)).unwrap();
    assert!(read.run_at_startup && !read.close_to_tray);
    assert_eq!(preferences_from_lock(None).unwrap_err(), "Settings are unavailable.");
}
