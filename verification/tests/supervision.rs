use unibox_core::model::ConnectorDefinition;
use unibox_core::native::{registration_mac, NativeSecrets};
use unibox_core::supervisor::{
    command_failure, connector_launch, homeserver_launch, install_plan, log_excerpt, log_tail,
    login_outcome,
    registration_outcome, registration_request, LaunchDecision, ReadinessWait, WaitStep,
};

fn connector(id: &str, name: &str, adapter: &str) -> ConnectorDefinition {
    ConnectorDefinition {
        id: id.to_string(),
        name: name.to_string(),
        category: "chat".to_string(),
        repository: String::new(),
        binary: format!("mautrix-{id}"),
        asset_linux_amd64: String::new(),
        port: 29317,
        maturity: "stable".to_string(),
        adapter: adapter.to_string(),
        description: String::new(),
        multi_account: false,
        risk_notice: None,
        bot_localpart: None,
        legacy_login: None,
    }
}

#[test]
fn log_tail_keeps_the_last_bytes() {
    assert_eq!(log_tail("0123456789", 4), "Last log output: 6789");
    assert_eq!(log_tail("short", 100), "Last log output: short");
    assert_eq!(log_tail("", 0), "Last log output: ");
    assert_eq!(log_tail("añb", 3), "Last log output: ñb");
}

#[test]
fn log_excerpt_reads_bytes_lossily() {
    assert_eq!(log_excerpt(None, 10).unwrap(), "See the Unibox native runtime logs for details.");
    assert_eq!(log_excerpt(Some(b"line one\nline two\n"), 9).unwrap(), "Last log output: line two\n");
    assert_eq!(log_excerpt(Some(&[b'a', 0xff, b'b']), 10).unwrap(), "Last log output: a\u{fffd}b");
    assert!(log_excerpt(Some("añb".as_bytes()), 2).is_none());
}

#[test]
fn failed_command_quotes_its_output() {
    assert_eq!(
        command_failure("Telegram", "example config generation", b"out\n", b"err"),
        "Telegram example config generation failed: out\nerr"
    );
}

#[test]
fn homeserver_launch_decisions() {
    match homeserver_launch(true, false, "C:\\tuwunel.exe") {
        LaunchDecision::AlreadyRunning(m) => assert_eq!(m, "Native Matrix runtime is already running."),
        _ => panic!("already running"),
    }
    match homeserver_launch(false, false, "C:\\tuwunel.exe") {
        LaunchDecision::Refuse(m) => assert_eq!(
            m,
            "The bundled native Matrix engine is missing (C:\\tuwunel.exe). Reinstall Unibox using a complete native-runtime build."
        ),
        _ => panic!("engine missing"),
    }
    assert!(matches!(homeserver_launch(false, true, "x"), LaunchDecision::Launch));
}

#[test]
fn connector_launch_decisions() {
    let telegram = connector("telegram", "Telegram", "bridgev2");
    let refuse = |d: LaunchDecision| match d {
        LaunchDecision::Refuse(m) => m,
        _ => panic!("expected a refusal"),
    };
    assert_eq!(
        refuse(connector_launch(&connector("gc", "Google Chat", "python-legacy"), true, true, false)),
        "Google Chat is not using the native BridgeV2 adapter in this Windows build."
    );
    assert_eq!(
        refuse(connector_launch(&telegram, false, true, true)),
        "Telegram native connector binary is not bundled in this build."
    );
    match connector_launch(&telegram, true, false, true) {
        LaunchDecision::AlreadyRunning(m) => assert_eq!(m, "Telegram connector is already running."),
        _ => panic!("already running"),
    }
    assert_eq!(refuse(connector_launch(&telegram, true, false, false)), "Telegram native connector is not installed.");
    assert!(matches!(connector_launch(&telegram, true, true, false), LaunchDecision::Launch));
}

#[test]
fn homeserver_wait_probes_sixty_times() {
    let mut wait = ReadinessWait::homeserver();
    let mut sleeps = 0;
    while wait.may_probe() {
        let (next, step) = wait.on_probe(false);
        wait = next;
        match step {
            WaitStep::Sleep { delay_ms } => {
                assert_eq!(delay_ms, 500);
                sleeps += 1;
            }
            WaitStep::Ready(_) => panic!("never ready"),
        }
    }
    assert_eq!(sleeps, 60);
    assert_eq!(
        wait.timed_out(None).unwrap(),
        "The native Matrix engine did not become ready. See the Unibox native runtime logs for details."
    );
}

#[test]
fn connector_wait_reports_readiness() {
    let wait = ReadinessWait::connector("Signal");
    assert_eq!(wait.limit, 40);
    let (wait, step) = wait.on_probe(false);
    assert!(matches!(step, WaitStep::Sleep { delay_ms: 250 }));
    let (_, step) = wait.on_probe(true);
    match step {
        WaitStep::Ready(m) => assert_eq!(m, "Signal connector started."),
        _ => panic!("ready"),
    }
    let wait = ReadinessWait::connector("Signal");
    assert_eq!(
        wait.timed_out(Some(b"fatal: bind failed")).unwrap(),
        "Signal connector did not become ready. Last log output: fatal: bind failed"
    );
}

#[test]
fn registration_needs_a_nonce() {
    let secrets = NativeSecrets {
        registration_shared_secret: "shared".to_string(),
        matrix_password: "pw".to_string(),
    };
    assert_eq!(
        registration_request(&secrets, false, "500 Internal Server Error", Some("n")).unwrap_err(),
        "local Matrix nonce request failed with 500 Internal Server Error"
    );
    assert_eq!(
        registration_request(&secrets, true, "200 OK", None).unwrap_err(),
        "local Matrix registration nonce is missing"
    );
    let (nonce, mac) = registration_request(&secrets, true, "200 OK", Some("abc")).unwrap();
    assert_eq!(nonce, "abc");
    assert_eq!(mac, registration_mac("shared", "abc", "pw"));
}

#[test]
fn failed_registration_falls_back_to_login() {
    assert!(registration_outcome(false, Some("u"), Some("t"), None).is_none());
    let s = registration_outcome(true, Some("@unibox:unibox.local"), Some("t"), None).unwrap().unwrap();
    assert_eq!(s.access_token, "t");
    assert_eq!(
        registration_outcome(true, None, Some("t"), None).unwrap().unwrap_err(),
        "registration response missing user_id"
    );
    assert_eq!(
        login_outcome(false, "403 Forbidden", "{\"errcode\":\"M_FORBIDDEN\"}", None, None, None).unwrap_err(),
        "local Matrix identity provisioning failed with 403 Forbidden: {\"errcode\":\"M_FORBIDDEN\"}"
    );
    let s = login_outcome(true, "200 OK", "{}", Some("u"), Some("tok"), Some("D")).unwrap();
    assert_eq!(s.device_id.as_deref(), Some("D"));
}

#[test]
fn install_plan_follows_the_state_found() {
    let telegram = connector("telegram", "Telegram", "bridgev2");
    let plan = install_plan(&telegram, true, false, false, true).unwrap();
    assert!(plan.start_homeserver && plan.generate_config && plan.remove_registration);
    assert_eq!(plan.registration_file, "unibox-telegram.yaml");
    assert_eq!(plan.missing_message, "Telegram is not included in this native Windows build yet.");
    assert_eq!(plan.installed_message, "Telegram native connector installed.");
    let plan = install_plan(&telegram, true, true, true, false).unwrap();
    assert!(!plan.start_homeserver && !plan.generate_config && !plan.remove_registration);
    assert_eq!(
        install_plan(&telegram, false, true, true, false).err().unwrap(),
        "Telegram native connector binary is not bundled in this build."
    );
    assert_eq!(
        install_plan(&connector("gc", "Google Chat", "python-legacy"), true, true, true, false).err().unwrap(),
        "Google Chat is not using the native BridgeV2 adapter in this Windows build."
    );
}
