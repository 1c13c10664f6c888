use unibox_core::connector::{
    api_hash_valid, find_connector, is_native_bridge, offered_connectors, provision_body, provision_outcome, provision_target,
    provisioning_method_valid, provisioning_url, telegram_root_credentials, InstallDecision,
    InstallRetry, ProvisionBody, INSTALL_ATTEMPTS,
};
use unibox_core::model::ConnectorDefinition;

const HASH: &str = "0123456789abcdef0123456789ABCDEF";

fn connector(id: &str, name: &str, adapter: &str, port: u16) -> ConnectorDefinition {
    ConnectorDefinition {
        id: id.to_string(),
        name: name.to_string(),
        category: "chat".to_string(),
        repository: format!("mautrix/{id}"),
        binary: format!("mautrix-{id}"),
        asset_linux_amd64: format!("mautrix-{id}-amd64"),
        port,
        maturity: "stable".to_string(),
        adapter: adapter.to_string(),
        description: String::new(),
        multi_account: false,
        risk_notice: None,
        bot_localpart: None,
        legacy_login: None,
    }
}

#[test]
fn catalog_lookup_finds_the_first_entry_or_names_the_id() {
    let registry = vec![
        connector("signal", "Signal", "bridgev2", 29328),
        connector("telegram", "Telegram", "bridgev2", 29317),
        connector("telegram", "Telegram copy", "bridgev2", 1),
    ];
    assert_eq!(find_connector(&registry, "telegram").unwrap().name, "Telegram");
    assert_eq!(find_connector(&registry, "whatsapp").unwrap_err(), "unknown connector: whatsapp");
    assert_eq!(find_connector(&vec![], "x").unwrap_err(), "unknown connector: x");
}

#[test]
fn native_bridge_adapters() {
    assert!(is_native_bridge(&connector("a", "A", "bridgev2", 1)));
    assert!(is_native_bridge(&connector("a", "A", "source-go", 1)));
    assert!(!is_native_bridge(&connector("a", "A", "python-legacy", 1)));
}

#[test]
fn provisioning_targets() {
    assert_eq!(provisioning_url(29317), "http://127.0.0.1:29317/_matrix/provision");
    assert_eq!(provision_target(29317, "v3/login/flows"), "http://127.0.0.1:29317/_matrix/provision/v3/login/flows");
    assert_eq!(provision_target(8, "/v3/whoami"), "http://127.0.0.1:8/_matrix/provision/v3/whoami");
    assert_eq!(provision_target(8, ""), "http://127.0.0.1:8/_matrix/provision/");
}

#[test]
fn provisioning_methods_are_tokens() {
    assert!(provisioning_method_valid("POST"));
    assert!(provisioning_method_valid("PATCH"));
    assert!(!provisioning_method_valid(""));
    assert!(!provisioning_method_valid("GET /"));
}

#[test]
fn provisioning_bodies_are_classified() {
    assert!(matches!(provision_body(""), ProvisionBody::Empty));
    assert!(matches!(provision_body(" \n"), ProvisionBody::Empty));
    assert!(matches!(provision_body("{\"ok\":true}"), ProvisionBody::Json));
    assert!(matches!(provision_body(" [1, 2] "), ProvisionBody::Json));
    assert!(matches!(provision_body("Bad Gateway"), ProvisionBody::Raw));
}

#[test]
fn api_hash_is_32_hex_characters() {
    assert!(api_hash_valid(HASH));
    assert!(!api_hash_valid(&HASH[1..]));
    assert!(!api_hash_valid("0123456789abcdef0123456789abcdeg"));
}

#[test]
fn telegram_root_credentials_need_positive_id_and_trimmed_hash() {
    let padded = format!("  {HASH}\n");
    assert_eq!(telegram_root_credentials(Some(12345), Some(&padded)).unwrap(), (12345, HASH.to_string()));
    assert_eq!(telegram_root_credentials(None, Some(HASH)).unwrap_err(), "Telegram API ID is not configured");
    assert_eq!(telegram_root_credentials(Some(0), Some(HASH)).unwrap_err(), "Telegram API ID is not configured");
    assert_eq!(telegram_root_credentials(Some(1), None).unwrap_err(), "Telegram API hash is not configured");
    assert_eq!(telegram_root_credentials(Some(1), Some("abc")).unwrap_err(), "Telegram API hash is not configured");
}

#[test]
fn install_retry_repairs_telegram_once() {
    let retry = InstallRetry::new();
    assert!(retry.may_attempt());
    let (retry, decision) = retry.on_error("telegram", "Error: API_HASH is required");
    assert!(matches!(decision, InstallDecision::RepairTelegram { delay_ms: 250 }));
    assert!(retry.telegram_repaired);
    assert_eq!(retry.attempt, 1);
    let (_, decision) = retry.on_error("telegram", "api_id is required");
    match decision {
        InstallDecision::GiveUp(m) => assert_eq!(m, "api_id is required"),
        _ => panic!("the repair happens once"),
    }
}

#[test]
fn install_retry_backs_off_on_file_locks() {
    let mut retry = InstallRetry::new();
    let mut delays = Vec::new();
    while retry.may_attempt() {
        let (next, decision) = retry.on_error("signal", "The process cannot access the file because it is being used by another process. (os error 32)");
        retry = next;
        match decision {
            InstallDecision::Retry { delay_ms } => delays.push(delay_ms),
            _ => panic!("a file lock is retried"),
        }
    }
    assert_eq!(delays, vec![300, 600, 900, 1200, 1500, 1800]);
    assert_eq!(retry.attempt, INSTALL_ATTEMPTS);
    assert_eq!(
        retry.exhausted_message("Signal"),
        "Signal connector setup could not complete after automatic retries. Details: The process cannot access the file because it is being used by another process. (os error 32)"
    );
}

#[test]
fn install_retry_gives_up_on_other_errors() {
    let (retry, decision) = InstallRetry::new().on_error("whatsapp", "api_hash is required");
    match decision {
        InstallDecision::GiveUp(m) => assert_eq!(m, "api_hash is required"),
        _ => panic!("only Telegram is repaired"),
    }
    assert_eq!(retry.attempt, 0);
    let (_, decision) = InstallRetry::new().on_error("signal", "SHARING VIOLATION");
    assert!(matches!(decision, InstallDecision::Retry { delay_ms: 300 }));
}

#[test]
fn failed_provisioning_quotes_status_and_body() {
    assert!(provision_outcome(true, "200 OK", "{}").is_ok());
    assert_eq!(
        provision_outcome(false, "404 Not Found", "{\"error\":\"no route\"}").unwrap_err(),
        "bridge provisioning returned 404 Not Found: {\"error\":\"no route\"}"
    );
}

#[test]
fn catalog_offers_bundled_native_bridges_only() {
    let registry = vec![
        connector("signal", "Signal", "bridgev2", 1),
        connector("gc", "Google Chat", "python-legacy", 2),
        connector("discord", "Discord", "source-go", 3),
        connector("slack", "Slack", "bridgev2", 4),
    ];
    assert_eq!(offered_connectors(&registry, &vec![true, true, true, false]), vec![0, 2]);
    assert!(offered_connectors(&vec![], &vec![]).is_empty());
}
