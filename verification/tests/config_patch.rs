use unibox_core::config_yaml::{patch_connector_yaml, telegram_root_yaml};
use unibox_core::model::ConnectorDefinition;
use unibox_core::native::{connector_config_edits, ConnectorLocalSettings};

fn connector(id: &str, port: u16) -> ConnectorDefinition {
    ConnectorDefinition {
        id: id.to_string(),
        name: id.to_string(),
        category: "chat".to_string(),
        repository: String::new(),
        binary: format!("mautrix-{id}"),
        asset_linux_amd64: String::new(),
        port,
        maturity: "stable".to_string(),
        adapter: "bridgev2".to_string(),
        description: String::new(),
        multi_account: false,
        risk_notice: None,
        bot_localpart: None,
        legacy_login: None,
    }
}

fn patched(c: &ConnectorDefinition, raw: &str) -> serde_yaml::Value {
    let edits = connector_config_edits(c, "C:\\data\\bridge.db", &ConnectorLocalSettings::empty()).unwrap();
    serde_yaml::from_str(&patch_connector_yaml(raw, &edits).unwrap()).unwrap()
}

fn yaml(text: &str) -> serde_yaml::Value {
    serde_yaml::from_str(text).unwrap()
}

#[test]
fn existing_settings_are_kept_and_sections_created() {
    let c = connector("whatsapp", 29318);
    let y = patched(&c, "homeserver:\n  address: http://old\n  async_media: true\nappservice:\n  as_token: T\n");
    assert_eq!(
        y["homeserver"],
        yaml("address: http://127.0.0.1:8008\nasync_media: true\ndomain: unibox.local\nsoftware: standard\n")
    );
    assert_eq!(
        y["appservice"],
        yaml("as_token: T\naddress: http://127.0.0.1:29318\nhostname: 127.0.0.1\nport: 29318\nid: unibox-whatsapp\n")
    );
    assert_eq!(
        y["database"],
        yaml("type: sqlite3-fk-wal\nuri: file:C:/data/bridge.db?_txlock=immediate\nmax_open_conns: 1\nmax_idle_conns: 1\n")
    );
    assert_eq!(y["bridge"], yaml("permissions:\n  '@unibox:unibox.local': admin\n"));
    for missing in ["matrix", "encryption", "provisioning"] {
        assert!(y.get(missing).is_none(), "{missing}");
    }
}

#[test]
fn existing_sections_are_merged() {
    let c = connector("signal", 29328);
    let y = patched(&c, "encryption:\n  allow: true\n  pickle_key: k\nbridge:\n  permissions:\n    '*': relay\nmatrix:\n  federate_rooms: true\n");
    assert_eq!(y["encryption"], yaml("allow: false\npickle_key: k\ndefault: false\n"));
    assert_eq!(y["bridge"]["permissions"], yaml("'@unibox:unibox.local': admin\n"));
    assert_eq!(y["matrix"], yaml("federate_rooms: false\n"));
}

#[test]
fn a_section_that_is_not_a_mapping_is_replaced_only_when_created() {
    let c = connector("signal", 29328);
    let y = patched(&c, "homeserver: 5\nprovisioning: off\n");
    assert_eq!(y["homeserver"]["domain"], yaml("unibox.local"));
    assert_eq!(y["provisioning"], yaml("off"));
}

#[test]
fn invalid_documents_are_refused() {
    let c = connector("signal", 29328);
    let edits = connector_config_edits(&c, "db", &ConnectorLocalSettings::empty()).unwrap();
    assert_eq!(patch_connector_yaml("a: [1, 2", &edits).unwrap_err(), "invalid connector config YAML");
    assert_eq!(patch_connector_yaml("- a\n- b\n", &edits).unwrap_err(), "connector config root is not a mapping");
}

#[test]
fn telegram_credentials_are_written_at_the_root() {
    let out = telegram_root_yaml("api_id: 1\nhomeserver:\n  address: x\n", 12345, "0123456789abcdef0123456789abcdef").unwrap();
    let y: serde_yaml::Value = serde_yaml::from_str(&out).unwrap();
    assert_eq!(y["api_id"], yaml("12345"));
    assert_eq!(y["api_hash"], yaml("0123456789abcdef0123456789abcdef"));
    assert_eq!(y["homeserver"]["address"], yaml("x"));
    assert!(telegram_root_yaml("a: [1", 1, "h").unwrap_err().starts_with("invalid Telegram config: "));
    assert_eq!(telegram_root_yaml("just text", 1, "h").unwrap_err(), "Telegram config root is not a mapping");
}
