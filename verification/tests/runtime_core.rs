use unibox_core::net::{is_allowed_remote_url, RemoteUrl};
use unibox_core::output::decode_output;
use unibox_core::SYNAPSE_SERVICE;

#[test]
fn remote_url_policy_blocks_local_targets() {
    for value in [
        "http://example.com",
        "https://localhost/test",
        "https://service.local/test",
        "https://127.0.0.1/test",
        "https://10.0.0.1/test",
        "https://169.254.1.1/test",
        "https://[::1]/test",
        "https://[fc00::1]/test",
    ] {
        let url = RemoteUrl::parse(value).unwrap();
        assert!(!is_allowed_remote_url(&url), "should block {value}");
    }
}

#[test]
fn remote_url_policy_allows_public_https_targets() {
    for value in ["https://example.com", "https://8.8.8.8/dns-query"] {
        let url = RemoteUrl::parse(value).unwrap();
        assert!(is_allowed_remote_url(&url), "should allow {value}");
    }
}

#[test]
fn utf16_output_decoder_handles_wsl_listing() {
    let text = "UniboxRuntime\r\n";
    let bytes: Vec<u8> = text
        .encode_utf16()
        .flat_map(|word| word.to_le_bytes())
        .collect();
    assert_eq!(decode_output(&bytes), text);
}

#[test]
fn synapse_service_name_matches_managed_runtime() {
    assert_eq!(SYNAPSE_SERVICE, "unibox-synapse");
}
