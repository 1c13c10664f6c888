//! The values exchanged between the runtime managers and the desktop shell.

use vstd::prelude::*;

verus! {

/// The local Matrix account that the desktop client signs in with.
#[derive(Clone, Debug)]
pub struct MatrixSession {
    pub homeserver: String,
    pub user_id: String,
    pub access_token: String,
    pub device_id: Option<String>,
}

/// The state of the managed runtime, as shown to the desktop UI.
#[derive(Clone, Debug)]
pub struct RuntimeStatus {
    pub platform: String,
    pub wsl_available: bool,
    pub distro_installed: bool,
    pub distro_running: bool,
    pub synapse_ready: bool,
    pub matrix_session_ready: bool,
    pub data_root: String,
}

/// One entry of the connector catalog.
#[derive(Clone, Debug)]
pub struct ConnectorDefinition {
    pub id: String,
    pub name: String,
    pub category: String,
    pub repository: String,
    pub binary: String,
    pub asset_linux_amd64: String,
    pub port: u16,
    pub maturity: String,
    pub adapter: String,
    pub description: String,
    pub multi_account: bool,
    pub risk_notice: Option<String>,
    pub bot_localpart: Option<String>,
    pub legacy_login: Option<String>,
}

/// Whether a connector is installed and running, and where its BridgeV2
/// provisioning API listens.
#[derive(Clone, Debug)]
pub struct ConnectorStatus {
    pub id: String,
    pub installed: bool,
    pub running: bool,
    pub provisioning_url: Option<String>,
}

/// An HTTP request that a connector's login flow hands to the desktop
/// client. Each header name appears once, with all of its values; the body
/// is Base64.
#[derive(Clone, Debug)]
pub struct ClientHttpRequest {
    pub request_id: String,
    pub method: String,
    pub url: String,
    pub headers: Vec<(String, Vec<String>)>,
    pub body: Option<String>,
}

/// The answer to a [`ClientHttpRequest`]. Each header name appears once,
/// with all of its values in the order received; the body is Base64.
#[derive(Clone, Debug)]
pub struct ClientHttpResponse {
    pub status_code: u16,
    pub final_url: String,
    pub headers: Vec<(String, Vec<String>)>,
    pub body: String,
}

} // verus!
