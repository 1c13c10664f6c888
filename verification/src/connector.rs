//! Connector catalog lookups, BridgeV2 provisioning targets, Telegram
//! credential checks and the retry policy of connector installation.

use vstd::prelude::*;

use crate::model::ConnectorDefinition;
use crate::text::{
    all_hex, all_hex_digits, ascii_lower, decimal, has_prefix, owned, push_decimal, push_str,
    seq_contains, starts_with, str_contains, str_eq, to_ascii_lower, trim, trimmed,
};

verus! {

/// The views of a list of strings.
pub open spec fn strings_view(v: Seq<String>) -> Seq<Seq<char>> {
    v.map_values(|s: String| s@)
}

// ---------------------------------------------------------------------------
// Catalog
// ---------------------------------------------------------------------------

/// The catalog entry with the given id: the first one, or an error naming
/// the id when there is none.
pub fn find_connector<'a>(registry: &'a Vec<ConnectorDefinition>, id: &str) -> (r: Result<
    &'a ConnectorDefinition,
    String,
>)
    ensures
        match r {
            Ok(c) => exists|i: int|
                0 <= i < registry@.len() && registry@[i] == *c && c.id@ == id@ && forall|j: int|
                    0 <= j < i ==> registry@[j].id@ != id@,
            Err(m) => m@ == "unknown connector: "@ + id@ && forall|j: int|
                0 <= j < registry@.len() ==> registry@[j].id@ != id@,
        },
{
    let mut i: usize = 0;
    while i < registry.len()
        invariant
            i <= registry@.len(),
            forall|j: int| 0 <= j < i ==> registry@[j].id@ != id@,
        decreases registry.len() - i,
    {
        if str_eq(registry[i].id.as_str(), id) {
            return Ok(&registry[i]);
        }
        i += 1;
    }
    let mut m = owned("unknown connector: ");
    push_str(&mut m, id);
    Err(m)
}

/// Whether the connector runs through the native BridgeV2 adapter
/// (`bridgev2` or `source-go`).
pub open spec fn native_bridge_adapter(adapter: Seq<char>) -> bool {
    adapter == "bridgev2"@ || adapter == "source-go"@
}

/// Whether a connector uses a native bridge adapter.
pub fn is_native_bridge(connector: &ConnectorDefinition) -> (r: bool)
    ensures
        r == native_bridge_adapter(connector.adapter@),
{
    str_eq(connector.adapter.as_str(), "bridgev2") || str_eq(connector.adapter.as_str(), "source-go")
}

/// The positions, in order, of the catalog entries that this build offers:
/// native bridges whose executable is bundled (`bundled[i]` for entry `i`).
pub open spec fn offered_positions(registry: Seq<ConnectorDefinition>, bundled: Seq<bool>) -> Seq<usize>
    decreases registry.len(),
{
    if registry.len() == 0 {
        seq![]
    } else {
        let k = (registry.len() - 1) as int;
        offered_positions(registry.drop_last(), bundled) + if native_bridge_adapter(
            registry[k].adapter@,
        ) && bundled[k] {
            seq![k as usize]
        } else {
            seq![]
        }
    }
}

/// The catalog entries that this build offers, by position: a service is
/// shown only when it uses a native bridge adapter and its executable is
/// bundled.
pub fn offered_connectors(registry: &Vec<ConnectorDefinition>, bundled: &Vec<bool>) -> (r: Vec<usize>)
    requires
        bundled@.len() == registry@.len(),
    ensures
        r@ == offered_positions(registry@, bundled@),
{
    let mut out: Vec<usize> = Vec::new();
    let mut i: usize = 0;
    while i < registry.len()
        invariant
            bundled@.len() == registry@.len(),
            i <= registry@.len(),
            out@ == offered_positions(registry@.take(i as int), bundled@),
        decreases registry.len() - i,
    {
        proof {
            assert(registry@.take(i + 1).drop_last() =~= registry@.take(i as int));
        }
        if is_native_bridge(&registry[i]) && bundled[i] {
            out.push(i);
        }
        i += 1;
    }
    proof {
        assert(registry@.take(registry@.len() as int) =~= registry@);
    }
    out
}

// ---------------------------------------------------------------------------
// BridgeV2 provisioning
// ---------------------------------------------------------------------------

/// `http://127.0.0.1:<port>/_matrix/provision`.
pub open spec fn provision_base(port: u16) -> Seq<char> {
    "http://127.0.0.1:"@ + decimal(port as nat) + "/_matrix/provision"@
}

/// The provisioning API of the bridge listening on `port`.
pub fn provisioning_url(port: u16) -> (r: String)
    ensures
        r@ == provision_base(port),
{
    let mut s = owned("http://127.0.0.1:");
    push_decimal(&mut s, port as u64);
    push_str(&mut s, "/_matrix/provision");
    s
}

/// A request path with a leading `/`.
pub open spec fn rooted(path: Seq<char>) -> Seq<char> {
    if has_prefix(path, "/"@) {
        path
    } else {
        "/"@ + path
    }
}

/// The URL of a provisioning call: the bridge's provisioning API followed
/// by the path, a `/` put in front of it when missing.
pub fn provision_target(port: u16, path: &str) -> (r: String)
    ensures
        r@ == provision_base(port) + rooted(path@),
{
    let mut s = provisioning_url(port);
    if !starts_with(path, "/") {
        push_str(&mut s, "/");
    }
    push_str(&mut s, path);
    proof {
        if !has_prefix(path@, "/"@) {
            assert(provision_base(port) + ("/"@ + path@) =~= provision_base(port) + "/"@ + path@);
        }
    }
    s
}

/// Whether a provisioning method is acceptable (`Method::from_bytes`).
pub fn provisioning_method_valid(method: &str) -> (r: bool)
    ensures
        r == crate::http_client::is_token(method@),
{
    crate::http_client::method_accepted(method)
}

/// A successful HTTP status (`StatusCode::is_success`).
pub open spec fn is_success(status: u16) -> bool {
    200 <= status && status <= 299
}

/// What a provisioning response body stands for.
pub enum ProvisionBody {
    /// Only white space: an empty JSON object.
    Empty,
    /// JSON, taken as it is.
    Json,
    /// Not JSON: wrapped as `{"raw": <text>}`.
    Raw,
}

/// Whether `serde_json` accepts the text as a JSON value.
pub uninterp spec fn spec_is_json(text: Seq<char>) -> bool;

/// Whether `serde_json::from_str::<serde_json::Value>` accepts the text.
/// The contract names the outcome; the JSON grammar is left to the crate.
#[verifier::external_body]
fn json_accepts(text: &str) -> (r: bool)
    ensures
        r == spec_is_json(text@),
{
    serde_json::from_str::<serde_json::Value>(text).is_ok()
}

/// Classifies a provisioning response body.
pub fn provision_body(text: &str) -> (r: ProvisionBody)
    ensures
        trimmed(text@).len() == 0 ==> r is Empty,
        trimmed(text@).len() != 0 && spec_is_json(text@) ==> r is Json,
        trimmed(text@).len() != 0 && !spec_is_json(text@) ==> r is Raw,
{
    let t = trim(text);
    if t.as_str().is_empty() {
        ProvisionBody::Empty
    } else if json_accepts(text) {
        ProvisionBody::Json
    } else {
        ProvisionBody::Raw
    }
}

/// The outcome of a provisioning call: a successful status passes the
/// response on; any other fails quoting the status and the response body.
pub fn provision_outcome(success: bool, status: &str, body: &str) -> (r: Result<(), String>)
    ensures
        success ==> r is Ok,
        !success ==> (r matches Err(m) && m@ == "bridge provisioning returned "@ + status@ + ": "@
            + body@),
{
    if success {
        return Ok(());
    }
    let mut m = owned("bridge provisioning returned ");
    push_str(&mut m, status);
    push_str(&mut m, ": ");
    push_str(&mut m, body);
    Err(m)
}

// ---------------------------------------------------------------------------
// Telegram credentials
// ---------------------------------------------------------------------------

/// A Telegram API hash: 32 hexadecimal characters.
pub open spec fn is_api_hash(s: Seq<char>) -> bool {
    s.len() == 32 && all_hex(s)
}

/// Whether a text is 32 hexadecimal characters.
pub fn api_hash_valid(s: &str) -> (r: bool)
    ensures
        r == is_api_hash(s@),
{
    let v = crate::text::chars_of(s);
    v.len() == 32 && all_hex_digits(s)
}

/// The Telegram credentials to write into a connector's configuration
/// root, from the locally stored settings: a positive API id and an API
/// hash that is 32 hexadecimal characters once trimmed.
pub fn telegram_root_credentials(api_id: Option<i64>, api_hash: Option<&str>) -> (r: Result<
    (i64, String),
    String,
>)
    ensures
        !(api_id matches Some(id) && id > 0) ==> (r matches Err(m) && m@
            == "Telegram API ID is not configured"@),
        (api_id matches Some(id) && id > 0) && !(api_hash matches Some(h) && is_api_hash(
            trimmed(h@),
        )) ==> (r matches Err(m) && m@ == "Telegram API hash is not configured"@),
        (api_id matches Some(id) && id > 0) && (api_hash matches Some(h) && is_api_hash(
            trimmed(h@),
        )) ==> r is Ok,
        r matches Ok((id, hash)) ==> (api_id == Some(id) && id > 0 && (api_hash matches Some(h)
            && hash@ == trimmed(h@) && is_api_hash(hash@))),
{
    let id = match api_id {
        Some(v) => {
            if v > 0 {
                v
            } else {
                return Err(owned("Telegram API ID is not configured"));
            }
        },
        None => return Err(owned("Telegram API ID is not configured")),
    };
    let hash = match api_hash {
        Some(h) => {
            let t = trim(h);
            if api_hash_valid(t.as_str()) {
                t
            } else {
                return Err(owned("Telegram API hash is not configured"));
            }
        },
        None => return Err(owned("Telegram API hash is not configured")),
    };
    Ok((id, hash))
}

// ---------------------------------------------------------------------------
// Installation retries
// ---------------------------------------------------------------------------

/// How many times connector installation is attempted.
pub const INSTALL_ATTEMPTS: u64 = 6;

/// An installation error that a missing Telegram API id or hash caused.
pub open spec fn telegram_credentials_missing(lower: Seq<char>) -> bool {
    seq_contains(lower, "api_hash is required"@) || seq_contains(lower, "api_id is required"@)
}

/// An installation error that a file held open by another process caused,
/// which goes away by itself.
pub open spec fn transient_lock(lower: Seq<char>) -> bool {
    ||| seq_contains(lower, "being used by another process"@)
    ||| seq_contains(lower, "process cannot access the file"@)
    ||| seq_contains(lower, "os error 32"@)
    ||| seq_contains(lower, "sharing violation"@)
}

/// Exactly four phrases mark a file held open by another process, in an
/// error text lower-cased: `being used by another process`, `process cannot
/// access the file`, `os error 32` and `sharing violation`.
pub proof fn transient_lock_phrases(lower: Seq<char>)
    ensures
        transient_lock(lower) <==> (seq_contains(lower, "being used by another process"@)
            || seq_contains(lower, "process cannot access the file"@) || seq_contains(
            lower,
            "os error 32"@,
        ) || seq_contains(lower, "sharing violation"@)),
{
}

/// What to do after an installation attempt failed.
pub enum InstallDecision {
    /// Rewrite the Telegram credentials into the configuration, wait, retry.
    RepairTelegram { delay_ms: u64 },
    /// Wait, then retry.
    Retry { delay_ms: u64 },
    /// Stop with this error.
    GiveUp(String),
}

/// The retry state of one connector installation.
pub struct InstallRetry {
    /// Attempts made so far.
    pub attempt: u64,
    /// Whether the Telegram credentials were already repaired once.
    pub telegram_repaired: bool,
    /// The last transient error.
    pub last_error: String,
}

impl InstallRetry {
    /// No attempt made yet.
    pub fn new() -> (r: InstallRetry)
        ensures
            r.attempt == 0,
            !r.telegram_repaired,
            r.last_error@.len() == 0,
    {
        InstallRetry { attempt: 0, telegram_repaired: false, last_error: String::new() }
    }

    /// Whether another attempt may be made.
    pub fn may_attempt(&self) -> (r: bool)
        ensures
            r == (self.attempt < INSTALL_ATTEMPTS),
    {
        self.attempt < INSTALL_ATTEMPTS
    }

    /// Decides what follows a failed attempt with error `message`. The
    /// Telegram credentials are repaired at most once; file-lock errors are
    /// retried after 300 ms times the attempt's number; any other error
    /// ends the installation with that error.
    pub fn on_error(self, connector_id: &str, message: &str) -> (r: (InstallRetry, InstallDecision))
        requires
            self.attempt < INSTALL_ATTEMPTS,
        ensures
            ({
                let lower = ascii_lower(message@);
                if connector_id@ == "telegram"@ && !self.telegram_repaired
                    && telegram_credentials_missing(lower) {
                    &&& r.1 == InstallDecision::RepairTelegram { delay_ms: 250 }
                    &&& r.0.telegram_repaired
                    &&& r.0.attempt == self.attempt + 1
                    &&& r.0.last_error == self.last_error
                } else if transient_lock(lower) {
                    &&& r.1 matches InstallDecision::Retry { delay_ms } && delay_ms == 300 * (
                        self.attempt + 1)
                    &&& r.0.telegram_repaired == self.telegram_repaired
                    &&& r.0.attempt == self.attempt + 1
                    &&& r.0.last_error@ == message@
                } else {
                    &&& r.1 matches InstallDecision::GiveUp(m) && m@ == message@
                    &&& r.0.attempt == self.attempt
                }
            }),
            ({
                let lower = ascii_lower(message@);
                !(connector_id@ == "telegram"@ && !self.telegram_repaired
                    && telegram_credentials_missing(lower))
                    && !seq_contains(lower, "being used by another process"@)
                    && !seq_contains(lower, "process cannot access the file"@)
                    && !seq_contains(lower, "os error 32"@)
                    && !seq_contains(lower, "sharing violation"@)
                    ==> (r.1 matches InstallDecision::GiveUp(m) && m@ == message@) && r.0.attempt == self.attempt
            }),
    {
        let lower = to_ascii_lower(message);
        let InstallRetry { attempt, telegram_repaired, last_error } = self;
        if str_eq(connector_id, "telegram") && !telegram_repaired && (str_contains(
            lower.as_str(),
            "api_hash is required",
        ) || str_contains(lower.as_str(), "api_id is required")) {
            let st = InstallRetry { attempt: attempt + 1, telegram_repaired: true, last_error };
            return (st, InstallDecision::RepairTelegram { delay_ms: 250 });
        }
        let transient = str_contains(lower.as_str(), "being used by another process")
            || str_contains(lower.as_str(), "process cannot access the file") || str_contains(
            lower.as_str(),
            "os error 32",
        ) || str_contains(lower.as_str(), "sharing violation");
        if !transient {
            let st = InstallRetry { attempt, telegram_repaired, last_error };
            return (st, InstallDecision::GiveUp(owned(message)));
        }
        let delay = 300 * (attempt + 1);
        let st = InstallRetry { attempt: attempt + 1, telegram_repaired, last_error: owned(message) };
        (st, InstallDecision::Retry { delay_ms: delay })
    }

    /// The error reported once every attempt has failed.
    pub fn exhausted_message(&self, connector_name: &str) -> (r: String)
        ensures
            r@ == connector_name@
                + " connector setup could not complete after automatic retries. Details: "@
                + self.last_error@,
    {
        let mut m = owned(connector_name);
        push_str(
            &mut m,
            " connector setup could not complete after automatic retries. Details: ",
        );
        push_str(&mut m, self.last_error.as_str());
        m
    }
}

} // verus!
