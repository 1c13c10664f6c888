//! Supervision of the native runtime's processes: when to launch the
//! homeserver or a connector, how long to wait for it, what to report when
//! it does not come up, how a connector is installed, and the steps that
//! create the local Matrix account.

use vstd::prelude::*;
use vstd::utf8::{decode_utf8, encode_utf8, is_char_boundary};

use crate::connector::native_bridge_adapter;
use crate::model::{ConnectorDefinition, MatrixSession};
use crate::native::{
    hex_lower, registration_mac, registration_payload_text, session_from_login,
    session_from_registration, session_of, spec_hmac_sha1, NativeSecrets,
};
use crate::output::{spec_utf8_lossy, utf8_lossy};
use crate::text::{owned, push_str};

verus! {

// ---------------------------------------------------------------------------
// Log excerpts
// ---------------------------------------------------------------------------

/// Where the excerpt of a log starts: `max` bytes before the end of its
/// UTF-8 encoding, or at its start when it is shorter.
pub open spec fn log_cut(text: Seq<char>, max: nat) -> int {
    let n = encode_utf8(text).len();
    if n > max {
        n - max
    } else {
        0
    }
}

/// The last `max` bytes of a log text, which must start on a character.
pub open spec fn log_tail_text(text: Seq<char>, max: nat) -> Seq<char> {
    let b = encode_utf8(text);
    decode_utf8(b.subrange(log_cut(text, max), b.len() as int))
}

/// `Last log output: ` followed by the last `max` bytes of the log text.
/// The cut must fall on a character boundary (slicing the text elsewhere
/// panics).
pub fn log_tail(text: &str, max: usize) -> (r: String)
    requires
        is_char_boundary(encode_utf8(text@), log_cut(text@, max as nat)),
    ensures
        r@ == "Last log output: "@ + log_tail_text(text@, max as nat),
{
    let n = text.as_bytes().len();
    let start = if n > max {
        n - max
    } else {
        0
    };
    let (_, tail) = text.split_at(start);
    proof {
        vstd::utf8::encode_utf8_decode_utf8(tail@);
    }
    let mut out = owned("Last log output: ");
    push_str(&mut out, tail);
    out
}

/// What the excerpt of a log says: a pointer to the logs when the log
/// could not be read, otherwise the tail of its text decoded with UTF-8
/// replacement characters.
pub open spec fn log_excerpt_text(log: Option<Seq<u8>>, max: nat) -> Seq<char> {
    match log {
        None => "See the Unibox native runtime logs for details."@,
        Some(b) => "Last log output: "@ + log_tail_text(spec_utf8_lossy(b), max),
    }
}

/// The excerpt of a log for an error message, from the log's bytes (`None`
/// when it could not be read). `None` when the cut falls inside a
/// character, where taking the tail of the text panics.
pub fn log_excerpt(log: Option<&[u8]>, max: usize) -> (r: Option<String>)
    ensures
        match log {
            None => r matches Some(s) && s@ == log_excerpt_text(None, max as nat),
            Some(b) => {
                let t = spec_utf8_lossy(b@);
                if is_char_boundary(encode_utf8(t), log_cut(t, max as nat)) {
                    r matches Some(s) && s@ == log_excerpt_text(Some(b@), max as nat)
                } else {
                    r is None
                }
            },
        },
{
    match log {
        None => Some(owned("See the Unibox native runtime logs for details.")),
        Some(b) => {
            let text = utf8_lossy(b);
            let n = text.as_str().as_bytes().len();
            let start = if n > max {
                n - max
            } else {
                0
            };
            if text.as_str().is_char_boundary(start) {
                Some(log_tail(text.as_str(), max))
            } else {
                None
            }
        },
    }
}

/// The error of a connector command that failed: its name and step, then
/// its standard output and standard error decoded with UTF-8 replacement
/// characters.
pub fn command_failure(name: &str, label: &str, stdout: &[u8], stderr: &[u8]) -> (r: String)
    ensures
        r@ == name@ + " "@ + label@ + " failed: "@ + spec_utf8_lossy(stdout@) + spec_utf8_lossy(
            stderr@,
        ),
{
    let out = utf8_lossy(stdout);
    let err = utf8_lossy(stderr);
    let mut m = owned(name);
    push_str(&mut m, " ");
    push_str(&mut m, label);
    push_str(&mut m, " failed: ");
    push_str(&mut m, out.as_str());
    push_str(&mut m, err.as_str());
    m
}

// ---------------------------------------------------------------------------
// Launching processes
// ---------------------------------------------------------------------------

/// What to do about a process that should be running.
pub enum LaunchDecision {
    /// It already answers: report this.
    AlreadyRunning(String),
    /// It cannot be launched: fail with this error.
    Refuse(String),
    /// Spawn it, then wait for it to answer.
    Launch,
}

/// Whether to launch the homeserver: not when it already answers, and not
/// when its bundled executable (at `engine_path`) is missing.
pub fn homeserver_launch(ready: bool, engine_present: bool, engine_path: &str) -> (r: LaunchDecision)
    ensures
        ready ==> (r matches LaunchDecision::AlreadyRunning(m) && m@
            == "Native Matrix runtime is already running."@),
        !ready && !engine_present ==> (r matches LaunchDecision::Refuse(m) && m@
            == "The bundled native Matrix engine is missing ("@ + engine_path@
            + "). Reinstall Unibox using a complete native-runtime build."@),
        !ready && engine_present ==> r is Launch,
{
    if ready {
        return LaunchDecision::AlreadyRunning(owned("Native Matrix runtime is already running."));
    }
    if !engine_present {
        let mut m = owned("The bundled native Matrix engine is missing (");
        push_str(&mut m, engine_path);
        push_str(&mut m, "). Reinstall Unibox using a complete native-runtime build.");
        return LaunchDecision::Refuse(m);
    }
    LaunchDecision::Launch
}

/// Whether to launch a connector: it must be a native bridge whose
/// executable is bundled; not when its port already answers; and not
/// before its configuration is written.
pub fn connector_launch(
    connector: &ConnectorDefinition,
    executable_present: bool,
    config_present: bool,
    port_open: bool,
) -> (r: LaunchDecision)
    ensures
        !native_bridge_adapter(connector.adapter@) ==> (r matches LaunchDecision::Refuse(m) && m@
            == connector.name@ + " is not using the native BridgeV2 adapter in this Windows build."@),
        native_bridge_adapter(connector.adapter@) && !executable_present ==> (
        r matches LaunchDecision::Refuse(m) && m@ == connector.name@
            + " native connector binary is not bundled in this build."@),
        native_bridge_adapter(connector.adapter@) && executable_present && port_open ==> (
        r matches LaunchDecision::AlreadyRunning(m) && m@ == connector.name@
            + " connector is already running."@),
        native_bridge_adapter(connector.adapter@) && executable_present && !port_open
            && !config_present ==> (r matches LaunchDecision::Refuse(m) && m@ == connector.name@
            + " native connector is not installed."@),
        native_bridge_adapter(connector.adapter@) && executable_present && !port_open
            && config_present ==> r is Launch,
{
    match crate::native::require_native_connector(connector, executable_present) {
        Err(m) => return LaunchDecision::Refuse(m),
        Ok(()) => {},
    }
    if port_open {
        let mut m = owned(connector.name.as_str());
        push_str(&mut m, " connector is already running.");
        return LaunchDecision::AlreadyRunning(m);
    }
    if !executable_present || !config_present {
        let mut m = owned(connector.name.as_str());
        push_str(&mut m, " native connector is not installed.");
        return LaunchDecision::Refuse(m);
    }
    LaunchDecision::Launch
}

// ---------------------------------------------------------------------------
// Installing a connector
// ---------------------------------------------------------------------------

/// How to install a native connector. The caller goes through the steps in
/// this order: start the homeserver when asked; fail with
/// `missing_message` if the executable has gone; generate the example
/// configuration when asked; apply the configuration edits; remove the
/// stale registration when asked; generate the registration; copy it into
/// the homeserver's appservice directory as `registration_file`; restart
/// the homeserver so that it loads it; start the connector; report
/// `installed_message`.
pub struct InstallPlan {
    pub start_homeserver: bool,
    pub generate_config: bool,
    pub remove_registration: bool,
    pub registration_file: String,
    pub missing_message: String,
    pub installed_message: String,
}

/// Plans the installation of a connector from the state found: it must be
/// a native bridge whose executable is bundled; the homeserver is started
/// when it does not answer, the example configuration generated when
/// there is none, and an old registration removed before a new one is made.
pub fn install_plan(
    connector: &ConnectorDefinition,
    executable_present: bool,
    homeserver_ready: bool,
    config_present: bool,
    registration_present: bool,
) -> (r: Result<InstallPlan, String>)
    ensures
        !native_bridge_adapter(connector.adapter@) ==> (r matches Err(m) && m@ == connector.name@
            + " is not using the native BridgeV2 adapter in this Windows build."@),
        native_bridge_adapter(connector.adapter@) && !executable_present ==> (r matches Err(m)
            && m@ == connector.name@ + " native connector binary is not bundled in this build."@),
        native_bridge_adapter(connector.adapter@) && executable_present ==> (r matches Ok(p) && {
            &&& p.start_homeserver == !homeserver_ready
            &&& p.generate_config == !config_present
            &&& p.remove_registration == registration_present
            &&& p.registration_file@ == "unibox-"@ + connector.id@ + ".yaml"@
            &&& p.missing_message@ == connector.name@
                + " is not included in this native Windows build yet."@
            &&& p.installed_message@ == connector.name@ + " native connector installed."@
        }),
{
    crate::native::require_native_connector(connector, executable_present)?;
    let mut file = owned("unibox-");
    push_str(&mut file, connector.id.as_str());
    push_str(&mut file, ".yaml");
    let mut missing = owned(connector.name.as_str());
    push_str(&mut missing, " is not included in this native Windows build yet.");
    let mut installed = owned(connector.name.as_str());
    push_str(&mut installed, " native connector installed.");
    Ok(InstallPlan {
        start_homeserver: !homeserver_ready,
        generate_config: !config_present,
        remove_registration: registration_present,
        registration_file: file,
        missing_message: missing,
        installed_message: installed,
    })
}

// ---------------------------------------------------------------------------
// Waiting for a launched process
// ---------------------------------------------------------------------------

/// What follows a readiness probe.
pub enum WaitStep {
    /// The process answers: report this.
    Ready(String),
    /// Sleep this long, then probe again if the wait allows it.
    Sleep { delay_ms: u64 },
}

/// The wait for a launched process to answer: a bounded number of probes,
/// each failed one followed by a fixed sleep; the process is stopped and
/// its log excerpt reported when every probe failed.
pub struct ReadinessWait {
    /// Probes made so far.
    pub probes: u32,
    /// How many probes are made at most.
    pub limit: u32,
    pub delay_ms: u64,
    /// How many bytes of the log the failure message quotes.
    pub log_limit: usize,
    pub ready_message: String,
    pub failure_prefix: String,
}

impl ReadinessWait {
    /// The wait for the homeserver: 60 probes half a second apart, quoting
    /// 5000 bytes of its log.
    pub fn homeserver() -> (r: ReadinessWait)
        ensures
            r.probes == 0,
            r.limit == 60,
            r.delay_ms == 500,
            r.log_limit == 5000,
            r.ready_message@ == "Native Matrix runtime started."@,
            r.failure_prefix@ == "The native Matrix engine did not become ready. "@,
    {
        ReadinessWait {
            probes: 0,
            limit: 60,
            delay_ms: 500,
            log_limit: 5000,
            ready_message: owned("Native Matrix runtime started."),
            failure_prefix: owned("The native Matrix engine did not become ready. "),
        }
    }

    /// The wait for a connector: 40 probes a quarter second apart, quoting
    /// 4000 bytes of its log.
    pub fn connector(name: &str) -> (r: ReadinessWait)
        ensures
            r.probes == 0,
            r.limit == 40,
            r.delay_ms == 250,
            r.log_limit == 4000,
            r.ready_message@ == name@ + " connector started."@,
            r.failure_prefix@ == name@ + " connector did not become ready. "@,
    {
        let mut ready = owned(name);
        push_str(&mut ready, " connector started.");
        let mut failure = owned(name);
        push_str(&mut failure, " connector did not become ready. ");
        ReadinessWait {
            probes: 0,
            limit: 40,
            delay_ms: 250,
            log_limit: 4000,
            ready_message: ready,
            failure_prefix: failure,
        }
    }

    /// Whether another probe may be made.
    pub fn may_probe(&self) -> (r: bool)
        ensures
            r == (self.probes < self.limit),
    {
        self.probes < self.limit
    }

    /// Takes the outcome of a probe.
    pub fn on_probe(self, ready: bool) -> (r: (ReadinessWait, WaitStep))
        requires
            self.probes < self.limit,
        ensures
            r.0.probes == self.probes + 1,
            r.0.limit == self.limit,
            r.0.delay_ms == self.delay_ms,
            r.0.log_limit == self.log_limit,
            r.0.ready_message == self.ready_message,
            r.0.failure_prefix == self.failure_prefix,
            ready ==> (r.1 matches WaitStep::Ready(m) && m@ == self.ready_message@),
            !ready ==> r.1 == (WaitStep::Sleep { delay_ms: self.delay_ms }),
    {
        let ReadinessWait { probes, limit, delay_ms, log_limit, ready_message, failure_prefix } = self;
        let step = if ready {
            WaitStep::Ready(ready_message.clone())
        } else {
            WaitStep::Sleep { delay_ms }
        };
        (ReadinessWait { probes: probes + 1, limit, delay_ms, log_limit, ready_message, failure_prefix }, step)
    }

    /// The error once every probe failed: the failure prefix and the log
    /// excerpt (`None` where taking the excerpt panics).
    pub fn timed_out(&self, log: Option<&[u8]>) -> (r: Option<String>)
        ensures
            match log {
                None => r matches Some(s) && s@ == self.failure_prefix@ + log_excerpt_text(None, self.log_limit as nat),
                Some(b) => {
                    let t = spec_utf8_lossy(b@);
                    if is_char_boundary(encode_utf8(t), log_cut(t, self.log_limit as nat)) {
                        r matches Some(s) && s@ == self.failure_prefix@ + log_excerpt_text(Some(b@), self.log_limit as nat)
                    } else {
                        r is None
                    }
                },
            },
    {
        match log_excerpt(log, self.log_limit) {
            Some(e) => {
                let mut m = self.failure_prefix.clone();
                push_str(&mut m, e.as_str());
                Some(m)
            },
            None => None,
        }
    }
}

// ---------------------------------------------------------------------------
// The local Matrix account
// ---------------------------------------------------------------------------

/// The MAC that authenticates a shared-secret registration with `nonce`
/// under the runtime's secrets.
pub open spec fn registration_mac_text(secrets: NativeSecrets, nonce: Seq<char>) -> Seq<char> {
    hex_lower(
        spec_hmac_sha1(
            encode_utf8(secrets.registration_shared_secret@),
            encode_utf8(registration_payload_text(nonce, secrets.matrix_password@)),
        ),
    )
}

/// The registration to send once the homeserver answered the nonce
/// request (with status `status`): its nonce and MAC. The request must
/// have succeeded and carried a nonce.
pub fn registration_request(secrets: &NativeSecrets, nonce_ok: bool, status: &str, nonce: Option<&str>) -> (r: Result<(String, String), String>)
    ensures
        !nonce_ok ==> (r matches Err(m) && m@ == "local Matrix nonce request failed with "@ + status@),
        nonce_ok && nonce is None ==> (r matches Err(m) && m@ == "local Matrix registration nonce is missing"@),
        nonce_ok && nonce is Some ==> (r matches Ok((n, mac)) && n@ == nonce->0@ && mac@
            == registration_mac_text(*secrets, n@)),
{
    if !nonce_ok {
        let mut m = owned("local Matrix nonce request failed with ");
        push_str(&mut m, status);
        return Err(m);
    }
    let n = match nonce {
        Some(n) => n,
        None => return Err(owned("local Matrix registration nonce is missing")),
    };
    let mac = registration_mac(
        secrets.registration_shared_secret.as_str(),
        n,
        secrets.matrix_password.as_str(),
    );
    Ok((owned(n), mac))
}

/// The session from the registration response, or `None` when the
/// registration failed and the existing account is logged in to instead
/// (after an interrupted install the account may already exist).
pub fn registration_outcome(
    success: bool,
    user_id: Option<&str>,
    access_token: Option<&str>,
    device_id: Option<&str>,
) -> (r: Option<Result<MatrixSession, String>>)
    ensures
        !success ==> r is None,
        success ==> (r matches Some(s) && session_of(s, "registration"@, user_id, access_token, device_id)),
{
    if success {
        Some(session_from_registration(user_id, access_token, device_id))
    } else {
        None
    }
}

/// The session from the login response (with status `status` and body
/// `body`), which must have succeeded.
pub fn login_outcome(
    success: bool,
    status: &str,
    body: &str,
    user_id: Option<&str>,
    access_token: Option<&str>,
    device_id: Option<&str>,
) -> (r: Result<MatrixSession, String>)
    ensures
        !success ==> (r matches Err(m) && m@ == "local Matrix identity provisioning failed with "@
            + status@ + ": "@ + body@),
        success ==> session_of(r, "login"@, user_id, access_token, device_id),
{
    if !success {
        let mut m = owned("local Matrix identity provisioning failed with ");
        push_str(&mut m, status);
        push_str(&mut m, ": ");
        push_str(&mut m, body);
        return Err(m);
    }
    session_from_login(user_id, access_token, device_id)
}

} // verus!
