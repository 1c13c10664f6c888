//! The managed WSL runtime: the commands run inside the `UniboxRuntime`
//! distribution, the reading of `wsl.exe` listings, and the status and
//! policy decisions made from their results.

use vstd::prelude::*;

use crate::connector::{provision_base, provision_target, provisioning_url, rooted, strings_view};
use crate::model::{ConnectorDefinition, ConnectorStatus, RuntimeStatus};
use crate::net::{
    any_private, is_allowed_remote_url, rejects_with, remote_url_allowed, resolution_is_public,
    resolve_step, resolves_host, IpAddress, RemoteCheck, RemoteUrl,
};
use crate::text::{
    chars_of, owned, push_str, str_eq, string_of_range, trim, trimmed,
};
use crate::{DISTRO_NAME, SYNAPSE_SERVICE};

verus! {

// ---------------------------------------------------------------------------
// wsl.exe listings
// ---------------------------------------------------------------------------

/// `s[i..j]` is a line of `s` as `str::lines` yields it: it holds no line
/// feed, starts the text or follows one, ends the text or precedes one,
/// and does not start at the very end.
pub open spec fn is_line(s: Seq<char>, i: int, j: int) -> bool {
    &&& 0 <= i <= j <= s.len()
    &&& i < s.len()
    &&& forall|k: int| i <= k < j ==> s[k] != '\n'
    &&& (i == 0 || s[i - 1] == '\n')
    &&& (j == s.len() || s[j] == '\n')
}

/// A listing line naming the distribution (`wsl.exe -l -q`).
pub open spec fn names_distro(line: Seq<char>) -> bool {
    trimmed(line) == DISTRO_NAME@
}

/// Some line of the text names the distribution.
pub open spec fn some_line(s: Seq<char>) -> bool {
    exists|i: int, j: int| is_line(s, i, j) && names_distro(#[trigger] s.subrange(i, j))
}

fn check_line(line: &str) -> (r: bool)
    ensures
        r == names_distro(line@),
{
    let t = trim(line);
    str_eq(t.as_str(), DISTRO_NAME)
}

proof fn lemma_line_start_unique(s: Seq<char>, i: int, st: int, j: int)
    requires
        is_line(s, i, j),
        0 <= st <= j,
        st == 0 || s[st - 1] == '\n',
        forall|k: int| st <= k < j ==> s[k] != '\n',
    ensures
        i == st,
{
    if i < st {
        assert(s[st - 1] != '\n');
    } else if i > st {
        assert(s[i - 1] != '\n');
    }
}

fn any_line(text: &str) -> (r: bool)
    ensures
        r == some_line(text@),
{
    let v = chars_of(text);
    let n = v.len();
    let ghost s = text@;
    let mut st: usize = 0;
    let mut k: usize = 0;
    while k < n
        invariant
            v@ == s,
            s == text@,
            n == s.len(),
            st <= k <= n,
            st == 0 || s[st - 1] == '\n',
            forall|m: int| st <= m < k ==> s[m] != '\n',
            forall|i: int, j: int|
                is_line(s, i, j) && j < st ==> !names_distro(#[trigger] s.subrange(i, j)),
        decreases n - k,
    {
        if v[k] == '\n' {
            let line = string_of_range(&v, st, k);
            if check_line(line.as_str()) {
                proof {
                    assert(is_line(s, st as int, k as int));
                }
                return true;
            }
            proof {
                assert forall|i: int, j: int|
                    is_line(s, i, j) && j < k + 1 implies !names_distro(#[trigger] s.subrange(i, j)) by {
                    if j >= st {
                        if j < k {
                            assert(s[j] == '\n');
                        }
                        lemma_line_start_unique(s, i, st as int, j);
                    }
                }
            }
            st = k + 1;
        }
        k += 1;
    }
    if st < n {
        let line = string_of_range(&v, st, n);
        if check_line(line.as_str()) {
            proof {
                assert(is_line(s, st as int, n as int));
            }
            return true;
        }
    }
    proof {
        assert forall|i: int, j: int| is_line(s, i, j) implies !names_distro(#[trigger] s.subrange(i, j)) by {
            if j >= st {
                if j < n {
                    assert(s[j] == '\n');
                }
                lemma_line_start_unique(s, i, st as int, j);
            }
        }
    }
    false
}

/// Whether a `wsl.exe -l -q` listing names the runtime distribution: some
/// line is `UniboxRuntime` once trimmed. Run on the listing of
/// `wsl.exe -l --running -q`, it tells whether the distribution is running
/// without reading any localized status word.
pub fn listing_has_distro(listing: &str) -> (r: bool)
    ensures
        r == some_line(listing@),
{
    any_line(listing)
}

// ---------------------------------------------------------------------------
// Commands
// ---------------------------------------------------------------------------

/// `wsl.exe` arguments that run the connector manager of the distribution.
pub open spec fn connector_manager_argv(op: Seq<Seq<char>>) -> Seq<Seq<char>> {
    seq!["-d"@, DISTRO_NAME@, "--"@, "/opt/unibox/bin/unibox-connector"@] + op
}

fn push_owned(v: &mut Vec<String>, s: &str)
    ensures
        strings_view(final(v)@) == strings_view(old(v)@).push(s@),
{
    v.push(owned(s));
    proof {
        assert(strings_view(v@) =~= strings_view(old(v)@).push(s@));
    }
}

fn connector_manager_prefix() -> (r: Vec<String>)
    ensures
        strings_view(r@) == connector_manager_argv(seq![]),
{
    let mut v: Vec<String> = Vec::new();
    push_owned(&mut v, "-d");
    push_owned(&mut v, DISTRO_NAME);
    push_owned(&mut v, "--");
    push_owned(&mut v, "/opt/unibox/bin/unibox-connector");
    proof {
        assert(strings_view(v@) =~= connector_manager_argv(seq![]));
    }
    v
}

/// `wsl.exe` arguments that install a connector:
/// `install <id> <adapter> <repository> <binary> <asset> <port>`.
pub fn install_connector_argv(connector: &ConnectorDefinition) -> (r: Vec<String>)
    ensures
        strings_view(r@) == connector_manager_argv(
            seq![
                "install"@,
                connector.id@,
                connector.adapter@,
                connector.repository@,
                connector.binary@,
                connector.asset_linux_amd64@,
                crate::text::decimal(connector.port as nat),
            ],
        ),
{
    let mut v = connector_manager_prefix();
    push_owned(&mut v, "install");
    push_owned(&mut v, connector.id.as_str());
    push_owned(&mut v, connector.adapter.as_str());
    push_owned(&mut v, connector.repository.as_str());
    push_owned(&mut v, connector.binary.as_str());
    push_owned(&mut v, connector.asset_linux_amd64.as_str());
    let port = crate::text::decimal_string(connector.port as u64);
    push_owned(&mut v, port.as_str());
    proof {
        assert(strings_view(v@) =~= connector_manager_argv(
            seq![
                "install"@,
                connector.id@,
                connector.adapter@,
                connector.repository@,
                connector.binary@,
                connector.asset_linux_amd64@,
                crate::text::decimal(connector.port as nat),
            ],
        ));
    }
    v
}

/// `wsl.exe` arguments that update a connector:
/// `update <id> <adapter> <repository> <binary> <asset>`.
pub fn update_connector_argv(connector: &ConnectorDefinition) -> (r: Vec<String>)
    ensures
        strings_view(r@) == connector_manager_argv(
            seq![
                "update"@,
                connector.id@,
                connector.adapter@,
                connector.repository@,
                connector.binary@,
                connector.asset_linux_amd64@,
            ],
        ),
{
    let mut v = connector_manager_prefix();
    push_owned(&mut v, "update");
    push_owned(&mut v, connector.id.as_str());
    push_owned(&mut v, connector.adapter.as_str());
    push_owned(&mut v, connector.repository.as_str());
    push_owned(&mut v, connector.binary.as_str());
    push_owned(&mut v, connector.asset_linux_amd64.as_str());
    proof {
        assert(strings_view(v@) =~= connector_manager_argv(
            seq![
                "update"@,
                connector.id@,
                connector.adapter@,
                connector.repository@,
                connector.binary@,
                connector.asset_linux_amd64@,
            ],
        ));
    }
    v
}

/// `wsl.exe` arguments that start (`start`) or stop (`stop`) a connector.
pub fn connector_service_argv(connector: &ConnectorDefinition, start: bool) -> (r: Vec<String>)
    ensures
        strings_view(r@) == connector_manager_argv(
            seq![if start { "start"@ } else { "stop"@ }, connector.id@],
        ),
{
    let mut v = connector_manager_prefix();
    if start {
        push_owned(&mut v, "start");
    } else {
        push_owned(&mut v, "stop");
    }
    push_owned(&mut v, connector.id.as_str());
    proof {
        assert(strings_view(v@) =~= connector_manager_argv(
            seq![if start { "start"@ } else { "stop"@ }, connector.id@],
        ));
    }
    v
}

/// `wsl.exe` arguments that run a shell command inside the distribution.
pub open spec fn shell_argv(shell: Seq<char>) -> Seq<Seq<char>> {
    seq!["-d"@, DISTRO_NAME@, "--"@, "bash"@, "-lc"@, shell]
}

/// The `wsl.exe` arguments that run `shell` in the distribution.
pub fn wsl_shell_argv(shell: &str) -> (r: Vec<String>)
    ensures
        strings_view(r@) == shell_argv(shell@),
{
    let mut v: Vec<String> = Vec::new();
    push_owned(&mut v, "-d");
    push_owned(&mut v, DISTRO_NAME);
    push_owned(&mut v, "--");
    push_owned(&mut v, "bash");
    push_owned(&mut v, "-lc");
    push_owned(&mut v, shell);
    proof {
        assert(strings_view(v@) =~= shell_argv(shell@));
    }
    v
}

/// The shell command that starts PostgreSQL and Synapse and reports
/// whether both are active.
pub fn start_services_shell() -> (r: String)
    ensures
        r@ == "systemctl start postgresql "@ + SYNAPSE_SERVICE@ + " && systemctl is-active postgresql "@
            + SYNAPSE_SERVICE@,
{
    let mut s = owned("systemctl start postgresql ");
    push_str(&mut s, SYNAPSE_SERVICE);
    push_str(&mut s, " && systemctl is-active postgresql ");
    push_str(&mut s, SYNAPSE_SERVICE);
    s
}

/// The shell test that a connector is installed: the `.installed` marker
/// for the legacy Python adapter, otherwise an executable binary.
pub open spec fn installed_probe(c: ConnectorDefinition) -> Seq<char> {
    if c.adapter@ == "python-legacy"@ {
        "test -f /opt/unibox/connectors/"@ + c.id@ + "/.installed"@
    } else {
        "test -x /opt/unibox/connectors/"@ + c.id@ + "/"@ + c.binary@
    }
}

/// The shell test that a connector is installed.
pub fn installed_probe_shell(connector: &ConnectorDefinition) -> (r: String)
    ensures
        r@ == installed_probe(*connector),
        connector.adapter@ == "python-legacy"@ ==> r@ == "test -f /opt/unibox/connectors/"@
            + connector.id@ + "/.installed"@,
        connector.adapter@ != "python-legacy"@ ==> r@ == "test -x /opt/unibox/connectors/"@
            + connector.id@ + "/"@ + connector.binary@,
{
    if str_eq(connector.adapter.as_str(), "python-legacy") {
        let mut s = owned("test -f /opt/unibox/connectors/");
        push_str(&mut s, connector.id.as_str());
        push_str(&mut s, "/.installed");
        s
    } else {
        let mut s = owned("test -x /opt/unibox/connectors/");
        push_str(&mut s, connector.id.as_str());
        push_str(&mut s, "/");
        push_str(&mut s, connector.binary.as_str());
        s
    }
}

/// Only the legacy Python adapter is recognised by its `.installed`
/// marker; every other connector is installed once its binary is an
/// executable file under `/opt/unibox/connectors/<id>/`.
pub proof fn installed_probe_by_adapter(c: ConnectorDefinition, probe: Seq<char>)
    requires
        probe == installed_probe(c),
    ensures
        c.adapter@ == "python-legacy"@ <==> probe == "test -f /opt/unibox/connectors/"@ + c.id@
            + "/.installed"@,
        c.adapter@ != "python-legacy"@ ==> probe == "test -x /opt/unibox/connectors/"@ + c.id@ + "/"@
            + c.binary@,
{
    let f = "test -f /opt/unibox/connectors/"@ + c.id@ + "/.installed"@;
    let x = "test -x /opt/unibox/connectors/"@ + c.id@ + "/"@ + c.binary@;
    reveal_strlit("test -f /opt/unibox/connectors/");
    reveal_strlit("test -x /opt/unibox/connectors/");
    if c.adapter@ != "python-legacy"@ {
        assert(x[6] != f[6]);
    }
}

/// The shell test that a connector's service is active.
pub fn running_probe_shell(connector: &ConnectorDefinition) -> (r: String)
    ensures
        r@ == "systemctl is-active --quiet unibox-"@ + connector.id@ + ".service"@,
{
    let mut s = owned("systemctl is-active --quiet unibox-");
    push_str(&mut s, connector.id.as_str());
    push_str(&mut s, ".service");
    s
}

/// The status of a connector of the WSL runtime, from the outcome of the
/// installed probe and of the service probe (which is only run when the
/// connector is installed). BridgeV2 connectors that are installed expose
/// their provisioning API.
pub fn connector_status(connector: &ConnectorDefinition, installed: bool, service_active: bool) -> (r: ConnectorStatus)
    ensures
        r.id@ == connector.id@,
        r.installed == installed,
        r.running == (installed && service_active),
        match r.provisioning_url {
            Some(u) => installed && connector.adapter@ == "bridgev2"@ && u@ == provision_base(
                connector.port,
            ),
            None => !(installed && connector.adapter@ == "bridgev2"@),
        },
{
    let provisioning = if installed && str_eq(connector.adapter.as_str(), "bridgev2") {
        Some(provisioning_url(connector.port))
    } else {
        None
    };
    ConnectorStatus {
        id: connector.id.clone(),
        installed,
        running: installed && service_active,
        provisioning_url: provisioning,
    }
}

/// The state of the WSL runtime from its probes: whether `wsl.exe` works,
/// whether the distribution is listed and shown running, whether Synapse
/// answers and whether the session file reads. A probe only counts when the
/// ones it depends on passed.
pub fn runtime_status(
    platform: &str,
    data_root: &str,
    wsl_available: bool,
    distro_listed: bool,
    distro_shown_running: bool,
    synapse_ready: bool,
    session_readable: bool,
) -> (r: RuntimeStatus)
    ensures
        r.platform@ == platform@,
        r.data_root@ == data_root@,
        r.wsl_available == wsl_available,
        r.distro_installed == (wsl_available && distro_listed),
        r.distro_running == (wsl_available && distro_listed && distro_shown_running),
        r.synapse_ready == synapse_ready,
        r.matrix_session_ready == (wsl_available && distro_listed && session_readable),
{
    let installed = wsl_available && distro_listed;
    RuntimeStatus {
        platform: owned(platform),
        wsl_available,
        distro_installed: installed,
        distro_running: installed && distro_shown_running,
        synapse_ready,
        matrix_session_ready: installed && session_readable,
        data_root: owned(data_root),
    }
}

// ---------------------------------------------------------------------------
// Provisioning and client HTTP
// ---------------------------------------------------------------------------

/// The URL of a BridgeV2 provisioning call, or the error for connectors
/// that do not use the BridgeV2 adapter.
pub fn provision_request_url(connector: &ConnectorDefinition, path: &str) -> (r: Result<String, String>)
    ensures
        connector.adapter@ == "bridgev2"@ ==> (r matches Ok(u) && u@ == provision_base(
            connector.port,
        ) + rooted(path@)),
        connector.adapter@ != "bridgev2"@ ==> (r matches Err(m) && m@ == connector.name@
            + " does not use the BridgeV2 provisioning API"@),
{
    if !str_eq(connector.adapter.as_str(), "bridgev2") {
        let mut m = owned(connector.name.as_str());
        push_str(&mut m, " does not use the BridgeV2 provisioning API");
        return Err(m);
    }
    Ok(provision_target(connector.port, path))
}

/// The remote-URL check of the WSL runtime. URLs outside the policy are
/// refused; an IPv4 host is accepted as it is; any other host is resolved
/// at the URL's port (IPv6 hosts keep their brackets, as the host text is
/// handed on unchanged).
pub fn ensure_public_remote_url(url: &RemoteUrl) -> (r: RemoteCheck)
    ensures
        !remote_url_allowed(url.parts()) ==> rejects_with(
            r,
            "connector client HTTP only permits public HTTPS URLs"@,
        ),
        remote_url_allowed(url.parts()) && (url.parts().4 matches Some(IpAddress::V4(_))) ==> r is Accept,
        remote_url_allowed(url.parts()) && !(url.parts().4 matches Some(IpAddress::V4(_)))
            ==> resolves_host(r, url.parts()),
        (r is Reject) <==> !remote_url_allowed(url.parts()),
{
    if !is_allowed_remote_url(url) {
        return RemoteCheck::Reject(owned("connector client HTTP only permits public HTTPS URLs"));
    }
    let host = match url.host() {
        Some(h) => h,
        None => return RemoteCheck::Reject(owned("connector client HTTP URL is missing a host")),
    };
    match url.ip() {
        Some(IpAddress::V4(_)) => RemoteCheck::Accept,
        _ => resolve_step(host, url.port()),
    }
}

/// The check of the addresses a host resolved to: there must be some, and
/// none may be private.
pub fn check_resolved_addresses(addrs: &Vec<IpAddress>) -> (r: Result<(), String>)
    ensures
        addrs@.len() == 0 ==> (r matches Err(m) && m@ == "connector HTTP host did not resolve"@),
        addrs@.len() > 0 && !resolution_is_public(addrs@) ==> (r matches Err(m) && m@
            == "connector client HTTP host resolves to a private or local address"@),
        r is Ok <==> resolution_is_public(addrs@),
{
    if addrs.len() == 0 {
        return Err(owned("connector HTTP host did not resolve"));
    }
    if any_private(addrs) {
        return Err(owned("connector client HTTP host resolves to a private or local address"));
    }
    Ok(())
}

} // verus!
