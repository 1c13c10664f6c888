//! The bundled native runtime: the Tuwunel homeserver configuration, the
//! local Matrix identity, connector settings and configuration patches, and
//! the status and policy decisions made from the results of its probes.

use vstd::prelude::*;

use hmac::Mac;
use rand::Rng;

use crate::connector::{
    is_api_hash, is_native_bridge, native_bridge_adapter, provision_base, provisioning_url,
};
use crate::model::{ConnectorDefinition, ConnectorStatus, MatrixSession, RuntimeStatus};
use crate::net::{
    any_private, ip_is_private, is_private_ip, rejects_with, remote_url_allowed,
    resolution_is_public, resolve_step, resolves_host, IpAddress, RemoteCheck, RemoteUrl,
};
use crate::text::{
    ascii_lower, chars_of, ends_with, has_prefix, has_suffix, occurs_at, owned, parse_i64,
    parse_i64_spec, push_char, push_str, replace_char, replace_char_exec, seq_contains,
    starts_with, str_eq, string_of_range, to_ascii_lower, trim, trimmed,
};
use crate::MATRIX_URL;

verus! {

/// The local Matrix user of the desktop client.
pub const MATRIX_USER: &'static str = "unibox";

// ---------------------------------------------------------------------------
// Paths
// ---------------------------------------------------------------------------

/// The prefix of an extended-length UNC path, `\\?\UNC\`.
pub open spec fn unc_prefix() -> Seq<char> {
    seq!['\\', '\\', '?', '\\', 'U', 'N', 'C', '\\']
}

/// The prefix of an extended-length path, `\\?\`.
pub open spec fn verbatim_prefix() -> Seq<char> {
    seq!['\\', '\\', '?', '\\']
}

/// A Windows path without its extended-length prefix: `\\?\UNC\server\x`
/// becomes `\\server\x`, `\\?\C:\x` becomes `C:\x`, other paths stay.
pub open spec fn normalized_windows_path(p: Seq<char>) -> Seq<char> {
    if has_prefix(p, unc_prefix()) {
        seq!['\\', '\\'] + p.skip(8)
    } else if has_prefix(p, verbatim_prefix()) {
        p.skip(4)
    } else {
        p
    }
}

/// Removes the extended-length prefix from a Windows path.
pub fn normalize_windows_path(path: &str) -> (r: String)
    ensures
        r@ == normalized_windows_path(path@),
{
    let v = chars_of(path);
    if starts_with(path, "\\\\?\\UNC\\") {
        proof {
            reveal_strlit("\\\\?\\UNC\\");
            assert("\\\\?\\UNC\\"@ =~= unc_prefix());
        }
        let mut out = String::new();
        push_char(&mut out, '\\');
        push_char(&mut out, '\\');
        let rest = string_of_range(&v, 8, v.len());
        push_str(&mut out, rest.as_str());
        proof {
            assert(out@ =~= seq!['\\', '\\'] + path@.skip(8));
        }
        out
    } else if starts_with(path, "\\\\?\\") {
        proof {
            reveal_strlit("\\\\?\\UNC\\");
            reveal_strlit("\\\\?\\");
            assert("\\\\?\\UNC\\"@ =~= unc_prefix());
            assert("\\\\?\\"@ =~= verbatim_prefix());
        }
        let rest = string_of_range(&v, 4, v.len());
        proof {
            assert(rest@ =~= path@.skip(4));
        }
        rest
    } else {
        proof {
            reveal_strlit("\\\\?\\UNC\\");
            reveal_strlit("\\\\?\\");
            assert("\\\\?\\UNC\\"@ =~= unc_prefix());
            assert("\\\\?\\"@ =~= verbatim_prefix());
            if has_prefix(path@, unc_prefix()) {
                assert(path@.subrange(0, 4) =~= path@.subrange(0, 8).subrange(0, 4));
            }
        }
        owned(path)
    }
}

/// A path with forward slashes only.
pub open spec fn slashed(p: Seq<char>) -> Seq<char> {
    replace_char(p, '\\', seq!['/'])
}

/// A path written with forward slashes, as Tuwunel and SQLite URIs expect.
pub fn slash_path(path: &str) -> (r: String)
    ensures
        r@ == slashed(path@),
{
    proof {
        reveal_strlit("/");
        assert("/"@ =~= seq!['/']);
    }
    replace_char_exec(path, '\\', "/")
}

// ---------------------------------------------------------------------------
// The Tuwunel configuration
// ---------------------------------------------------------------------------

/// The escaped form of one character in a TOML basic string.
pub open spec fn toml_escape_char(c: char) -> Seq<char> {
    if c == '\\' {
        seq!['\\', '\\']
    } else if c == '"' {
        seq!['\\', '"']
    } else {
        seq![c]
    }
}

/// A text escaped for a TOML basic string: backslashes and quotes get a
/// backslash in front.
pub open spec fn toml_escaped(s: Seq<char>) -> Seq<char>
    decreases s.len(),
{
    if s.len() == 0 {
        seq![]
    } else {
        toml_escaped(s.drop_last()) + toml_escape_char(s.last())
    }
}

/// Escapes backslashes and quotes for a TOML basic string.
pub fn toml_escape(value: &str) -> (r: String)
    ensures
        r@ == toml_escaped(value@),
{
    let mut out = String::new();
    for c in it: value.chars()
        invariant
            it.seq() == value@,
            out@ == toml_escaped(value@.take(it.index() as int)),
    {
        proof {
            assert(value@.take(it.index() + 1).drop_last() =~= value@.take(it.index() as int));
        }
        if c == '\\' {
            push_char(&mut out, '\\');
            push_char(&mut out, '\\');
        } else if c == '"' {
            push_char(&mut out, '\\');
            push_char(&mut out, '"');
        } else {
            push_char(&mut out, c);
        }
        proof {
            assert(out@ =~= toml_escaped(value@.take(it.index() + 1)));
        }
    }
    proof {
        assert(value@.take(value@.len() as int) =~= value@);
    }
    out
}

/// Reads a TOML basic string body back: a backslash takes the next
/// character literally.
pub open spec fn toml_unescaped(s: Seq<char>) -> Seq<char>
    decreases s.len(),
{
    if s.len() == 0 {
        seq![]
    } else if s[0] == '\\' && s.len() >= 2 {
        seq![s[1]] + toml_unescaped(s.skip(2))
    } else {
        seq![s[0]] + toml_unescaped(s.skip(1))
    }
}

/// The escaped text holds no quote that would end the TOML string.
pub open spec fn no_bare_quote(s: Seq<char>) -> bool
    decreases s.len(),
{
    if s.len() == 0 {
        true
    } else if s[0] == '\\' && s.len() >= 2 {
        no_bare_quote(s.skip(2))
    } else {
        s[0] != '"' && s[0] != '\\' && no_bare_quote(s.skip(1))
    }
}

proof fn lemma_toml_escaped_prepend(c: char, s: Seq<char>)
    ensures
        toml_escaped(seq![c] + s) == toml_escape_char(c) + toml_escaped(s),
    decreases s.len(),
{
    let cs = seq![c] + s;
    if s.len() == 0 {
        assert(cs.drop_last() =~= Seq::<char>::empty());
        assert(cs.last() == c);
        assert(toml_escaped(cs) == toml_escaped(cs.drop_last()) + toml_escape_char(cs.last()));
        assert(toml_escaped(Seq::<char>::empty()) == Seq::<char>::empty());
        assert(toml_escaped(cs) =~= toml_escape_char(c));
        assert(toml_escape_char(c) + toml_escaped(s) =~= toml_escape_char(c));
    } else {
        assert(cs.drop_last() =~= seq![c] + s.drop_last());
        assert(cs.last() == s.last());
        lemma_toml_escaped_prepend(c, s.drop_last());
        assert(toml_escaped(cs) == toml_escaped(cs.drop_last()) + toml_escape_char(cs.last()));
        assert(toml_escaped(s) == toml_escaped(s.drop_last()) + toml_escape_char(s.last()));
        assert(toml_escaped(cs) =~= toml_escape_char(c) + toml_escaped(s));
    }
}

/// TOML escaping can be undone: reading the escaped text back gives the
/// value, and no quote in it ends the string early.
pub proof fn toml_escape_round_trip(s: Seq<char>)
    ensures
        toml_unescaped(toml_escaped(s)) == s,
        no_bare_quote(toml_escaped(s)),
    decreases s.len(),
{
    if s.len() > 0 {
        let c = s[0];
        let rest = s.skip(1);
        assert(s =~= seq![c] + rest);
        lemma_toml_escaped_prepend(c, rest);
        toml_escape_round_trip(rest);
        let e = toml_escaped(s);
        let er = toml_escaped(rest);
        if c == '\\' || c == '"' {
            assert(e =~= seq!['\\', c] + er);
            assert(e.skip(2) =~= er);
            assert(toml_unescaped(e) == seq![c] + toml_unescaped(er));
        } else {
            assert(e =~= seq![c] + er);
            assert(e.skip(1) =~= er);
            assert(toml_unescaped(e) == seq![c] + toml_unescaped(er));
        }
        assert(seq![c] + rest =~= s);
    }
}

/// The Tuwunel configuration of the local homeserver: bound to 127.0.0.1
/// port 8008, with federation, open registration and the admin room
/// disabled, the database and appservice directories (written with forward
/// slashes) and the registration secret.
pub open spec fn tuwunel_config_text(database: Seq<char>, appservices: Seq<char>, secret: Seq<char>) -> Seq<char> {
    "[global]\nserver_name = \"unibox.local\"\ndatabase_path = \""@ + toml_escaped(slashed(database))
        + "\"\naddress = [\"127.0.0.1\"]\nport = 8008\nallow_federation = false\nallow_registration = false\ncreate_admin_room = false\nnew_user_displayname_suffix = \"\"\nappservice_dir = \""@
        + toml_escaped(slashed(appservices)) + "\"\nregistration_shared_secret = \""@
        + toml_escaped(secret) + "\"\nlog = \"warn,tuwunel=info\"\n"@
}

/// Writes the Tuwunel configuration.
pub fn tuwunel_config(database_dir: &str, appservice_dir: &str, shared_secret: &str) -> (r: String)
    ensures
        r@ == tuwunel_config_text(database_dir@, appservice_dir@, shared_secret@),
{
    let db = toml_escape(slash_path(database_dir).as_str());
    let apps = toml_escape(slash_path(appservice_dir).as_str());
    let secret = toml_escape(shared_secret);
    let mut s = owned("[global]\nserver_name = \"unibox.local\"\ndatabase_path = \"");
    push_str(&mut s, db.as_str());
    push_str(
        &mut s,
        "\"\naddress = [\"127.0.0.1\"]\nport = 8008\nallow_federation = false\nallow_registration = false\ncreate_admin_room = false\nnew_user_displayname_suffix = \"\"\nappservice_dir = \"",
    );
    push_str(&mut s, apps.as_str());
    push_str(&mut s, "\"\nregistration_shared_secret = \"");
    push_str(&mut s, secret.as_str());
    push_str(&mut s, "\"\nlog = \"warn,tuwunel=info\"\n");
    s
}

proof fn lemma_occurs_after(x: Seq<char>, y: Seq<char>, needle: Seq<char>, k: int)
    requires
        occurs_at(y, needle, k),
    ensures
        occurs_at(x + y, needle, x.len() + k),
{
    assert((x + y).subrange(x.len() + k, x.len() + k + needle.len()) =~= y.subrange(k, k + needle.len()));
}

proof fn lemma_occurs_before(w: Seq<char>, z: Seq<char>, needle: Seq<char>, j: int)
    requires
        occurs_at(w, needle, j),
    ensures
        occurs_at(w + z, needle, j),
{
    assert((w + z).subrange(j, j + needle.len()) =~= w.subrange(j, j + needle.len()));
}

/// The homeserver stays local: whatever the directories and the secret,
/// the Tuwunel configuration has the lines that bind it to 127.0.0.1 port
/// 8008 and turn off federation, open registration and the admin room.
pub proof fn tuwunel_config_local_only(database: Seq<char>, appservices: Seq<char>, secret: Seq<char>)
    ensures
        ({
            let t = tuwunel_config_text(database, appservices, secret);
            &&& seq_contains(t, "\naddress = [\"127.0.0.1\"]\n"@)
            &&& seq_contains(t, "\nport = 8008\n"@)
            &&& seq_contains(t, "\nallow_federation = false\n"@)
            &&& seq_contains(t, "\nallow_registration = false\n"@)
            &&& seq_contains(t, "\ncreate_admin_room = false\n"@)
        }),
{
    let head = "[global]\nserver_name = \"unibox.local\"\ndatabase_path = \""@ + toml_escaped(slashed(database));
    let mid = "\"\naddress = [\"127.0.0.1\"]\nport = 8008\nallow_federation = false\nallow_registration = false\ncreate_admin_room = false\nnew_user_displayname_suffix = \"\"\nappservice_dir = \""@;
    let e2 = toml_escaped(slashed(appservices));
    let l3 = "\"\nregistration_shared_secret = \""@;
    let e3 = toml_escaped(secret);
    let l4 = "\"\nlog = \"warn,tuwunel=info\"\n"@;
    let t = tuwunel_config_text(database, appservices, secret);
    assert(t == head + mid + e2 + l3 + e3 + l4);
    reveal_strlit("\"\naddress = [\"127.0.0.1\"]\nport = 8008\nallow_federation = false\nallow_registration = false\ncreate_admin_room = false\nnew_user_displayname_suffix = \"\"\nappservice_dir = \"");
    reveal_strlit("\naddress = [\"127.0.0.1\"]\n");
    reveal_strlit("\nport = 8008\n");
    reveal_strlit("\nallow_federation = false\n");
    reveal_strlit("\nallow_registration = false\n");
    reveal_strlit("\ncreate_admin_room = false\n");
    let needles = seq![
        "\naddress = [\"127.0.0.1\"]\n"@,
        "\nport = 8008\n"@,
        "\nallow_federation = false\n"@,
        "\nallow_registration = false\n"@,
        "\ncreate_admin_room = false\n"@,
    ];
    let offsets = seq![1int, 25, 37, 62, 89];
    assert forall|n: int| 0 <= n < 5 implies seq_contains(t, #[trigger] needles[n]) by {
        let k = offsets[n];
        assert(mid.subrange(k, k + needles[n].len()) =~= needles[n]);
        lemma_occurs_after(head, mid, needles[n], k);
        lemma_occurs_before(head + mid, e2, needles[n], head.len() + k);
        lemma_occurs_before(head + mid + e2, l3, needles[n], head.len() + k);
        lemma_occurs_before(head + mid + e2 + l3, e3, needles[n], head.len() + k);
        lemma_occurs_before(head + mid + e2 + l3 + e3, l4, needles[n], head.len() + k);
    }
    assert(seq_contains(t, needles[0]));
    assert(seq_contains(t, needles[1]));
    assert(seq_contains(t, needles[2]));
    assert(seq_contains(t, needles[3]));
    assert(seq_contains(t, needles[4]));
}

// ---------------------------------------------------------------------------
// Legacy processes
// ---------------------------------------------------------------------------

/// A text quoted for a single-quoted PowerShell string: quotes doubled.
pub open spec fn ps_quoted(s: Seq<char>) -> Seq<char> {
    replace_char(s, '\'', seq!['\'', '\''])
}

/// The PowerShell script that stops the Tuwunel and mautrix processes
/// still running from another resource slot under the same parent
/// directory.
pub open spec fn legacy_cleanup_script(current: Seq<char>, parent: Seq<char>) -> Seq<char> {
    "$current='"@ + ps_quoted(current) + "'; $parent='"@ + ps_quoted(parent)
        + "'; Get-CimInstance Win32_Process -ErrorAction SilentlyContinue | Where-Object { $_.ExecutablePath -and $_.ExecutablePath.StartsWith($parent,[System.StringComparison]::OrdinalIgnoreCase) -and -not $_.ExecutablePath.StartsWith($current,[System.StringComparison]::OrdinalIgnoreCase) -and ((Split-Path $_.ExecutablePath -Leaf) -eq 'tuwunel.exe' -or (Split-Path $_.ExecutablePath -Leaf) -like 'mautrix-*.exe') } | ForEach-Object { Stop-Process -Id $_.ProcessId -Force -ErrorAction SilentlyContinue }"@
}

/// The cleanup stops only processes of other slots: the script binds
/// `$current` and `$parent` to the quoted paths, and its filter keeps the
/// executables under the parent directory that do not lie under the
/// current resource root, and of those only `tuwunel.exe` and
/// `mautrix-*.exe`, which it stops.
pub proof fn legacy_cleanup_spares_current_slot(current: Seq<char>, parent: Seq<char>, script: Seq<char>)
    requires
        script == legacy_cleanup_script(current, parent),
    ensures
        has_prefix(script, "$current='"@ + ps_quoted(current) + "'; $parent='"@ + ps_quoted(parent) + "';"@),
        has_suffix(script, "-and -not $_.ExecutablePath.StartsWith($current,[System.StringComparison]::OrdinalIgnoreCase) -and ((Split-Path $_.ExecutablePath -Leaf) -eq 'tuwunel.exe' -or (Split-Path $_.ExecutablePath -Leaf) -like 'mautrix-*.exe') } | ForEach-Object { Stop-Process -Id $_.ProcessId -Force -ErrorAction SilentlyContinue }"@),
{
    let head = "$current='"@ + ps_quoted(current) + "'; $parent='"@ + ps_quoted(parent);
    let tail = "'; Get-CimInstance Win32_Process -ErrorAction SilentlyContinue | Where-Object { $_.ExecutablePath -and $_.ExecutablePath.StartsWith($parent,[System.StringComparison]::OrdinalIgnoreCase) -and -not $_.ExecutablePath.StartsWith($current,[System.StringComparison]::OrdinalIgnoreCase) -and ((Split-Path $_.ExecutablePath -Leaf) -eq 'tuwunel.exe' -or (Split-Path $_.ExecutablePath -Leaf) -like 'mautrix-*.exe') } | ForEach-Object { Stop-Process -Id $_.ProcessId -Force -ErrorAction SilentlyContinue }"@;
    let suffix = "-and -not $_.ExecutablePath.StartsWith($current,[System.StringComparison]::OrdinalIgnoreCase) -and ((Split-Path $_.ExecutablePath -Leaf) -eq 'tuwunel.exe' -or (Split-Path $_.ExecutablePath -Leaf) -like 'mautrix-*.exe') } | ForEach-Object { Stop-Process -Id $_.ProcessId -Force -ErrorAction SilentlyContinue }"@;
    reveal_strlit("'; Get-CimInstance Win32_Process -ErrorAction SilentlyContinue | Where-Object { $_.ExecutablePath -and $_.ExecutablePath.StartsWith($parent,[System.StringComparison]::OrdinalIgnoreCase) -and -not $_.ExecutablePath.StartsWith($current,[System.StringComparison]::OrdinalIgnoreCase) -and ((Split-Path $_.ExecutablePath -Leaf) -eq 'tuwunel.exe' -or (Split-Path $_.ExecutablePath -Leaf) -like 'mautrix-*.exe') } | ForEach-Object { Stop-Process -Id $_.ProcessId -Force -ErrorAction SilentlyContinue }");
    reveal_strlit("-and -not $_.ExecutablePath.StartsWith($current,[System.StringComparison]::OrdinalIgnoreCase) -and ((Split-Path $_.ExecutablePath -Leaf) -eq 'tuwunel.exe' -or (Split-Path $_.ExecutablePath -Leaf) -like 'mautrix-*.exe') } | ForEach-Object { Stop-Process -Id $_.ProcessId -Force -ErrorAction SilentlyContinue }");
    reveal_strlit("';");
    assert(script == head + tail);
    assert(tail.subrange(186, tail.len() as int) =~= suffix);
    assert(script.subrange(script.len() - suffix.len(), script.len() as int) =~= suffix);
    let p = "$current='"@ + ps_quoted(current) + "'; $parent='"@ + ps_quoted(parent) + "';"@;
    assert(tail.subrange(0, 2) =~= "';"@);
    assert(script.subrange(0, p.len() as int) =~= p);
}

/// The script that stops native runtime processes left running from an
/// older resource slot; none when the resource root has no parent
/// directory. The caller runs it with PowerShell on Windows.
pub fn stop_legacy_native_slot_processes(resource_root: &str, resources_parent: Option<&str>) -> (r: Option<String>)
    ensures
        match resources_parent {
            None => r is None,
            Some(p) => r matches Some(s) && s@ == legacy_cleanup_script(resource_root@, p@),
        },
{
    let parent = match resources_parent {
        Some(p) => p,
        None => return None,
    };
    proof {
        reveal_strlit("''");
        assert("''"@ =~= seq!['\'', '\'']);
    }
    let current = replace_char_exec(resource_root, '\'', "''");
    let parent_q = replace_char_exec(parent, '\'', "''");
    let mut s = owned("$current='");
    push_str(&mut s, current.as_str());
    push_str(&mut s, "'; $parent='");
    push_str(&mut s, parent_q.as_str());
    push_str(
        &mut s,
        "'; Get-CimInstance Win32_Process -ErrorAction SilentlyContinue | Where-Object { $_.ExecutablePath -and $_.ExecutablePath.StartsWith($parent,[System.StringComparison]::OrdinalIgnoreCase) -and -not $_.ExecutablePath.StartsWith($current,[System.StringComparison]::OrdinalIgnoreCase) -and ((Split-Path $_.ExecutablePath -Leaf) -eq 'tuwunel.exe' -or (Split-Path $_.ExecutablePath -Leaf) -like 'mautrix-*.exe') } | ForEach-Object { Stop-Process -Id $_.ProcessId -Force -ErrorAction SilentlyContinue }",
    );
    Some(s)
}

// ---------------------------------------------------------------------------
// Secrets and the local Matrix identity
// ---------------------------------------------------------------------------

/// An ASCII letter or digit.
pub open spec fn is_alphanumeric(c: char) -> bool {
    ('a' <= c && c <= 'z') || ('A' <= c && c <= 'Z') || ('0' <= c && c <= '9')
}

/// A random text of `length` ASCII letters and digits from rand's
/// `Alphanumeric` distribution on the thread-local generator. The contract
/// states what every outcome satisfies; which characters come out is
/// chance. rand panics when the operating system's random source fails.
#[verifier::external_body]
fn random_alphanumeric(length: usize) -> (r: String)
    ensures
        r@.len() == length,
        forall|i: int| 0 <= i < r@.len() ==> is_alphanumeric(#[trigger] r@[i]),
{
    rand::thread_rng().sample_iter(&rand::distributions::Alphanumeric).take(length).map(char::from).collect()
}

/// A fresh secret of `length` ASCII letters and digits.
pub fn random_secret(length: usize) -> (r: String)
    ensures
        r@.len() == length,
        forall|i: int| 0 <= i < r@.len() ==> is_alphanumeric(#[trigger] r@[i]),
{
    random_alphanumeric(length)
}

/// The secrets of the native runtime: the homeserver's registration secret
/// and the local user's password.
pub struct NativeSecrets {
    pub registration_shared_secret: String,
    pub matrix_password: String,
}

impl NativeSecrets {
    /// Fresh secrets: a 64-character registration secret and a 48-character
    /// password, both letters and digits.
    pub fn generate() -> (r: NativeSecrets)
        ensures
            r.registration_shared_secret@.len() == 64,
            r.matrix_password@.len() == 48,
            forall|i: int|
                0 <= i < 64 ==> is_alphanumeric(#[trigger] r.registration_shared_secret@[i]),
            forall|i: int| 0 <= i < 48 ==> is_alphanumeric(#[trigger] r.matrix_password@[i]),
    {
        NativeSecrets { registration_shared_secret: random_secret(64), matrix_password: random_secret(48) }
    }
}

/// The message that the shared-secret registration API authenticates:
/// nonce, user, password and `notadmin`, separated by NUL characters. The
/// local user is never registered as an administrator.
pub open spec fn registration_payload_text(nonce: Seq<char>, password: Seq<char>) -> Seq<char> {
    nonce + seq!['\0'] + MATRIX_USER@ + seq!['\0'] + password + seq!['\0'] + "notadmin"@
}

/// The shared-secret registration message.
pub fn registration_payload(nonce: &str, password: &str) -> (r: String)
    ensures
        r@ == registration_payload_text(nonce@, password@),
{
    let mut s = owned(nonce);
    push_char(&mut s, '\0');
    push_str(&mut s, MATRIX_USER);
    push_char(&mut s, '\0');
    push_str(&mut s, password);
    push_char(&mut s, '\0');
    push_str(&mut s, "notadmin");
    s
}

/// The local user is never registered as an administrator: whatever the
/// nonce and password, the registration message ends with the `notadmin`
/// field.
pub proof fn registration_never_admin(nonce: Seq<char>, password: Seq<char>)
    ensures
        has_suffix(registration_payload_text(nonce, password), seq!['\0'] + "notadmin"@),
{
    let t = registration_payload_text(nonce, password);
    let pre = nonce + seq!['\0'] + MATRIX_USER@ + seq!['\0'] + password;
    let tail = seq!['\0'] + "notadmin"@;
    assert(t =~= pre + tail);
    assert(t.subrange(t.len() - tail.len(), t.len() as int) =~= tail);
}

/// What HMAC-SHA1 computes for a key and a message.
pub uninterp spec fn spec_hmac_sha1(key: Seq<u8>, message: Seq<u8>) -> Seq<u8>;

/// HMAC-SHA1 with the hmac and sha1 crates (`Hmac::<Sha1>::new_from_slice`,
/// `update`, `finalize`). `new_from_slice` accepts keys of every length in
/// the hmac crate's source, so its error arm is never taken. Besides naming
/// the tag, the contract states its size, SHA-1's 20 bytes.
#[verifier::external_body]
fn hmac_sha1(key: &[u8], message: &[u8]) -> (r: Vec<u8>)
    ensures
        r@ == spec_hmac_sha1(key@, message@),
        r@.len() == 20,
{
    match hmac::Hmac::<sha1::Sha1>::new_from_slice(key) {
        Ok(mut mac) => {
            mac.update(message);
            mac.finalize().into_bytes().to_vec()
        },
        Err(_) => Vec::new(),
    }
}

/// The lower-case hexadecimal digit of `n < 16`.
pub open spec fn hex_digit(n: int) -> char {
    if n < 10 {
        (n + 48) as char
    } else {
        (n + 87) as char
    }
}

/// Lower-case hexadecimal, two digits per byte, high nibble first.
pub open spec fn hex_lower(b: Seq<u8>) -> Seq<char>
    decreases b.len(),
{
    if b.len() == 0 {
        seq![]
    } else {
        hex_lower(b.drop_last()) + seq![hex_digit((b.last() / 16) as int), hex_digit((b.last() % 16) as int)]
    }
}

/// Encodes bytes as lower-case hexadecimal with `hex::encode`, which maps
/// each byte to its two digits, high nibble first.
#[verifier::external_body]
fn hex_encode(bytes: &[u8]) -> (r: String)
    ensures
        r@ == hex_lower(bytes@),
{
    hex::encode(bytes)
}

proof fn lemma_hex_lower_len(b: Seq<u8>)
    ensures
        hex_lower(b).len() == 2 * b.len(),
    decreases b.len(),
{
    if b.len() > 0 {
        lemma_hex_lower_len(b.drop_last());
    }
}

/// The MAC of a shared-secret registration: HMAC-SHA1 of the registration
/// message under the shared secret (both UTF-8), in lower-case hex.
pub fn registration_mac(shared_secret: &str, nonce: &str, password: &str) -> (r: String)
    ensures
        r@ == hex_lower(
            spec_hmac_sha1(
                vstd::utf8::encode_utf8(shared_secret@),
                vstd::utf8::encode_utf8(registration_payload_text(nonce@, password@)),
            ),
        ),
        r@.len() == 40,
{
    let payload = registration_payload(nonce, password);
    let tag = hmac_sha1(shared_secret.as_bytes(), payload.as_str().as_bytes());
    proof {
        lemma_hex_lower_len(tag@);
    }
    hex_encode(tag.as_slice())
}

/// `<kind> response missing <field>`.
pub open spec fn missing_field(kind: Seq<char>, field: Seq<char>) -> Seq<char> {
    kind + " response missing "@ + field
}

/// The session built from a registration or login response: the user id
/// and access token are required, the device id optional; the homeserver
/// is the local one.
pub open spec fn session_of(r: Result<MatrixSession, String>, kind: Seq<char>, user_id: Option<&str>, access_token: Option<&str>, device_id: Option<&str>) -> bool {
    match (user_id, access_token) {
        (None, _) => r matches Err(m) && m@ == missing_field(kind, "user_id"@),
        (Some(_), None) => r matches Err(m) && m@ == missing_field(kind, "access_token"@),
        (Some(u), Some(t)) => r matches Ok(s) && s.homeserver@ == MATRIX_URL@ && s.user_id@ == u@
            && s.access_token@ == t@ && match (device_id, s.device_id) {
            (None, None) => true,
            (Some(d), Some(sd)) => sd@ == d@,
            _ => false,
        },
    }
}

fn session_from(kind: &str, user_id: Option<&str>, access_token: Option<&str>, device_id: Option<&str>) -> (r: Result<MatrixSession, String>)
    ensures
        session_of(r, kind@, user_id, access_token, device_id),
{
    let user = match user_id {
        Some(u) => u,
        None => {
            let mut m = owned(kind);
            push_str(&mut m, " response missing ");
            push_str(&mut m, "user_id");
            return Err(m);
        },
    };
    let token = match access_token {
        Some(t) => t,
        None => {
            let mut m = owned(kind);
            push_str(&mut m, " response missing ");
            push_str(&mut m, "access_token");
            return Err(m);
        },
    };
    let device = match device_id {
        Some(d) => Some(owned(d)),
        None => None,
    };
    Ok(MatrixSession { homeserver: owned(MATRIX_URL), user_id: owned(user), access_token: owned(token), device_id: device })
}

/// The local session from the fields of a registration response.
pub fn session_from_registration(user_id: Option<&str>, access_token: Option<&str>, device_id: Option<&str>) -> (r: Result<MatrixSession, String>)
    ensures
        session_of(r, "registration"@, user_id, access_token, device_id),
{
    session_from("registration", user_id, access_token, device_id)
}

/// The local session from the fields of a login response.
pub fn session_from_login(user_id: Option<&str>, access_token: Option<&str>, device_id: Option<&str>) -> (r: Result<MatrixSession, String>)
    ensures
        session_of(r, "login"@, user_id, access_token, device_id),
{
    session_from("login", user_id, access_token, device_id)
}

// ---------------------------------------------------------------------------
// Connectors
// ---------------------------------------------------------------------------

/// The settings a connector keeps in its local `unibox-settings.json`.
#[derive(Clone, Debug)]
pub struct ConnectorLocalSettings {
    pub api_id: Option<i64>,
    pub api_hash: Option<String>,
}

impl ConnectorLocalSettings {
    /// No settings stored.
    pub fn empty() -> (r: ConnectorLocalSettings)
        ensures
            r.api_id is None,
            r.api_hash is None,
    {
        ConnectorLocalSettings { api_id: None, api_hash: None }
    }
}

/// A native connector must use a native bridge adapter and have its binary
/// bundled with the build.
pub fn require_native_connector(connector: &ConnectorDefinition, binary_bundled: bool) -> (r: Result<(), String>)
    ensures
        !native_bridge_adapter(connector.adapter@) ==> (r matches Err(m) && m@ == connector.name@
            + " is not using the native BridgeV2 adapter in this Windows build."@),
        native_bridge_adapter(connector.adapter@) && !binary_bundled ==> (r matches Err(m) && m@
            == connector.name@ + " native connector binary is not bundled in this build."@),
        r is Ok <==> native_bridge_adapter(connector.adapter@) && binary_bundled,
{
    if !is_native_bridge(connector) {
        let mut m = owned(connector.name.as_str());
        push_str(&mut m, " is not using the native BridgeV2 adapter in this Windows build.");
        return Err(m);
    }
    if !binary_bundled {
        let mut m = owned(connector.name.as_str());
        push_str(&mut m, " native connector binary is not bundled in this build.");
        return Err(m);
    }
    Ok(())
}

/// One setting that a connector asks for before it can connect.
pub struct RequirementField {
    pub id: String,
    pub name: String,
    pub kind: String,
    pub description: String,
}

/// What a connector needs before connecting: whether settings are still
/// missing, which fields to ask for and a help text.
pub struct ConnectorRequirements {
    pub required: bool,
    pub fields: Vec<RequirementField>,
    pub help: Option<String>,
}

/// The pre-connection requirements of a connector. No connector asks the
/// user for settings before connecting: Telegram's application credentials
/// come with the build, so users are never asked for an API id or hash.
pub fn connector_requirements(connector: &ConnectorDefinition, settings: &ConnectorLocalSettings) -> (r: ConnectorRequirements)
    ensures
        !r.required,
        r.fields@.len() == 0,
        r.help is None,
{
    ConnectorRequirements { required: false, fields: Vec::new(), help: None }
}

/// What configuring a connector leads to.
pub enum ConfigurePlan {
    /// Nothing to store; report this message.
    NothingToStore(String),
    /// Store these Telegram settings, then patch the connector's
    /// configuration when it exists.
    StoreTelegram(ConnectorLocalSettings),
}

/// Checks the settings entered for a connector. Only Telegram takes
/// settings: its API id must be a positive decimal and its API hash 32
/// hexadecimal characters, both once trimmed; the hash is stored in lower
/// case.
pub fn configure_connector(connector: &ConnectorDefinition, binary_bundled: bool, api_id_text: &str, api_hash_text: &str) -> (r: Result<ConfigurePlan, String>)
    ensures
        !native_bridge_adapter(connector.adapter@) ==> (r matches Err(m) && m@ == connector.name@
            + " is not using the native BridgeV2 adapter in this Windows build."@),
        native_bridge_adapter(connector.adapter@) && !binary_bundled ==> (r matches Err(m) && m@
            == connector.name@ + " native connector binary is not bundled in this build."@),
        native_bridge_adapter(connector.adapter@) && binary_bundled ==> {
            let id = parse_i64_spec(trimmed(api_id_text@));
            let hash = ascii_lower(trimmed(api_hash_text@));
            if connector.id@ != "telegram"@ {
                r matches Ok(ConfigurePlan::NothingToStore(m)) && m@ == connector.name@
                    + " does not require pre-connection settings."@
            } else if !(id matches Some(v) && v > 0) {
                r matches Err(m) && m@ == "Telegram API ID must be a positive number"@
            } else if !is_api_hash(hash) {
                r matches Err(m) && m@ == "Telegram API hash must be exactly 32 hexadecimal characters"@
            } else {
                r matches Ok(ConfigurePlan::StoreTelegram(s)) && s.api_id == id && (s.api_hash matches Some(h) && h@ == hash)
            }
        },
{
    require_native_connector(connector, binary_bundled)?;
    if !str_eq(connector.id.as_str(), "telegram") {
        let mut m = owned(connector.name.as_str());
        push_str(&mut m, " does not require pre-connection settings.");
        return Ok(ConfigurePlan::NothingToStore(m));
    }
    let id_text = trim(api_id_text);
    let id = match parse_i64(id_text.as_str()) {
        Some(v) => v,
        None => return Err(owned("Telegram API ID must be a positive number")),
    };
    if id <= 0 {
        return Err(owned("Telegram API ID must be a positive number"));
    }
    let hash_trimmed = trim(api_hash_text);
    let hash = to_ascii_lower(hash_trimmed.as_str());
    if !crate::connector::api_hash_valid(hash.as_str()) {
        return Err(owned("Telegram API hash must be exactly 32 hexadecimal characters"));
    }
    Ok(ConfigurePlan::StoreTelegram(ConnectorLocalSettings { api_id: Some(id), api_hash: Some(hash) }))
}

/// `<name> connector updates are delivered by verified Unibox Windows builds.`
/// for a native connector.
pub fn update_connector(connector: &ConnectorDefinition, binary_bundled: bool) -> (r: Result<String, String>)
    ensures
        !native_bridge_adapter(connector.adapter@) ==> (r matches Err(m) && m@ == connector.name@
            + " is not using the native BridgeV2 adapter in this Windows build."@),
        native_bridge_adapter(connector.adapter@) && !binary_bundled ==> (r matches Err(m) && m@
            == connector.name@ + " native connector binary is not bundled in this build."@),
        native_bridge_adapter(connector.adapter@) && binary_bundled ==> (r matches Ok(m) && m@
            == connector.name@ + " connector updates are delivered by verified Unibox Windows builds."@),
{
    require_native_connector(connector, binary_bundled)?;
    let mut m = owned(connector.name.as_str());
    push_str(&mut m, " connector updates are delivered by verified Unibox Windows builds.");
    Ok(m)
}

/// The status of a native connector: installed when its binary is bundled
/// and its configuration written, running when its port answers, and its
/// provisioning API advertised once installed.
pub fn connector_status(connector: &ConnectorDefinition, binary_bundled: bool, config_written: bool, port_open: bool) -> (r: ConnectorStatus)
    ensures
        r.id@ == connector.id@,
        r.installed == (binary_bundled && config_written),
        r.running == (binary_bundled && config_written && port_open),
        match r.provisioning_url {
            Some(u) => r.installed && native_bridge_adapter(connector.adapter@) && u@ == provision_base(connector.port),
            None => !(r.installed && native_bridge_adapter(connector.adapter@)),
        },
{
    let installed = binary_bundled && config_written;
    let provisioning = if installed && is_native_bridge(connector) {
        Some(provisioning_url(connector.port))
    } else {
        None
    };
    ConnectorStatus { id: connector.id.clone(), installed, running: installed && port_open, provisioning_url: provisioning }
}

/// The state of the native runtime. The fields named after WSL keep their
/// names for the desktop UI and describe the bundled engine: whether its
/// executable is present and whether the homeserver answers.
pub fn runtime_status(platform: &str, data_root: &str, engine_bundled: bool, homeserver_ready: bool, session_readable: bool) -> (r: RuntimeStatus)
    ensures
        r.platform@ == platform@,
        r.data_root@ == data_root@,
        r.wsl_available == engine_bundled,
        r.distro_installed == engine_bundled,
        r.distro_running == homeserver_ready,
        r.synapse_ready == homeserver_ready,
        r.matrix_session_ready == (homeserver_ready && session_readable),
{
    RuntimeStatus {
        platform: owned(platform),
        wsl_available: engine_bundled,
        distro_installed: engine_bundled,
        distro_running: homeserver_ready,
        synapse_ready: homeserver_ready,
        matrix_session_ready: homeserver_ready && session_readable,
        data_root: owned(data_root),
    }
}

// ---------------------------------------------------------------------------
// Connector configuration
// ---------------------------------------------------------------------------

/// A value written into a connector's YAML configuration.
pub enum ConfigValue {
    Text(String),
    Integer(i64),
    Flag(bool),
    /// A mapping that grants `user` the permission `level`.
    Grant { user: String, level: String },
}

/// One change to a connector's YAML configuration: set `key` in the
/// mapping `section` (the root when `None`). A section marked `create` is
/// made a mapping first when it is missing or not a mapping; a section not
/// so marked is only changed when it is already a mapping.
pub struct ConfigEdit {
    pub section: Option<String>,
    pub create: bool,
    pub key: String,
    pub value: ConfigValue,
}

/// `e` sets `key` in `section`, creating it or not.
pub open spec fn edit_is(e: ConfigEdit, section: Option<Seq<char>>, create: bool, key: Seq<char>) -> bool {
    &&& match (e.section, section) {
        (None, None) => true,
        (Some(a), Some(b)) => a@ == b,
        _ => false,
    }
    &&& e.create == create
    &&& e.key@ == key
}

/// `v` is the text `t`.
pub open spec fn is_text(v: ConfigValue, t: Seq<char>) -> bool {
    v matches ConfigValue::Text(s) && s@ == t
}

/// `v` is the integer `n`.
pub open spec fn is_integer(v: ConfigValue, n: int) -> bool {
    v matches ConfigValue::Integer(i) && i == n
}

/// `v` is the flag `b`.
pub open spec fn is_flag(v: ConfigValue, b: bool) -> bool {
    v matches ConfigValue::Flag(f) && f == b
}

fn edit(section: Option<&str>, create: bool, key: &str, value: ConfigValue) -> (r: ConfigEdit)
    ensures
        edit_is(r, match section { Some(s) => Some(s@), None => None }, create, key@),
        r.value == value,
{
    let sec = match section {
        Some(s) => Some(owned(s)),
        None => None,
    };
    ConfigEdit { section: sec, create, key: owned(key), value }
}

fn text_value(s: &str) -> (r: ConfigValue)
    ensures
        is_text(r, s@),
{
    ConfigValue::Text(owned(s))
}

/// The edits that bind a connector to the local runtime, up to the bridge
/// permissions: the local homeserver, the appservice listener on
/// 127.0.0.1 at the connector's port, a SQLite database in the connector's
/// state directory, and admin permission for the local user.
pub open spec fn base_edits_ok(e: Seq<ConfigEdit>, c: ConnectorDefinition, db_file: Seq<char>) -> bool {
    &&& e.len() >= 12
    &&& edit_is(e[0], Some("homeserver"@), true, "address"@) && is_text(e[0].value, MATRIX_URL@)
    &&& edit_is(e[1], Some("homeserver"@), true, "domain"@) && is_text(e[1].value, "unibox.local"@)
    &&& edit_is(e[2], Some("homeserver"@), true, "software"@) && is_text(e[2].value, "standard"@)
    &&& edit_is(e[3], Some("appservice"@), true, "address"@) && is_text(e[3].value,
        "http://127.0.0.1:"@ + crate::text::decimal(c.port as nat))
    &&& edit_is(e[4], Some("appservice"@), true, "hostname"@) && is_text(e[4].value, "127.0.0.1"@)
    &&& edit_is(e[5], Some("appservice"@), true, "port"@) && is_integer(e[5].value, c.port as int)
    &&& edit_is(e[6], Some("appservice"@), true, "id"@) && is_text(e[6].value, "unibox-"@ + c.id@)
    &&& edit_is(e[7], Some("database"@), true, "type"@) && is_text(e[7].value, "sqlite3-fk-wal"@)
    &&& edit_is(e[8], Some("database"@), true, "uri"@) && is_text(e[8].value,
        "file:"@ + slashed(db_file) + "?_txlock=immediate"@)
    &&& edit_is(e[9], Some("database"@), true, "max_open_conns"@) && is_integer(e[9].value, 1)
    &&& edit_is(e[10], Some("database"@), true, "max_idle_conns"@) && is_integer(e[10].value, 1)
    &&& edit_is(e[11], Some("bridge"@), true, "permissions"@) && (e[11].value matches ConfigValue::Grant { user, level } && user@ == "@unibox:unibox.local"@ && level@ == "admin"@)
}

/// The closing edits, from position `k`: federation off in `matrix`,
/// encryption off in `encryption`, Matrix auth allowed in `provisioning`,
/// each only where the section already exists.
pub open spec fn closing_edits_ok(e: Seq<ConfigEdit>, k: int) -> bool {
    &&& e.len() == k + 4
    &&& edit_is(e[k], Some("matrix"@), false, "federate_rooms"@) && is_flag(e[k].value, false)
    &&& edit_is(e[k + 1], Some("encryption"@), false, "allow"@) && is_flag(e[k + 1].value, false)
    &&& edit_is(e[k + 2], Some("encryption"@), false, "default"@) && is_flag(e[k + 2].value, false)
    &&& edit_is(e[k + 3], Some("provisioning"@), false, "allow_matrix_auth"@) && is_flag(e[k + 3].value, true)
}

fn push_edit(v: &mut Vec<ConfigEdit>, section: Option<&str>, create: bool, key: &str, value: ConfigValue)
    ensures
        final(v)@.len() == old(v)@.len() + 1,
        forall|i: int| 0 <= i < old(v)@.len() ==> final(v)@[i] == old(v)@[i],
        edit_is(final(v)@[old(v)@.len() as int], match section { Some(s) => Some(s@), None => None }, create, key@),
        final(v)@[old(v)@.len() as int].value == value,
{
    v.push(edit(section, create, key, value));
}

/// The edits that adapt a connector's generated configuration to the local
/// runtime. Telegram additionally gets its stored API id (positive) and API
/// hash (32 hexadecimal characters) at the root; without them the
/// configuration cannot be patched.
pub fn connector_config_edits(connector: &ConnectorDefinition, db_file: &str, settings: &ConnectorLocalSettings) -> (r: Result<Vec<ConfigEdit>, String>)
    ensures
        connector.id@ != "telegram"@ ==> (r matches Ok(e) && base_edits_ok(e@, *connector, db_file@) && closing_edits_ok(e@, 12)),
        connector.id@ == "telegram"@ ==> {
            if !(settings.api_id matches Some(id) && id > 0) {
                r matches Err(m) && m@ == "Telegram API ID is not configured"@
            } else if !(settings.api_hash matches Some(h) && is_api_hash(h@)) {
                r matches Err(m) && m@ == "Telegram API hash is not configured"@
            } else {
                r matches Ok(e) && base_edits_ok(e@, *connector, db_file@) && closing_edits_ok(e@, 14)
                    && edit_is(e@[12], None, false, "api_id"@) && is_integer(e@[12].value, settings.api_id->0 as int)
                    && edit_is(e@[13], None, false, "api_hash"@) && is_text(e@[13].value, settings.api_hash->0@)
            }
        },
{
    let mut v: Vec<ConfigEdit> = Vec::new();
    push_edit(&mut v, Some("homeserver"), true, "address", text_value(MATRIX_URL));
    push_edit(&mut v, Some("homeserver"), true, "domain", text_value("unibox.local"));
    push_edit(&mut v, Some("homeserver"), true, "software", text_value("standard"));
    let mut address = owned("http://127.0.0.1:");
    crate::text::push_decimal(&mut address, connector.port as u64);
    push_edit(&mut v, Some("appservice"), true, "address", ConfigValue::Text(address));
    push_edit(&mut v, Some("appservice"), true, "hostname", text_value("127.0.0.1"));
    push_edit(&mut v, Some("appservice"), true, "port", ConfigValue::Integer(connector.port as i64));
    let mut id = owned("unibox-");
    push_str(&mut id, connector.id.as_str());
    push_edit(&mut v, Some("appservice"), true, "id", ConfigValue::Text(id));
    push_edit(&mut v, Some("database"), true, "type", text_value("sqlite3-fk-wal"));
    let mut uri = owned("file:");
    let db = slash_path(db_file);
    push_str(&mut uri, db.as_str());
    push_str(&mut uri, "?_txlock=immediate");
    push_edit(&mut v, Some("database"), true, "uri", ConfigValue::Text(uri));
    push_edit(&mut v, Some("database"), true, "max_open_conns", ConfigValue::Integer(1));
    push_edit(&mut v, Some("database"), true, "max_idle_conns", ConfigValue::Integer(1));
    push_edit(&mut v, Some("bridge"), true, "permissions", ConfigValue::Grant { user: owned("@unibox:unibox.local"), level: owned("admin") });
    if str_eq(connector.id.as_str(), "telegram") {
        let api_id = match settings.api_id {
            Some(i) => {
                if i > 0 {
                    i
                } else {
                    return Err(owned("Telegram API ID is not configured"));
                }
            },
            None => return Err(owned("Telegram API ID is not configured")),
        };
        let api_hash = match &settings.api_hash {
            Some(h) => {
                if crate::connector::api_hash_valid(h.as_str()) {
                    h.clone()
                } else {
                    return Err(owned("Telegram API hash is not configured"));
                }
            },
            None => return Err(owned("Telegram API hash is not configured")),
        };
        push_edit(&mut v, None, false, "api_id", ConfigValue::Integer(api_id));
        push_edit(&mut v, None, false, "api_hash", ConfigValue::Text(api_hash));
    }
    push_edit(&mut v, Some("matrix"), false, "federate_rooms", ConfigValue::Flag(false));
    push_edit(&mut v, Some("encryption"), false, "allow", ConfigValue::Flag(false));
    push_edit(&mut v, Some("encryption"), false, "default", ConfigValue::Flag(false));
    push_edit(&mut v, Some("provisioning"), false, "allow_matrix_auth", ConfigValue::Flag(true));
    Ok(v)
}

// ---------------------------------------------------------------------------
// Provisioning and client HTTP
// ---------------------------------------------------------------------------

/// The URL of a provisioning call to a native bridge: the bridge's
/// provisioning API, the path (with a leading `/`), and the local user's
/// id as the `user_id` query parameter.
pub fn provision_request_url(port: u16, path: &str, user_id: &str) -> (r: Result<String, String>)
    ensures
        ({
            let target = provision_base(port) + crate::connector::rooted(path@);
            match crate::net::spec_url_parse(target) {
                None => r matches Err(m) && m@ == "invalid local bridge provisioning URL"@,
                Some(parts) => r matches Ok(u) && u@ == crate::net::spec_url_append_pair(parts.0, "user_id"@, user_id@).0,
            }
        }),
{
    let target = crate::connector::provision_target(port, path);
    let url = match RemoteUrl::parse(target.as_str()) {
        Some(u) => u,
        None => return Err(owned("invalid local bridge provisioning URL")),
    };
    let with_user = url.with_query_pair("user_id", user_id);
    Ok(owned(with_user.href()))
}

/// The remote-URL check of the native runtime: HTTPS only, no local host
/// names, IP hosts must be public and are accepted as they are, any other
/// host is resolved at the URL's port.
pub fn ensure_public_remote_url(url: &RemoteUrl) -> (r: RemoteCheck)
    ensures
        url.parts().1 != "https"@ ==> rejects_with(r, "connector client HTTP only permits public HTTPS URLs"@),
        url.parts().1 == "https"@ && url.parts().2 is None ==> rejects_with(r, "connector client HTTP URL is missing a host"@),
        url.parts().1 == "https"@ && (url.parts().2 matches Some(h) && (ascii_lower(h) == "localhost"@ || has_suffix(h, ".local"@)))
            ==> rejects_with(r, "connector client HTTP blocks local hosts"@),
        url.parts().1 == "https"@ && (url.parts().2 matches Some(h) && !(ascii_lower(h) == "localhost"@ || has_suffix(h, ".local"@))) ==> match url.parts().4 {
            Some(ip) => if ip_is_private(ip) {
                rejects_with(r, "connector client HTTP blocks private or local addresses"@)
            } else {
                r is Accept
            },
            None => resolves_host(r, url.parts()),
        },
        (r is Reject) <==> !remote_url_allowed(url.parts()),
{
    if !str_eq(url.scheme(), "https") {
        return RemoteCheck::Reject(owned("connector client HTTP only permits public HTTPS URLs"));
    }
    let host = match url.host() {
        Some(h) => h,
        None => return RemoteCheck::Reject(owned("connector client HTTP URL is missing a host")),
    };
    let lower = to_ascii_lower(host);
    if str_eq(lower.as_str(), "localhost") || ends_with(host, ".local") {
        return RemoteCheck::Reject(owned("connector client HTTP blocks local hosts"));
    }
    match url.ip() {
        Some(ip) => {
            if is_private_ip(ip) {
                RemoteCheck::Reject(owned("connector client HTTP blocks private or local addresses"))
            } else {
                RemoteCheck::Accept
            }
        },
        None => resolve_step(host, url.port()),
    }
}

/// The check of the addresses a host resolved to: there must be some, and
/// none may be private.
pub fn check_resolved_addresses(addrs: &Vec<IpAddress>) -> (r: Result<(), String>)
    ensures
        r is Ok <==> resolution_is_public(addrs@),
        r matches Err(m) ==> m@ == "connector client HTTP host resolves to a private/local or empty address set"@,
{
    if addrs.len() == 0 || any_private(addrs) {
        return Err(owned("connector client HTTP host resolves to a private/local or empty address set"));
    }
    Ok(())
}

} // verus!
