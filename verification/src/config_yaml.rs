//! Patching a connector's YAML configuration: the document is read into a
//! tree whose mappings, keys and strings are plain values (other values
//! are carried through untouched), the configuration edits are merged
//! into it, and it is written back.

use vstd::prelude::*;

use crate::native::{ConfigEdit, ConfigValue};
use crate::text::{owned, str_eq};

verus! {

/// serde_yaml's `Value`, carried opaquely for the values the patch never
/// reads.
#[verifier::external_type_specification]
#[verifier::external_body]
pub struct ExYamlValue(serde_yaml::Value);

/// A YAML document as the patch sees it: mappings (entries in document
/// order), strings, the booleans and integers it writes, and any other
/// value carried as it was read.
pub enum Yaml {
    Bool(bool),
    Int(i64),
    Str(String),
    Mapping(Vec<(Yaml, Yaml)>),
    Other(serde_yaml::Value),
}

/// What `serde_yaml::from_str::<Value>` makes of a text, as a `Yaml` tree,
/// or the text of its error.
pub uninterp spec fn spec_yaml_parse(text: Seq<char>) -> Result<Yaml, Seq<char>>;

/// What `serde_yaml::to_string` writes for a `Yaml` tree, or the text of
/// its error.
pub uninterp spec fn spec_yaml_render(doc: Yaml) -> Result<Seq<char>, Seq<char>>;

/// The tree of a serde_yaml value: mappings and strings become `Mapping`
/// and `Str`, any other value is carried as `Other`. Part of the two wrappers
/// below (the conversion recurses, so it cannot sit inside their bodies).
#[verifier::external_body]
fn tree_of_value(value: serde_yaml::Value) -> Yaml {
    match value {
        serde_yaml::Value::String(s) => Yaml::Str(s),
        serde_yaml::Value::Mapping(m) => Yaml::Mapping(
            m.into_iter().map(|(k, v)| (tree_of_value(k), tree_of_value(v))).collect(),
        ),
        other => Yaml::Other(other),
    }
}

/// The serde_yaml value of a tree, the inverse of `tree_of_value`.
#[verifier::external_body]
fn value_of_tree(doc: &Yaml) -> serde_yaml::Value {
    match doc {
        Yaml::Bool(b) => serde_yaml::Value::Bool(*b),
        Yaml::Int(n) => serde_yaml::Value::Number((*n).into()),
        Yaml::Str(s) => serde_yaml::Value::String(s.clone()),
        Yaml::Mapping(entries) => serde_yaml::Value::Mapping(
            entries.iter().map(|(k, v)| (value_of_tree(k), value_of_tree(v))).collect(),
        ),
        Yaml::Other(v) => v.clone(),
    }
}

/// Parses a YAML text with `serde_yaml::from_str::<serde_yaml::Value>`.
/// The contract names the outcome; the YAML grammar is left to the crate.
#[verifier::external_body]
fn parse_yaml(text: &str) -> (r: Result<Yaml, String>)
    ensures
        match r {
            Ok(y) => spec_yaml_parse(text@) == Ok::<Yaml, Seq<char>>(y),
            Err(m) => spec_yaml_parse(text@) == Err::<Yaml, Seq<char>>(m@),
        },
{
    match serde_yaml::from_str::<serde_yaml::Value>(text) {
        Ok(value) => Ok(tree_of_value(value)),
        Err(error) => Err(error.to_string()),
    }
}

/// Writes a tree with `serde_yaml::to_string`. The contract names the
/// outcome; the YAML layout is left to the crate.
#[verifier::external_body]
fn render_yaml(doc: &Yaml) -> (r: Result<String, String>)
    ensures
        match r {
            Ok(t) => spec_yaml_render(*doc) == Ok::<Seq<char>, Seq<char>>(t@),
            Err(m) => spec_yaml_render(*doc) == Err::<Seq<char>, Seq<char>>(m@),
        },
{
    serde_yaml::to_string(&value_of_tree(doc)).map_err(|error| error.to_string())
}

// ---------------------------------------------------------------------------
// Merging edits
// ---------------------------------------------------------------------------

/// `k` is the string key `name`.
pub open spec fn key_is(k: Yaml, name: Seq<char>) -> bool {
    k matches Yaml::Str(s) && s@ == name
}

/// The position of the first entry from `i` on whose key is `name`.
pub open spec fn position_from(e: Seq<(Yaml, Yaml)>, name: Seq<char>, i: nat) -> Option<int>
    decreases e.len() - i,
{
    if i >= e.len() {
        None
    } else if key_is(e[i as int].0, name) {
        Some(i as int)
    } else {
        position_from(e, name, i + 1)
    }
}

/// The position of the entry whose key is `name` (the first, as mapping
/// keys are unique).
pub open spec fn position(e: Seq<(Yaml, Yaml)>, name: Seq<char>) -> Option<int> {
    position_from(e, name, 0)
}

/// `v` is the YAML form of a configuration value.
pub open spec fn value_is(v: Yaml, c: ConfigValue) -> bool {
    match c {
        ConfigValue::Text(t) => v matches Yaml::Str(s) && s@ == t@,
        ConfigValue::Integer(n) => v == Yaml::Int(n),
        ConfigValue::Flag(b) => v == Yaml::Bool(b),
        ConfigValue::Grant { user, level } => v matches Yaml::Mapping(m) && m@.len() == 1 && key_is(
            m@[0].0,
            user@,
        ) && key_is(m@[0].1, level@),
    }
}

/// `e2` is the mapping `e` with the key `name` set to `v`: an existing
/// entry keeps its key and position and takes the value, otherwise the
/// entry is appended; every other entry stays as it was.
pub open spec fn sets_key(e: Seq<(Yaml, Yaml)>, name: Seq<char>, v: Yaml, e2: Seq<(Yaml, Yaml)>) -> bool {
    match position(e, name) {
        Some(i) => e2.len() == e.len() && e2[i].0 == e[i].0 && e2[i].1 == v && forall|j: int|
            0 <= j < e.len() && j != i ==> #[trigger] e2[j] == e[j],
        None => e2.len() == e.len() + 1 && key_is(e2[e.len() as int].0, name) && e2[e.len() as int].1
            == v && forall|j: int| 0 <= j < e.len() ==> #[trigger] e2[j] == e[j],
    }
}

/// `e2` is the root mapping `e` after one edit. At the root the key is
/// set. In a section that is a mapping the key is set and the section's
/// other keys stay. A section that is missing or not a mapping becomes a
/// mapping holding just the key when the edit says so, and is left alone
/// otherwise. Every other root entry stays as it was.
pub open spec fn applies_edit(e: Seq<(Yaml, Yaml)>, edit: ConfigEdit, e2: Seq<(Yaml, Yaml)>) -> bool {
    match edit.section {
        None => exists|v: Yaml| value_is(v, edit.value) && #[trigger] sets_key(e, edit.key@, v, e2),
        Some(s) => {
            let pos = position(e, s@);
            if pos is Some && e[pos->0].1 is Mapping {
                let i = pos->0;
                &&& e2.len() == e.len()
                &&& e2[i].0 == e[i].0
                &&& forall|j: int| 0 <= j < e.len() && j != i ==> #[trigger] e2[j] == e[j]
                &&& e2[i].1 is Mapping
                &&& exists|v: Yaml|
                    value_is(v, edit.value) && #[trigger] sets_key(e[i].1->Mapping_0@, edit.key@, v, e2[i].1->Mapping_0@)
            } else if edit.create {
                exists|sec: Yaml, v: Yaml|
                    #![trigger sets_key(e, s@, sec, e2), value_is(v, edit.value)]
                    sets_key(e, s@, sec, e2) && value_is(v, edit.value) && (sec matches Yaml::Mapping(m2)
                        && m2@.len() == 1 && key_is(m2@[0].0, edit.key@) && m2@[0].1 == v)
            } else {
                e2 == e
            }
        },
    }
}

/// `states` runs from `e` to `e2`, each state the one before it after the
/// next edit.
pub open spec fn edit_chain(states: Seq<Seq<(Yaml, Yaml)>>, e: Seq<(Yaml, Yaml)>, edits: Seq<ConfigEdit>, e2: Seq<(Yaml, Yaml)>) -> bool {
    &&& states.len() == edits.len() + 1
    &&& states[0] == e
    &&& states[edits.len() as int] == e2
    &&& forall|i: int| 0 <= i < edits.len() ==> #[trigger] applies_edit(states[i], edits[i], states[i + 1])
}

/// `e2` is the root mapping `e` after the edits, applied in order.
pub open spec fn applies_edits(e: Seq<(Yaml, Yaml)>, edits: Seq<ConfigEdit>, e2: Seq<(Yaml, Yaml)>) -> bool {
    exists|states: Seq<Seq<(Yaml, Yaml)>>| #[trigger] edit_chain(states, e, edits, e2)
}

proof fn lemma_position_from(e: Seq<(Yaml, Yaml)>, name: Seq<char>, i: nat)
    ensures
        position_from(e, name, i) matches Some(j) ==> i <= j < e.len() && key_is(e[j].0, name),
    decreases e.len() - i,
{
    if i < e.len() && !key_is(e[i as int].0, name) {
        lemma_position_from(e, name, i + 1);
    }
}

/// The root key an edit touches: its section, or its key at the root.
pub open spec fn root_key(edit: ConfigEdit) -> Seq<char> {
    match edit.section {
        Some(s) => s@,
        None => edit.key@,
    }
}

/// Merging an edit keeps every other setting: each entry of the document
/// whose key is not the one the edit touches stays as it was, in place.
pub proof fn edit_keeps_other_entries(e: Seq<(Yaml, Yaml)>, edit: ConfigEdit, e2: Seq<(Yaml, Yaml)>)
    requires
        applies_edit(e, edit, e2),
    ensures
        forall|j: int| 0 <= j < e.len() && !key_is(e[j].0, root_key(edit)) ==> #[trigger] e2[j] == e[j],
{
    lemma_position_from(e, root_key(edit), 0);
    match edit.section {
        None => {
            let v = choose|v: Yaml| value_is(v, edit.value) && #[trigger] sets_key(e, edit.key@, v, e2);
            assert(sets_key(e, edit.key@, v, e2));
        },
        Some(s) => {
            let pos = position(e, s@);
            if !(pos is Some && e[pos->0].1 is Mapping) && edit.create {
                let (sec, v) = choose|sec: Yaml, v: Yaml|
                    #![trigger sets_key(e, s@, sec, e2), value_is(v, edit.value)]
                    sets_key(e, s@, sec, e2) && value_is(v, edit.value) && (sec matches Yaml::Mapping(m2)
                        && m2@.len() == 1 && key_is(m2@[0].0, edit.key@) && m2@[0].1 == v);
                assert(sets_key(e, s@, sec, e2));
            }
        },
    }
}

fn position_exec(e: &Vec<(Yaml, Yaml)>, name: &str) -> (r: Option<usize>)
    ensures
        match r {
            Some(i) => position(e@, name@) == Some(i as int) && i < e@.len(),
            None => position(e@, name@) is None,
        },
{
    let mut i: usize = 0;
    while i < e.len()
        invariant
            i <= e@.len(),
            position(e@, name@) == position_from(e@, name@, i as nat),
        decreases e.len() - i,
    {
        let hit = match &e[i].0 {
            Yaml::Str(s) => str_eq(s.as_str(), name),
            _ => false,
        };
        if hit {
            proof {
                lemma_position_from(e@, name@, i as nat);
            }
            return Some(i);
        }
        i += 1;
    }
    None
}

fn value_of(c: &ConfigValue) -> (r: Yaml)
    ensures
        value_is(r, *c),
{
    match c {
        ConfigValue::Text(t) => Yaml::Str(t.clone()),
        ConfigValue::Integer(n) => Yaml::Int(*n),
        ConfigValue::Flag(b) => Yaml::Bool(*b),
        ConfigValue::Grant { user, level } => {
            let mut m: Vec<(Yaml, Yaml)> = Vec::new();
            m.push((Yaml::Str(user.clone()), Yaml::Str(level.clone())));
            Yaml::Mapping(m)
        },
    }
}

fn set_key(e: Vec<(Yaml, Yaml)>, name: &str, v: Yaml) -> (r: Vec<(Yaml, Yaml)>)
    ensures
        sets_key(e@, name@, v, r@),
{
    let mut e = e;
    match position_exec(&e, name) {
        Some(i) => {
            let old = e.remove(i);
            e.insert(i, (old.0, v));
            e
        },
        None => {
            e.push((Yaml::Str(owned(name)), v));
            e
        },
    }
}

fn apply_edit(e: Vec<(Yaml, Yaml)>, edit: &ConfigEdit) -> (r: Vec<(Yaml, Yaml)>)
    ensures
        applies_edit(e@, *edit, r@),
{
    let v = value_of(&edit.value);
    match &edit.section {
        None => set_key(e, edit.key.as_str(), v),
        Some(s) => {
            let mut e = e;
            let pos = position_exec(&e, s.as_str());
            let is_map = match pos {
                Some(i) => match &e[i].1 {
                    Yaml::Mapping(_) => true,
                    _ => false,
                },
                None => false,
            };
            if is_map {
                let i = pos.unwrap();
                let ghost before = e@;
                let ghost val = v;
                let old = e.remove(i);
                let (k, section) = old;
                let inner = match section {
                    Yaml::Mapping(m) => m,
                    _ => Vec::new(),
                };
                let ghost inner_before = inner@;
                assert(inner_before == before[i as int].1->Mapping_0@);
                let inner = set_key(inner, edit.key.as_str(), v);
                let ghost inner_after = inner@;
                e.insert(i, (k, Yaml::Mapping(inner)));
                assert(e@[i as int].1->Mapping_0@ == inner_after);
                assert(sets_key(before[i as int].1->Mapping_0@, edit.key@, val, e@[i as int].1->Mapping_0@));
                e
            } else if edit.create {
                let inner = set_key(Vec::new(), edit.key.as_str(), v);
                set_key(e, s.as_str(), Yaml::Mapping(inner))
            } else {
                e
            }
        },
    }
}

fn apply_edits(e: Vec<(Yaml, Yaml)>, edits: &Vec<ConfigEdit>) -> (r: Vec<(Yaml, Yaml)>)
    ensures
        applies_edits(e@, edits@, r@),
{
    let ghost start = e@;
    let ghost mut states: Seq<Seq<(Yaml, Yaml)>> = seq![e@];
    let mut cur = e;
    let mut k: usize = 0;
    while k < edits.len()
        invariant
            k <= edits@.len(),
            states.len() == k + 1,
            states[0] == start,
            states[k as int] == cur@,
            forall|i: int| 0 <= i < k ==> #[trigger] applies_edit(states[i], edits@[i], states[i + 1]),
        decreases edits.len() - k,
    {
        cur = apply_edit(cur, &edits[k]);
        proof {
            states = states.push(cur@);
        }
        k += 1;
    }
    proof {
        assert(edit_chain(states, start, edits@, cur@));
    }
    cur
}

/// The patched text of a connector's configuration: invalid YAML and a
/// root that is not a mapping are refused; otherwise the edits are merged
/// into the document (see `applies_edits`) and it is written back.
pub fn patch_connector_yaml(raw: &str, edits: &Vec<ConfigEdit>) -> (r: Result<String, String>)
    ensures
        match spec_yaml_parse(raw@) {
            Err(_) => r matches Err(m) && m@ == "invalid connector config YAML"@,
            Ok(Yaml::Mapping(e)) => exists|m: Vec<(Yaml, Yaml)>|
                #[trigger] applies_edits(e@, edits@, m@) && match spec_yaml_render(Yaml::Mapping(m)) {
                    Ok(t) => r matches Ok(s) && s@ == t,
                    Err(x) => r matches Err(s) && s@ == x,
                },
            Ok(_) => r matches Err(m) && m@ == "connector config root is not a mapping"@,
        },
{
    let doc = match parse_yaml(raw) {
        Ok(d) => d,
        Err(_) => return Err(owned("invalid connector config YAML")),
    };
    let entries = match doc {
        Yaml::Mapping(e) => e,
        _ => return Err(owned("connector config root is not a mapping")),
    };
    let merged = apply_edits(entries, edits);
    let out = Yaml::Mapping(merged);
    render_yaml(&out)
}

/// The Telegram configuration with the API id and hash written at its
/// root: invalid YAML is refused with the parser's error, a root that is
/// not a mapping is refused; otherwise both keys are set (every other
/// entry stays) and the document is written back.
pub fn telegram_root_yaml(raw: &str, api_id: i64, api_hash: &str) -> (r: Result<String, String>)
    ensures
        match spec_yaml_parse(raw@) {
            Err(x) => r matches Err(m) && m@ == "invalid Telegram config: "@ + x,
            Ok(Yaml::Mapping(e)) => exists|m1: Seq<(Yaml, Yaml)>, m: Vec<(Yaml, Yaml)>|
                #![trigger sets_key(e@, "api_id"@, Yaml::Int(api_id), m1), spec_yaml_render(Yaml::Mapping(m))]
                sets_key(e@, "api_id"@, Yaml::Int(api_id), m1) && (exists|h: Yaml|
                    #[trigger] sets_key(m1, "api_hash"@, h, m@) && (h matches Yaml::Str(s) && s@
                        == api_hash@)) && match spec_yaml_render(Yaml::Mapping(m)) {
                    Ok(t) => r matches Ok(s) && s@ == t,
                    Err(x) => r matches Err(s) && s@ == x,
                },
            Ok(_) => r matches Err(m) && m@ == "Telegram config root is not a mapping"@,
        },
{
    let doc = match parse_yaml(raw) {
        Ok(d) => d,
        Err(e) => {
            let mut m = owned("invalid Telegram config: ");
            crate::text::push_str(&mut m, e.as_str());
            return Err(m);
        },
    };
    let entries = match doc {
        Yaml::Mapping(e) => e,
        _ => return Err(owned("Telegram config root is not a mapping")),
    };
    let with_id = set_key(entries, "api_id", Yaml::Int(api_id));
    let with_hash = set_key(with_id, "api_hash", Yaml::Str(owned(api_hash)));
    let out = Yaml::Mapping(with_hash);
    render_yaml(&out)
}

} // verus!
