//! The runtime settings document: the operator's own structured settings with
//! one completion-hook entry injected, so that the in-container agent reports
//! task completion to the notification daemon on the host. Every other key of
//! the operator's document is left untouched.
//!
//! The document is JSON, handled through serde_json. The library reasons about
//! a settings object through `json_entries` (what a JSON object map holds) and
//! through `json_obj` / `json_arr` / `json_str` (what a JSON value holds,
//! per shape).

use vstd::prelude::*;
use vstd::string::StringExecFns;
use crate::strutil::dec_str;
use crate::strutil::u64_to_string;

verus! {

#[verifier::external_type_specification]
#[verifier::external_body]
pub struct ExValue(serde_json::Value);

#[verifier::external_type_specification]
#[verifier::external_body]
#[verifier::reject_recursive_types(K)]
#[verifier::reject_recursive_types(V)]
pub struct ExJsonMap<K, V>(serde_json::Map<K, V>);

/// A JSON object: serde_json's map from key text to values.
pub type JsonObject = serde_json::Map<String, serde_json::Value>;

/// What a JSON object map holds: its entries, keyed by the key text.
pub uninterp spec fn json_entries(m: JsonObject) -> Map<
    Seq<char>,
    serde_json::Value,
>;

/// The entries of a JSON value that is an object, `None` for any other shape.
pub uninterp spec fn json_obj(v: serde_json::Value) -> Option<
    Map<Seq<char>, serde_json::Value>,
>;

/// The elements of a JSON value that is an array, `None` for any other shape.
pub uninterp spec fn json_arr(v: serde_json::Value) -> Option<Seq<serde_json::Value>>;

/// The text of a JSON value that is a string, `None` for any other shape.
pub uninterp spec fn json_str(v: serde_json::Value) -> Option<Seq<char>>;

/// What parsing a settings document yields: `None` when the text is not valid
/// JSON, `Some(None)` when it is valid JSON whose root is not an object, and
/// `Some(Some(m))` when the root is an object with entries `m`. A function of
/// the text alone.
pub uninterp spec fn parsed_settings(s: Seq<char>) -> Option<
    Option<Map<Seq<char>, serde_json::Value>>,
>;

/// The pretty-printed JSON text of an object map: a function of the map alone.
pub uninterp spec fn rendered_object(m: JsonObject) -> Seq<char>;

/// The entries of an empty JSON object.
pub open spec fn empty_entries() -> Map<Seq<char>, serde_json::Value> {
    Map::empty()
}

/// The text is valid JSON whose root is not an object.
pub open spec fn parsed_not_object(s: Seq<char>) -> bool {
    parsed_settings(s) == Some(None::<Map<Seq<char>, serde_json::Value>>)
}

/// How a settings document's root parsed.
pub enum SettingsRoot {
    /// Not valid JSON at all; treated as an absent document.
    Malformed,
    /// Valid JSON whose root is not an object; a key cannot safely be
    /// injected into it.
    NotObject,
    /// A root object, carried as its map of entries.
    Object(JsonObject),
}

/// Relies on serde_json::from_str::<Value>: whether the text parses, whether
/// the root is an object, and the root object's entries are functions of the
/// text alone.
#[verifier::external_body]
fn parse_settings_root(s: &str) -> (r: SettingsRoot)
    ensures
        r is Malformed <==> parsed_settings(s@) is None,
        r is NotObject <==> parsed_not_object(s@),
        r matches SettingsRoot::Object(m) ==> parsed_settings(s@) == Some(Some(json_entries(m))),
{
    match serde_json::from_str::<serde_json::Value>(s) {
        Err(_) => SettingsRoot::Malformed,
        Ok(serde_json::Value::Object(m)) => SettingsRoot::Object(m),
        Ok(_) => SettingsRoot::NotObject,
    }
}

/// Relies on serde_json::Map::new: the empty object map.
#[verifier::external_body]
fn json_map_new() -> (r: JsonObject)
    ensures
        json_entries(r) == empty_entries(),
{
    serde_json::Map::new()
}

/// Relies on serde_json::Map::insert: adds the entry, replacing any entry
/// under the same key.
#[verifier::external_body]
fn json_map_insert(
    m: &mut JsonObject,
    k: String,
    v: serde_json::Value,
)
    ensures
        json_entries(*final(m)) == json_entries(*old(m)).insert(k@, v),
{
    m.insert(k, v);
}

/// Relies on serde_json::Map::remove: takes the entry under the key out of
/// the map and returns it.
#[verifier::external_body]
fn json_map_remove(m: &mut JsonObject, k: &str) -> (r: Option<serde_json::Value>)
    ensures
        json_entries(*final(m)) == json_entries(*old(m)).remove(k@),
        r matches Some(v) ==> json_entries(*old(m)).contains_key(k@) && v == json_entries(*old(m))[k@],
        r is None <==> !json_entries(*old(m)).contains_key(k@),
{
    m.remove(k)
}

/// Relies on serde_json::Value::Object: wraps an object map as a JSON value.
#[verifier::external_body]
fn value_object(m: JsonObject) -> (v: serde_json::Value)
    ensures
        json_obj(v) == Some(json_entries(m)),
{
    serde_json::Value::Object(m)
}

/// Relies on serde_json::Value's variants: the object's entry map when the
/// value is an object, `None` for any other shape.
#[verifier::external_body]
fn value_into_object(v: serde_json::Value) -> (r: Option<JsonObject>)
    ensures
        r matches Some(m) ==> json_obj(v) == Some(json_entries(m)),
        r is None <==> json_obj(v) is None,
{
    match v {
        serde_json::Value::Object(m) => Some(m),
        _ => None,
    }
}

/// Relies on serde_json::Value::String: wraps text as a JSON string value.
#[verifier::external_body]
fn value_string(s: String) -> (v: serde_json::Value)
    ensures
        json_str(v) == Some(s@),
{
    serde_json::Value::String(s)
}

/// Relies on serde_json::Value::Array: wraps elements as a JSON array value.
#[verifier::external_body]
fn value_array(items: Vec<serde_json::Value>) -> (v: serde_json::Value)
    ensures
        json_arr(v) == Some(items@),
{
    serde_json::Value::Array(items)
}

/// Relies on serde_json::to_string_pretty: deterministic pretty-printed JSON
/// for an object map. Serializing a map with string keys cannot fail, per
/// serde_json's documentation of serialization errors.
#[verifier::external_body]
fn render_object(m: &JsonObject) -> (r: String)
    ensures
        r@ == rendered_object(*m),
{
    serde_json::to_string_pretty(m).unwrap_or_default()
}

/// The operator's settings document is not shape-compatible with hook
/// injection: a key cannot safely be injected into a non-object.
#[derive(Debug, PartialEq, Eq, Structural)]
pub enum ConfigShapeError {
    /// The document's root is not an object.
    RootNotObject,
    /// The document's existing `hooks` entry is not an object.
    HooksNotObject,
}

impl ConfigShapeError {
    /// The actionable line shown when the merge is refused.
    pub fn message(&self) -> (r: &'static str)
        ensures
            self is RootNotObject ==> r@ == "settings.json is not an object"@,
            self is HooksNotObject ==> r@ == "hooks is not an object"@,
    {
        match self {
            ConfigShapeError::RootNotObject => "settings.json is not an object",
            ConfigShapeError::HooksNotObject => "hooks is not an object",
        }
    }
}

/// The completion-hook command injected into the settings: an HTTP POST to
/// the daemon on the host-gateway alias, with failures suppressed.
pub open spec fn hook_command_text(port: u16) -> Seq<char> {
    "curl -sf -X POST http://host.containers.internal:"@ + dec_str(port as nat)
        + "/notify || true"@
}

pub fn hook_command(port: u16) -> (r: String)
    ensures
        r@ == hook_command_text(port),
{
    let mut s = "curl -sf -X POST http://host.containers.internal:".to_owned();
    let digits = u64_to_string(port as u64);
    s.append(digits.as_str());
    s.append("/notify || true");
    s
}

pub open spec fn host_view(host: Option<&String>) -> Option<Seq<char>> {
    match host {
        Option::Some(s) => Some(s@),
        Option::None => None,
    }
}

/// The entries the merge starts from: the host root object when there is one,
/// the empty object when the document is absent or malformed.
pub open spec fn effective_host_entries(host: Option<Seq<char>>) -> Map<
    Seq<char>,
    serde_json::Value,
> {
    match host {
        Option::None => Map::empty(),
        Option::Some(s) => match parsed_settings(s) {
            Option::None => Map::empty(),
            Option::Some(Option::None) => Map::empty(),
            Option::Some(Option::Some(m)) => m,
        },
    }
}

/// The shape condition for injection: the root, if the document parses, is an
/// object, and its `hooks` entry, if it has one, is an object.
pub open spec fn settings_shape_ok(host: Option<Seq<char>>) -> bool {
    &&& match host {
        Option::None => true,
        Option::Some(s) => parsed_settings(s) != Some(None::<Map<Seq<char>, serde_json::Value>>),
    }
    &&& {
        let m = effective_host_entries(host);
        m.contains_key("hooks"@) ==> json_obj(m["hooks"@]) is Some
    }
}

/// The hook entries the merge starts from within the root.
pub open spec fn prior_hooks_entries(m: Map<Seq<char>, serde_json::Value>) -> Map<
    Seq<char>,
    serde_json::Value,
> {
    if m.contains_key("hooks"@) && json_obj(m["hooks"@]) is Some {
        json_obj(m["hooks"@]).unwrap()
    } else {
        Map::empty()
    }
}

/// The injected completion-hook entry: one matcher for every task, with one
/// command that posts to the daemon.
pub open spec fn is_stop_hook_value(v: serde_json::Value, port: u16) -> bool {
    match json_arr(v) {
        Option::Some(items) => items.len() == 1 && match json_obj(items[0]) {
            Option::Some(entry) => {
                &&& entry.contains_key("matcher"@)
                &&& json_str(entry["matcher"@]) == Some("*"@)
                &&& entry.contains_key("hooks"@)
                &&& match json_arr(entry["hooks"@]) {
                    Option::Some(inner) => inner.len() == 1 && match json_obj(inner[0]) {
                        Option::Some(cmd) => {
                            &&& cmd.contains_key("type"@)
                            &&& json_str(cmd["type"@]) == Some("command"@)
                            &&& cmd.contains_key("command"@)
                            &&& json_str(cmd["command"@]) == Some(hook_command_text(port))
                        },
                        Option::None => false,
                    },
                    Option::None => false,
                }
            },
            Option::None => false,
        },
        Option::None => false,
    }
}

/// The merged `hooks` value: the prior hook entries with `Stop` overwritten
/// by the injected completion hook, and nothing else changed.
pub open spec fn hooks_value_ok(
    prior: Map<Seq<char>, serde_json::Value>,
    v: serde_json::Value,
    port: u16,
) -> bool {
    match json_obj(v) {
        Option::Some(h) => {
            &&& h.dom() == prior.dom().insert("Stop"@)
            &&& forall|k: Seq<char>|
                prior.contains_key(k) && k != "Stop"@ ==> #[trigger] h[k] == prior[k]
            &&& is_stop_hook_value(h["Stop"@], port)
        },
        Option::None => false,
    }
}

/// The merged document: every key of the host document except `hooks` is
/// unchanged, and `hooks` holds the merged hook entries.
pub open spec fn settings_merged(
    host: Map<Seq<char>, serde_json::Value>,
    out: Map<Seq<char>, serde_json::Value>,
    port: u16,
) -> bool {
    &&& out.dom() == host.dom().insert("hooks"@)
    &&& forall|k: Seq<char>|
        host.contains_key(k) && k != "hooks"@ ==> #[trigger] out[k] == host[k]
    &&& out.contains_key("hooks"@)
    &&& hooks_value_ok(prior_hooks_entries(host), out["hooks"@], port)
}

/// Builds the injected `Stop` hook value for a port.
fn build_stop_hook(port: u16) -> (v: serde_json::Value)
    ensures
        is_stop_hook_value(v, port),
{
    proof {
        reveal_strlit("type");
        reveal_strlit("command");
        reveal_strlit("matcher");
        reveal_strlit("hooks");
        assert("type"@.len() == 4);
        assert("command"@.len() == 7);
        assert("matcher"@.len() == 7);
        assert("hooks"@.len() == 5);
        assert("type"@ != "command"@);
        assert("matcher"@ != "hooks"@);
    }
    let mut cmd_obj = json_map_new();
    json_map_insert(&mut cmd_obj, "type".to_owned(), value_string("command".to_owned()));
    json_map_insert(&mut cmd_obj, "command".to_owned(), value_string(hook_command(port)));
    let cmd_v = value_object(cmd_obj);
    let ghost cmd_entries = json_obj(cmd_v).unwrap();
    let mut inner: Vec<serde_json::Value> = Vec::new();
    inner.push(cmd_v);
    let inner_arr = value_array(inner);
    proof {
        assert(json_arr(inner_arr).unwrap()[0] == cmd_v);
        assert(cmd_entries.contains_key("type"@));
        assert(json_str(cmd_entries["type"@]) == Some("command"@));
        assert(cmd_entries.contains_key("command"@));
        assert(json_str(cmd_entries["command"@]) == Some(hook_command_text(port)));
    }
    let mut entry_obj = json_map_new();
    json_map_insert(&mut entry_obj, "matcher".to_owned(), value_string("*".to_owned()));
    json_map_insert(&mut entry_obj, "hooks".to_owned(), inner_arr);
    let entry_v = value_object(entry_obj);
    let ghost entry_entries = json_obj(entry_v).unwrap();
    let mut outer: Vec<serde_json::Value> = Vec::new();
    outer.push(entry_v);
    let out_v = value_array(outer);
    proof {
        assert(json_arr(out_v).unwrap()[0] == entry_v);
        assert(entry_entries.contains_key("matcher"@));
        assert(json_str(entry_entries["matcher"@]) == Some("*"@));
        assert(entry_entries.contains_key("hooks"@));
        assert(json_arr(entry_entries["hooks"@]) == Some(json_arr(inner_arr).unwrap()));
    }
    out_v
}

/// Merges the operator's settings document with the completion hook for the
/// given port. An absent or malformed document counts as empty; a document
/// whose root — or whose existing `hooks` entry — is not an object is
/// rejected, since a key cannot safely be injected into it.
pub fn build_merged_settings(host: Option<&String>, port: u16) -> (r: Result<
    JsonObject,
    ConfigShapeError,
>)
    ensures
        r is Ok <==> settings_shape_ok(host_view(host)),
        r matches Ok(m) ==> settings_merged(
            effective_host_entries(host_view(host)),
            json_entries(m),
            port,
        ),
        r matches Err(e) ==> (match host_view(host) {
            Option::Some(s) => e == (if parsed_not_object(s) {
                ConfigShapeError::RootNotObject
            } else {
                ConfigShapeError::HooksNotObject
            }),
            Option::None => false,
        }),
{
    proof {
        reveal_strlit("hooks");
        reveal_strlit("Stop");
    }
    let mut root = match host {
        None => json_map_new(),
        Some(s) => match parse_settings_root(s.as_str()) {
            SettingsRoot::Malformed => json_map_new(),
            SettingsRoot::NotObject => {
                return Err(ConfigShapeError::RootNotObject);
            },
            SettingsRoot::Object(m) => m,
        },
    };
    let ghost host_entries = effective_host_entries(host_view(host));
    proof {
        assert(json_entries(root) == host_entries);
    }
    let mut hooks_map = match json_map_remove(&mut root, "hooks") {
        None => json_map_new(),
        Some(v) => match value_into_object(v) {
            None => {
                return Err(ConfigShapeError::HooksNotObject);
            },
            Some(h) => h,
        },
    };
    proof {
        assert(json_entries(hooks_map) == prior_hooks_entries(host_entries));
    }
    let stop_hook = build_stop_hook(port);
    json_map_insert(&mut hooks_map, "Stop".to_owned(), stop_hook);
    json_map_insert(&mut root, "hooks".to_owned(), value_object(hooks_map));
    proof {
        let out = json_entries(root);
        assert(out.dom() =~= host_entries.dom().insert("hooks"@));
        assert(json_entries(hooks_map).dom() =~= prior_hooks_entries(host_entries).dom().insert(
            "Stop"@,
        ));
    }
    Ok(root)
}

/// Pretty-prints a merged settings object.
pub fn render_settings(m: &JsonObject) -> (r: String)
    ensures
        r@ == rendered_object(*m),
{
    render_object(m)
}

} // verus!
