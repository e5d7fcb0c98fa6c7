//! Configuration values as the user interface edits and submits them.

use crate::json::{
    json_eq, lemma_members_view_absent, lemma_members_view_dom, lemma_members_view_has,
    lemma_members_view_last, lemma_members_view_push, position, Json, JsonValue,
};
use vstd::prelude::*;

pub use crate::sandbox::ZenohMode;
use crate::naming::{port_text_of, websocket_port_text};
use crate::sandbox::{push_sandbox_steps, sandbox_steps, steps_view, ConfigStep, ConfigStepView};

verus! {

/// The text of a configuration as a user edits it.
#[derive(Debug, PartialEq, Eq)]
pub struct ZenohConfigEdit {
    /// The configuration as JSON text.
    pub content: String,
}

impl ZenohConfigEdit {
    /// Whether a content asks for the runtime's default configuration: it is
    /// blank, or the empty object.
    pub open spec fn asks_default(content: Seq<char>) -> bool {
        crate::text::trimmed(content).len() == 0 || crate::text::trimmed(content) == "{}"@
    }

    /// Whether the edited content asks for the runtime's default
    /// configuration rather than for the one it spells out.
    pub fn wants_default(&self) -> (r: bool)
        ensures
            r == ZenohConfigEdit::asks_default(self.content@),
    {
        let content = self.content.as_str();
        let (start, end) = crate::text::trim_bounds(content);
        proof {
            reveal_strlit("{}");
        }
        if start == end {
            true
        } else if end - start == 2 {
            let open = content.get_char(start);
            let close = content.get_char(start + 1);
            assert(crate::text::trimmed(content@)[0] == open);
            assert(crate::text::trimmed(content@)[1] == close);
            if open == '{' && close == '}' {
                assert(crate::text::trimmed(content@) =~= "{}"@);
                true
            } else {
                false
            }
        } else {
            false
        }
    }

    /// The error for a content that the runtime refuses with `reason`.
    pub open spec fn invalid_message(reason: Seq<char>) -> Seq<char> {
        "Invalid JSON config: "@ + reason
    }

    /// What comes of reading the content as a configuration, given the
    /// runtime's verdict on it: the content where it was accepted, the error
    /// with the reason where not.
    pub fn to_config(self, verdict: Result<(), String>) -> (r: Result<String, String>)
        ensures
            match r {
                Ok(content) => verdict is Ok && content@ == self.content@,
                Err(message) => verdict is Err && message@ == ZenohConfigEdit::invalid_message(
                    verdict->Err_0@,
                ),
            },
    {
        match verdict {
            Ok(()) => Ok(self.content),
            Err(reason) => {
                let mut message = String::from_str("Invalid JSON config: ");
                message.append(reason.as_str());
                Err(message)
            },
        }
    }

    /// The edit whose content is a configuration written as JSON.
    pub fn from_config(json: String) -> (r: Self)
        ensures
            r.content@ == json@,
    {
        ZenohConfigEdit { content: json }
    }
}

impl Clone for ZenohConfigEdit {
    fn clone(&self) -> (r: Self)
        ensures
            r.content@ == self.content@,
    {
        ZenohConfigEdit { content: self.content.clone() }
    }
}

impl Default for ZenohConfigEdit {
    fn default() -> (r: Self)
        ensures
            r.content@ == "{}"@,
    {
        ZenohConfigEdit { content: String::from_str("{}") }
    }
}

/// A configuration of a runtime as a JSON document that the runtime accepts.
/// A value is made only from a document together with the verdict on it.
#[derive(Debug, PartialEq)]
pub struct ZenohConfigJson {
    config_json: Json,
}

impl View for ZenohConfigJson {
    type V = JsonValue;

    closed spec fn view(&self) -> JsonValue {
        self.config_json@
    }
}

impl Clone for ZenohConfigJson {
    fn clone(&self) -> (r: Self)
        ensures
            r@ == self@,
    {
        ZenohConfigJson { config_json: self.config_json.clone() }
    }
}

impl ZenohConfigJson {
    /// The error for a document that the runtime refuses with `reason`.
    pub open spec fn invalid_message(reason: Seq<char>) -> Seq<char> {
        "Invalid zenoh config JSON: "@ + reason
    }

    /// Makes a configuration of a document and the verdict of the runtime's own
    /// reading of it: the document where it was accepted, the reason where not.
    pub fn from_json(json: Json, verdict: Result<(), String>) -> (r: Result<Self, String>)
        ensures
            match r {
                Ok(config) => verdict is Ok && config@ == json@,
                Err(message) => verdict is Err && message@ == ZenohConfigJson::invalid_message(
                    verdict->Err_0@,
                ),
            },
    {
        match verdict {
            Ok(()) => Ok(ZenohConfigJson { config_json: json }),
            Err(reason) => {
                let mut message = String::from_str("Invalid zenoh config JSON: ");
                message.append(reason.as_str());
                Err(message)
            },
        }
    }

    /// The document.
    pub fn as_json(&self) -> (r: &Json)
        ensures
            r@ == self@,
    {
        &self.config_json
    }

    /// The document, given up by the configuration.
    pub fn into_json(self) -> (r: Json)
        ensures
            r@ == self@,
    {
        self.config_json
    }

    /// The changes that a declared configuration gets before a worker starts
    /// with it, unseen by the user: those of the sandbox, with the port that was
    /// reserved for the runtime.
    pub fn runtime_overrides(port: u16) -> (r: Vec<ConfigStep>)
        ensures
            steps_view(r@) == sandbox_steps(port_text_of(port)),
    {
        let mut steps: Vec<ConfigStep> = Vec::new();
        assert(steps_view(steps@) =~= Seq::<ConfigStepView>::empty());
        push_sandbox_steps(&mut steps, websocket_port_text(port));
        assert(Seq::<ConfigStepView>::empty() + sandbox_steps(port_text_of(port)) =~= sandbox_steps(
            port_text_of(port),
        ));
        steps
    }

    /// A text between double quotes.
    pub open spec fn quoted(text: Seq<char>) -> Seq<char> {
        "\""@ + text + "\""@
    }

    /// The changes that turn the runtime's default configuration into the default
    /// of the sandbox for a mode and a port: the mode is set, then come the
    /// changes of the sandbox. The mode must be one of the three.
    pub fn create_default(mode: &str, websocket_port: &str) -> (r: Result<Vec<ConfigStep>, String>)
        ensures
            match r {
                Ok(steps) => ZenohMode::of_name(mode@) is Some && steps_view(steps@)
                    == seq![ConfigStepView::SetMode(ZenohMode::of_name(mode@)->Some_0)]
                    + sandbox_steps(ZenohConfigJson::quoted(websocket_port@)),
                Err(message) => ZenohMode::of_name(mode@) is None && message@
                    == ZenohMode::invalid_message(mode@),
            },
    {
        let mode = match ZenohMode::from_str(mode) {
            Ok(mode) => mode,
            Err(message) => {
                return Err(message);
            },
        };
        let mut steps: Vec<ConfigStep> = Vec::new();
        steps.push(ConfigStep::SetMode(mode));
        assert(steps_view(steps@) =~= seq![ConfigStepView::SetMode(mode)]);
        let mut port_text = String::from_str("\"");
        port_text.append(websocket_port);
        port_text.append("\"");
        push_sandbox_steps(&mut steps, port_text);
        Ok(steps)
    }

    /// What the document has under `plugins`, `remote_api`, `websocket_port`.
    pub open spec fn websocket_port_member(config: JsonValue) -> Option<JsonValue> {
        match config.get("plugins"@) {
            Some(plugins) => match plugins.get("remote_api"@) {
                Some(remote_api) => remote_api.get("websocket_port"@),
                None => None,
            },
            None => None,
        }
    }

    /// The mode that the document names, if it names one of the three.
    pub open spec fn mode_value(config: JsonValue) -> Option<ZenohMode> {
        match config.get("mode"@) {
            Some(JsonValue::String(name)) => ZenohMode::of_name(name),
            _ => None,
        }
    }

    /// The mode that the configuration names, if it names one of the three.
    pub fn get_mode(&self) -> (r: Option<ZenohMode>)
        ensures
            r == ZenohConfigJson::mode_value(self@),
    {
        match self.config_json.get("mode") {
            Some(Json::String(name)) => match ZenohMode::from_str(name.as_str()) {
                Ok(mode) => Some(mode),
                Err(_) => None,
            },
            _ => None,
        }
    }

    /// The port of the remote API's websocket where the document gives it as
    /// a text.
    pub fn get_websocket_port_text(&self) -> (r: Option<String>)
        ensures
            match r {
                Some(text) => ZenohConfigJson::websocket_port_member(self@) == Some(
                    JsonValue::String(text@),
                ),
                None => !(ZenohConfigJson::websocket_port_member(self@) matches Some(
                    JsonValue::String(_),
                )),
            },
    {
        match self.config_json.get("plugins") {
            Some(plugins) => match plugins.get("remote_api") {
                Some(remote_api) => match remote_api.get("websocket_port") {
                    Some(Json::String(text)) => Some(text.clone()),
                    _ => None,
                },
                None => None,
            },
            None => None,
        }
    }

    /// The port of the remote API's websocket, if the document names one.
    pub open spec fn websocket_port_value(config: JsonValue) -> Option<u64> {
        match config.get("plugins"@) {
            Some(plugins) => match plugins.get("remote_api"@) {
                Some(remote_api) => match remote_api.get("websocket_port"@) {
                    Some(port) => port.as_u64(),
                    None => None,
                },
                None => None,
            },
            None => None,
        }
    }

    /// The port of the remote API's websocket: the number under `plugins`,
    /// `remote_api`, `websocket_port`, cut to sixteen bits.
    pub fn get_websocket_port(&self) -> (r: Option<u16>)
        ensures
            r == match ZenohConfigJson::websocket_port_value(self@) {
                Some(port) => Some((port % 0x1_0000) as u16),
                None => None,
            },
    {
        match self.config_json.get("plugins") {
            Some(plugins) => match plugins.get("remote_api") {
                Some(remote_api) => match remote_api.get("websocket_port") {
                    Some(port) => match port.as_u64() {
                        Some(port) => Some((port % 0x1_0000) as u16),
                        None => None,
                    },
                    None => None,
                },
                None => None,
            },
            None => None,
        }
    }
}

/// Whether a difference is worth keeping: it is neither null nor an object
/// without members.
pub fn is_kept(difference: &Json) -> (r: bool)
    ensures
        r == difference@.is_kept(),
{
    match difference {
        Json::Null => false,
        Json::Object(members) => {
            if members.len() == 0 {
                assert(Json::members_view(members@).dom() =~= Set::<Seq<char>>::empty());
                false
            } else {
                proof {
                    lemma_members_view_has(members@, 0);
                }
                true
            }
        },
        _ => true,
    }
}

/// Whether one of the first `until` members has a key.
pub open spec fn has_key_before(members: Seq<(String, Json)>, until: int, key: Seq<char>) -> bool {
    exists|t: int| 0 <= t < until && (#[trigger] members[t]).0@ == key
}

/// Computes the difference between two JSON documents: of two objects, the
/// object that holds the members of `modified` that `base` lacks or has with
/// another value (for these the difference of the two values, if it is worth
/// keeping) and null for every member that only `base` has; of two other
/// documents, null where they are the same and `modified` where not.
pub fn json_diff(base: &Json, modified: &Json) -> (r: Json)
    ensures
        r@ == JsonValue::diff(base@, modified@),
    decreases modified,
{
    match (base, modified) {
        (Json::Object(bm), Json::Object(mm)) => {
            let ghost b = Json::members_view(bm@);
            let ghost m = Json::members_view(mm@);
            let ghost target = JsonValue::diff(base@, modified@)->Object_0;
            assert(base@ == JsonValue::Object(b) && modified@ == JsonValue::Object(m));
            assert forall|key: Seq<char>|
                (#[trigger] target.contains_key(key)) == (JsonValue::diff_member(b, m, key)
                    is Some) && (target.contains_key(key) ==> target[key]
                    == JsonValue::diff_member(b, m, key)->Some_0) by {}
            let mut out: Vec<(String, Json)> = Vec::new();
            let mut i: usize = 0;
            while i < mm.len()
                invariant
                    i <= mm.len(),
                    *modified == Json::Object(*mm),
                    b == Json::members_view(bm@),
                    m == Json::members_view(mm@),
                    forall|key: Seq<char>| #[trigger]
                        Json::members_view(out@).contains_key(key) <==> (JsonValue::diff_member(
                            b,
                            m,
                            key,
                        ) is Some && has_key_before(mm@, i as int, key)),
                    forall|key: Seq<char>| #[trigger]
                        Json::members_view(out@).contains_key(key) ==> Json::members_view(
                            out@,
                        )[key] == JsonValue::diff_member(b, m, key)->Some_0,
                decreases mm.len() - i,
            {
                let key = mm[i].0.as_str();
                let ghost before = Json::members_view(out@);
                proof {
                    lemma_members_view_has(mm@, i as int);
                    assert forall|k: Seq<char>|
                        has_key_before(mm@, i as int + 1, k) <==> (has_key_before(
                            mm@,
                            i as int,
                            k,
                        ) || k == key@) by {
                        if has_key_before(mm@, i as int + 1, k) {
                            let t = choose|t: int|
                                0 <= t < i as int + 1 && (#[trigger] mm@[t]).0@ == k;
                            if t < i {
                                assert(has_key_before(mm@, i as int, k));
                            }
                        }
                        if has_key_before(mm@, i as int, k) {
                            let t = choose|t: int| 0 <= t < i as int && (#[trigger] mm@[t]).0@ == k;
                            assert(0 <= t < i as int + 1 && mm@[t].0@ == k);
                        }
                        if k == key@ {
                            assert(mm@[i as int].0@ == k);
                        }
                    }
                }
                match position(mm, key) {
                    None => {
                        assert(mm[i as int].0@ != key@);
                    },
                    Some(pm) => {
                        proof {
                            lemma_members_view_last(mm@, key@, pm as int);
                        }
                        match position(bm, key) {
                            None => {
                                proof {
                                    lemma_members_view_absent(bm@, key@);
                                }
                                let name = mm[i].0.clone();
                                let value = mm[pm].1.clone();
                                proof {
                                    lemma_members_view_push(out@, name, value);
                                }
                                out.push((name, value));
                            },
                            Some(pb) => {
                                proof {
                                    lemma_members_view_last(bm@, key@, pb as int);
                                    vstd::std_specs::vec::axiom_vec_index_decreases(
                                        *mm,
                                        pm as int,
                                    );
                                    assert(decreases_to!(*modified => modified->Object_0));
                                }
                                if !json_eq(&bm[pb].1, &mm[pm].1) {
                                    let nested = json_diff(&bm[pb].1, &mm[pm].1);
                                    if is_kept(&nested) {
                                        let name = mm[i].0.clone();
                                        proof {
                                            lemma_members_view_push(out@, name, nested);
                                        }
                                        out.push((name, nested));
                                    }
                                }
                            },
                        }
                    },
                }
                i += 1;
            }
            let mut j: usize = 0;
            while j < bm.len()
                invariant
                    j <= bm.len(),
                    b == Json::members_view(bm@),
                    m == Json::members_view(mm@),
                    forall|key: Seq<char>| #[trigger]
                        Json::members_view(out@).contains_key(key) <==> (JsonValue::diff_member(
                            b,
                            m,
                            key,
                        ) is Some && (has_key_before(mm@, mm@.len() as int, key) || has_key_before(
                            bm@,
                            j as int,
                            key,
                        ))),
                    forall|key: Seq<char>| #[trigger]
                        Json::members_view(out@).contains_key(key) ==> Json::members_view(
                            out@,
                        )[key] == JsonValue::diff_member(b, m, key)->Some_0,
                decreases bm.len() - j,
            {
                let key = bm[j].0.as_str();
                proof {
                    lemma_members_view_has(bm@, j as int);
                    assert forall|k: Seq<char>|
                        has_key_before(bm@, j as int + 1, k) <==> (has_key_before(
                            bm@,
                            j as int,
                            k,
                        ) || k == key@) by {
                        if has_key_before(bm@, j as int + 1, k) {
                            let t = choose|t: int|
                                0 <= t < j as int + 1 && (#[trigger] bm@[t]).0@ == k;
                            if t < j {
                                assert(has_key_before(bm@, j as int, k));
                            }
                        }
                        if has_key_before(bm@, j as int, k) {
                            let t = choose|t: int| 0 <= t < j as int && (#[trigger] bm@[t]).0@ == k;
                            assert(0 <= t < j as int + 1 && bm@[t].0@ == k);
                        }
                        if k == key@ {
                            assert(bm@[j as int].0@ == k);
                        }
                    }
                }
                match position(mm, key) {
                    None => {
                        proof {
                            lemma_members_view_absent(mm@, key@);
                        }
                        let name = bm[j].0.clone();
                        proof {
                            lemma_members_view_push(out@, name, Json::Null);
                        }
                        out.push((name, Json::Null));
                    },
                    Some(pm) => {
                        proof {
                            lemma_members_view_last(mm@, key@, pm as int);
                            assert(mm@[pm as int].0@ == key@);
                            assert(has_key_before(mm@, mm@.len() as int, key@));
                        }
                    },
                }
                j += 1;
            }
            proof {
                let built = Json::members_view(out@);
                assert forall|key: Seq<char>| #[trigger]
                    built.dom().contains(key) <==> target.dom().contains(key) by {
                    if JsonValue::diff_member(b, m, key) is Some {
                        if m.contains_key(key) {
                            lemma_members_view_dom(mm@, key);
                            let t = choose|t: int|
                                0 <= t < mm@.len() && (#[trigger] mm@[t]).0@ == key;
                            assert(has_key_before(mm@, mm@.len() as int, key));
                        } else {
                            lemma_members_view_dom(bm@, key);
                            let t = choose|t: int|
                                0 <= t < bm@.len() && (#[trigger] bm@[t]).0@ == key;
                            assert(has_key_before(bm@, bm@.len() as int, key));
                        }
                    }
                    assert(built.contains_key(key) == built.dom().contains(key));
                }
                assert(built.dom() =~= target.dom());
                assert(built =~= target);
            }
            Json::Object(out)
        },
        _ => {
            if json_eq(base, modified) {
                Json::Null
            } else {
                modified.clone()
            }
        },
    }
}

} // verus!
