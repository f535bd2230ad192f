//! The action router: from an action name and its payload to a response
//! envelope that lists, in order, the effects the host should apply.

use vstd::prelude::*;
use crate::effect::{success_toast, success_toast_v, Effect, EffectV, ToastLevel};
use crate::json::{Json, JsonV, Member};

verus! {

/// One request: the action to run, its payload, and the host's context.
#[derive(Debug)]
pub struct ExecInput {
    pub action: String,
    pub payload: Json,
    pub ctx: Json,
}

/// Why a request was refused.
#[derive(Debug)]
pub enum ExecError {
    /// A required field is missing, not a string, or empty.
    BadRequest { message: String },
    /// The action is not one the router knows.
    UnknownAction,
}

/// The mathematical model of an error.
pub enum ExecErrorV {
    BadRequest(Seq<char>),
    UnknownAction,
}

impl View for ExecError {
    type V = ExecErrorV;

    open spec fn view(&self) -> ExecErrorV {
        match self {
            ExecError::BadRequest { message } => ExecErrorV::BadRequest(message@),
            ExecError::UnknownAction => ExecErrorV::UnknownAction,
        }
    }
}

impl ExecError {
    /// The error's code on the wire.
    pub fn code(&self) -> (r: &'static str)
        ensures
            r@ == match self@ {
                ExecErrorV::BadRequest(_) => "BAD_REQUEST"@,
                ExecErrorV::UnknownAction => "UNKNOWN_ACTION"@,
            },
    {
        match self {
            ExecError::BadRequest { .. } => "BAD_REQUEST",
            ExecError::UnknownAction => "UNKNOWN_ACTION",
        }
    }

    /// The error's human-readable message, where it has one.
    pub fn message(&self) -> (r: Option<&str>)
        ensures
            match self@ {
                ExecErrorV::BadRequest(m) => r matches Some(s) && s@ == m,
                ExecErrorV::UnknownAction => r is None,
            },
    {
        match self {
            ExecError::BadRequest { message } => Some(message.as_str()),
            ExecError::UnknownAction => None,
        }
    }
}

/// The response envelope.
#[derive(Debug)]
pub struct ExecOutput {
    pub ok: bool,
    pub data: Option<Json>,
    pub effects: Vec<Effect>,
    pub error: Option<ExecError>,
}

/// The mathematical model of a response envelope.
pub struct ExecOutputV {
    pub ok: bool,
    pub data: Option<JsonV>,
    pub effects: Seq<EffectV>,
    pub error: Option<ExecErrorV>,
}

impl View for ExecOutput {
    type V = ExecOutputV;

    open spec fn view(&self) -> ExecOutputV {
        ExecOutputV {
            ok: self.ok,
            data: match self.data {
                Some(d) => Some(d@),
                None => None,
            },
            effects: self.effects@.map_values(|e: Effect| e@),
            error: match self.error {
                Some(e) => Some(e@),
                None => None,
            },
        }
    }
}

impl ExecOutputV {
    /// A response either succeeds with no error, or fails with an error and
    /// no effects: validation comes before any effect is built.
    pub open spec fn wf(self) -> bool {
        &&& self.ok <==> self.error is None
        &&& !self.ok ==> self.effects.len() == 0
    }
}

/// A successful response with `effects`.
pub open spec fn succeeded(effects: Seq<EffectV>) -> ExecOutputV {
    ExecOutputV { ok: true, data: None, effects, error: None }
}

/// A failed response with `error` and no effects.
pub open spec fn failed(error: ExecErrorV) -> ExecOutputV {
    ExecOutputV { ok: false, data: None, effects: Seq::empty(), error: Some(error) }
}

/// The value stored under the document's metadata key by `sample.create`.
pub open spec fn sample_marker_v() -> JsonV {
    JsonV::Object(seq!["isSample"@], seq![JsonV::Bool(true)])
}

/// The record data used when `sample.create_record` is given none.
pub open spec fn default_record_data_v() -> JsonV {
    JsonV::Object(seq!["message"@], seq![JsonV::Str("sample"@)])
}

/// The empty object.
pub open spec fn empty_object_v() -> JsonV {
    JsonV::Object(Seq::empty(), Seq::empty())
}

/// The value of a required string field: present, a string, and not empty.
pub open spec fn required_str_v(payload: JsonV, key: Seq<char>) -> Option<Seq<char>> {
    match payload.str_member(key) {
        Some(s) => if s.len() > 0 {
            Some(s)
        } else {
            None
        },
        None => None,
    }
}

/// The value of an optional member, or `default` where it is absent.
pub open spec fn member_or(payload: JsonV, key: Seq<char>, default: JsonV) -> JsonV {
    match payload.member(key) {
        Some(v) => v,
        None => default,
    }
}

/// The title of the document that `sample.create` makes: the payload's
/// `title` where it is a string, else a default.
pub open spec fn document_title_v(payload: JsonV) -> Seq<char> {
    match payload.str_member("title"@) {
        Some(t) => t,
        None => "Sample Plugin Demo"@,
    }
}

/// The actions the router knows.
pub open spec fn is_known_action(action: Seq<char>) -> bool {
    ||| action == "sample.hello"@
    ||| action == "sample.create"@
    ||| action == "sample.create_record"@
    ||| action == "sample.update_record"@
    ||| action == "sample.delete_record"@
}

/// The response to `action` with `payload`.
pub open spec fn routed(action: Seq<char>, payload: JsonV) -> ExecOutputV {
    if action == "sample.hello"@ {
        succeeded(seq![success_toast_v("Hello from Sample plugin!"@)])
    } else if action == "sample.create"@ {
        succeeded(
            seq![
                EffectV::CreateDocument { title: document_title_v(payload), doc_type: "document"@ },
                EffectV::PutKv { scope: "doc"@, key: "meta"@, value: sample_marker_v() },
                success_toast_v("Sample document created"@),
                EffectV::Navigate { to: "/sample/:createdDocId"@ },
            ],
        )
    } else if action == "sample.create_record"@ {
        match required_str_v(payload, "docId"@) {
            Some(doc_id) => succeeded(
                seq![
                    EffectV::CreateRecord {
                        scope: "doc"@,
                        doc_id,
                        kind: "sample"@,
                        data: member_or(payload, "data"@, default_record_data_v()),
                    },
                    success_toast_v("Created a sample record"@),
                ],
            ),
            None => failed(ExecErrorV::BadRequest("docId required"@)),
        }
    } else if action == "sample.update_record"@ {
        match required_str_v(payload, "recordId"@) {
            Some(record_id) => succeeded(
                seq![
                    EffectV::UpdateRecord {
                        record_id,
                        patch: member_or(payload, "patch"@, empty_object_v()),
                    },
                    success_toast_v("Record updated"@),
                ],
            ),
            None => failed(ExecErrorV::BadRequest("recordId required"@)),
        }
    } else if action == "sample.delete_record"@ {
        match required_str_v(payload, "recordId"@) {
            Some(record_id) => succeeded(
                seq![EffectV::DeleteRecord { record_id }, success_toast_v("Record deleted"@)],
            ),
            None => failed(ExecErrorV::BadRequest("recordId required"@)),
        }
    } else {
        failed(ExecErrorV::UnknownAction)
    }
}

} // verus!

verus! {

/// Whether `action` is the action called `name`.
fn is_action(action: &String, name: &str) -> (r: bool)
    ensures
        r == (action@ == name@),
{
    *action == name.to_string()
}

/// A required string field: present, a string, and not empty.
fn required_str<'a>(payload: &'a Json, key: &str) -> (r: Option<&'a str>)
    ensures
        match r {
            Some(s) => required_str_v(payload@, key@) == Some(s@),
            None => required_str_v(payload@, key@) is None,
        },
{
    match payload.get(key) {
        Some(v) => match v.as_str() {
            Some(s) => if s.is_empty() {
                None
            } else {
                Some(s)
            },
            None => None,
        },
        None => None,
    }
}

/// The payload's document id, which `sample.create_record` requires.
fn require_doc_id(payload: &Json) -> (r: Result<&str, ExecError>)
    ensures
        match r {
            Ok(s) => required_str_v(payload@, "docId"@) == Some(s@),
            Err(e) => required_str_v(payload@, "docId"@) is None && e@ == ExecErrorV::BadRequest(
                "docId required"@,
            ),
        },
{
    match required_str(payload, "docId") {
        Some(s) => Ok(s),
        None => Err(ExecError::BadRequest { message: "docId required".to_string() }),
    }
}

/// The payload's record id, which the record updates and deletions require.
fn require_record_id(payload: &Json) -> (r: Result<&str, ExecError>)
    ensures
        match r {
            Ok(s) => required_str_v(payload@, "recordId"@) == Some(s@),
            Err(e) => required_str_v(payload@, "recordId"@) is None && e@ == ExecErrorV::BadRequest(
                "recordId required"@,
            ),
        },
{
    match required_str(payload, "recordId") {
        Some(s) => Ok(s),
        None => Err(ExecError::BadRequest { message: "recordId required".to_string() }),
    }
}

/// A successful response with `effects`.
fn succeed(effects: Vec<Effect>) -> (r: ExecOutput)
    ensures
        r@ == succeeded(effects@.map_values(|e: Effect| e@)),
{
    ExecOutput { ok: true, data: None, effects, error: None }
}

/// A failed response with `error` and no effects.
fn fail(error: ExecError) -> (r: ExecOutput)
    ensures
        r@ == failed(error@),
{
    let r = ExecOutput { ok: false, data: None, effects: Vec::new(), error: Some(error) };
    assert(r@.effects =~= Seq::empty());
    r
}

/// Runs one request: checks the payload fields that the action requires,
/// then lists the effects the host should apply. The context is not read.
pub fn exec(input: ExecInput) -> (out: ExecOutput)
    ensures
        out@ == routed(input.action@, input.payload@),
        out@.wf(),
        !is_known_action(input.action@) ==> out@ == failed(ExecErrorV::UnknownAction),
        input.action@ == "sample.hello"@ ==> {
            &&& out@.ok
            &&& out@.effects.len() == 1
            &&& out@.effects[0] matches EffectV::ShowToast { level, .. } && level
                == ToastLevel::Success
        },
        input.action@ == "sample.create"@ ==> {
            &&& out@.ok
            &&& out@.effects.len() == 4
            &&& out@.effects[0] == EffectV::CreateDocument {
                title: document_title_v(input.payload@),
                doc_type: "document"@,
            }
            &&& out@.effects[1] is PutKv
            &&& out@.effects[2] is ShowToast
            &&& out@.effects[3] is Navigate
        },
{
    proof {
        reveal_strlit("sample.hello");
        reveal_strlit("sample.create");
        assert("sample.create"@.len() != "sample.hello"@.len());
    }
    let ExecInput { action, payload, ctx: _ } = input;
    let ghost expected = routed(action@, payload@);
    let mut effects: Vec<Effect> = Vec::new();
    if is_action(&action, "sample.hello") {
        effects.push(success_toast("Hello from Sample plugin!"));
        assert(effects@.map_values(|e: Effect| e@) =~= expected.effects);
        succeed(effects)
    } else if is_action(&action, "sample.create") {
        let default_title = "Sample Plugin Demo";
        let title = match payload.get("title") {
            Some(v) => match v.as_str() {
                Some(t) => t.to_string(),
                None => default_title.to_string(),
            },
            None => default_title.to_string(),
        };
        effects.push(Effect::CreateDocument { title, doc_type: "document".to_string() });
        effects.push(
            Effect::PutKv {
                scope: "doc".to_string(),
                key: "meta".to_string(),
                value: Json::object_with("isSample", Json::Bool(true)),
            },
        );
        effects.push(success_toast("Sample document created"));
        effects.push(Effect::Navigate { to: "/sample/:createdDocId".to_string() });
        assert(effects@.map_values(|e: Effect| e@) =~= expected.effects);
        succeed(effects)
    } else if is_action(&action, "sample.create_record") {
        let checked = require_doc_id(&payload);
        let doc_id = match checked {
            Ok(s) => s.to_string(),
            Err(e) => {
                return fail(e);
            },
        };
        let data = match payload.into_member("data") {
            Some(d) => d,
            None => Json::object_with("message", Json::Str("sample".to_string())),
        };
        effects.push(
            Effect::CreateRecord {
                scope: "doc".to_string(),
                doc_id,
                kind: "sample".to_string(),
                data,
            },
        );
        effects.push(success_toast("Created a sample record"));
        assert(effects@.map_values(|e: Effect| e@) =~= expected.effects);
        succeed(effects)
    } else if is_action(&action, "sample.update_record") {
        let checked = require_record_id(&payload);
        let record_id = match checked {
            Ok(s) => s.to_string(),
            Err(e) => {
                return fail(e);
            },
        };
        let patch = match payload.into_member("patch") {
            Some(p) => p,
            None => Json::empty_object(),
        };
        effects.push(Effect::UpdateRecord { record_id, patch });
        effects.push(success_toast("Record updated"));
        assert(effects@.map_values(|e: Effect| e@) =~= expected.effects);
        succeed(effects)
    } else if is_action(&action, "sample.delete_record") {
        let checked = require_record_id(&payload);
        let record_id = match checked {
            Ok(s) => s.to_string(),
            Err(e) => {
                return fail(e);
            },
        };
        effects.push(Effect::DeleteRecord { record_id });
        effects.push(success_toast("Record deleted"));
        assert(effects@.map_values(|e: Effect| e@) =~= expected.effects);
        succeed(effects)
    } else {
        fail(ExecError::UnknownAction)
    }
}

} // verus!

verus! {

/// Routing keeps no state between calls: two requests with the same action
/// and the same payload get the same response, whatever their contexts.
pub proof fn lemma_same_request_same_response(first: ExecInput, second: ExecInput)
    requires
        first.action@ == second.action@,
        first.payload@ == second.payload@,
    ensures
        routed(first.action@, first.payload@) == routed(second.action@, second.payload@),
{
}

/// A required id that is an empty string counts as missing: the request is
/// refused, exactly as one whose payload lacks the field.
pub proof fn lemma_empty_id_is_missing(action: Seq<char>, payload: JsonV, without: JsonV)
    requires
        ({
            let key = if action == "sample.create_record"@ {
                "docId"@
            } else {
                "recordId"@
            };
            &&& action == "sample.create_record"@ || action == "sample.update_record"@ || action
                == "sample.delete_record"@
            &&& payload.str_member(key) == Some(Seq::<char>::empty())
            &&& without.member(key) is None
        }),
    ensures
        routed(action, payload) == routed(action, without),
        routed(action, payload).error matches Some(ExecErrorV::BadRequest(_)),
{
    reveal_strlit("sample.hello");
    reveal_strlit("sample.create");
    reveal_strlit("sample.create_record");
    reveal_strlit("sample.update_record");
    reveal_strlit("sample.delete_record");
    assert("sample.create_record"@[7] != "sample.update_record"@[7]);
    assert("sample.create_record"@[7] != "sample.delete_record"@[7]);
    assert("sample.update_record"@[7] != "sample.delete_record"@[7]);
    assert(action.len() != "sample.hello"@.len() && action.len() != "sample.create"@.len());
}

} // verus!
