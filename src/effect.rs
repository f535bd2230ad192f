//! Effects: declarative descriptions of what the host should do next.

use vstd::prelude::*;
use crate::json::{Json, JsonV};

verus! {

/// How a toast is shown.
#[derive(Clone, Copy, Debug, PartialEq, Eq, Structural)]
pub enum ToastLevel {
    Success,
}

/// One host-side effect. The router only builds these; the host performs them.
#[derive(Debug)]
pub enum Effect {
    ShowToast { level: ToastLevel, message: String },
    CreateDocument { title: String, doc_type: String },
    PutKv { scope: String, key: String, value: Json },
    Navigate { to: String },
    CreateRecord { scope: String, doc_id: String, kind: String, data: Json },
    UpdateRecord { record_id: String, patch: Json },
    DeleteRecord { record_id: String },
}

/// The mathematical model of an effect.
pub enum EffectV {
    ShowToast { level: ToastLevel, message: Seq<char> },
    CreateDocument { title: Seq<char>, doc_type: Seq<char> },
    PutKv { scope: Seq<char>, key: Seq<char>, value: JsonV },
    Navigate { to: Seq<char> },
    CreateRecord { scope: Seq<char>, doc_id: Seq<char>, kind: Seq<char>, data: JsonV },
    UpdateRecord { record_id: Seq<char>, patch: JsonV },
    DeleteRecord { record_id: Seq<char> },
}

impl View for Effect {
    type V = EffectV;

    open spec fn view(&self) -> EffectV {
        match self {
            Effect::ShowToast { level, message } => EffectV::ShowToast {
                level: *level,
                message: message@,
            },
            Effect::CreateDocument { title, doc_type } => EffectV::CreateDocument {
                title: title@,
                doc_type: doc_type@,
            },
            Effect::PutKv { scope, key, value } => EffectV::PutKv {
                scope: scope@,
                key: key@,
                value: value@,
            },
            Effect::Navigate { to } => EffectV::Navigate { to: to@ },
            Effect::CreateRecord { scope, doc_id, kind, data } => EffectV::CreateRecord {
                scope: scope@,
                doc_id: doc_id@,
                kind: kind@,
                data: data@,
            },
            Effect::UpdateRecord { record_id, patch } => EffectV::UpdateRecord {
                record_id: record_id@,
                patch: patch@,
            },
            Effect::DeleteRecord { record_id } => EffectV::DeleteRecord { record_id: record_id@ },
        }
    }
}

/// A toast that reports success with `message`.
pub open spec fn success_toast_v(message: Seq<char>) -> EffectV {
    EffectV::ShowToast { level: ToastLevel::Success, message }
}

/// Builds a toast that reports success with `message`.
pub fn success_toast(message: &str) -> (r: Effect)
    ensures
        r@ == success_toast_v(message@),
{
    Effect::ShowToast { level: ToastLevel::Success, message: message.to_string() }
}

} // verus!
