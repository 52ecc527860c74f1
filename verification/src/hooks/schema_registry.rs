//! Which payloads and decisions the hook protocol knows.

use crate::hooks::decision::HookOutcome;
use crate::text::same_text;
use vstd::prelude::*;

verus! {

#[derive(Debug, PartialEq, Eq)]
pub enum HookPayloadValidationError {
    Invalid(String),
}

impl HookPayloadValidationError {
    pub fn message(&self) -> (r: String)
        ensures
            r@ == "invalid payload: "@ + self->0@,
    {
        let mut out: Vec<char> = Vec::new();
        crate::text::push_str(&mut out, "invalid payload: ");
        match self {
            HookPayloadValidationError::Invalid(m) => {
                crate::text::push_str(&mut out, m.as_str());
            },
        }
        crate::text::string_of(&out)
    }
}

/// What decoding a payload document showed: whether it is a JSON
/// object, its `schemaVersion` and `event` where they are strings, and
/// whether it decodes as a whole, with the decoder's message where it
/// does not.
#[derive(Debug)]
pub struct PayloadShape {
    pub is_object: bool,
    pub schema_version: Option<String>,
    pub event: Option<String>,
    pub decodes: Result<(), String>,
}

/// What is wrong with a payload, if anything.
pub open spec fn payload_problem(doc: Result<PayloadShape, String>) -> Option<Seq<char>> {
    match doc {
        Err(m) => Some(m@),
        Ok(shape) => if !shape.is_object {
            Some("payload must be an object"@)
        } else if shape.schema_version.deep_view() != Some("1.0"@) {
            Some("unsupported schemaVersion"@)
        } else if shape.event is None {
            Some("event must be provided"@)
        } else {
            match shape.decodes {
                Err(m) => Some(m@),
                Ok(_) => None,
            }
        },
    }
}

#[derive(Debug, Default)]
pub struct HookSchemaRegistry;

impl HookSchemaRegistry {
    /// Validates a payload document, given what decoding it showed: it
    /// must be JSON, an object, of schema version 1.0, name its event,
    /// and decode as a whole.
    pub fn validate_payload(doc: &Result<PayloadShape, String>) -> (r: Result<
        (),
        HookPayloadValidationError,
    >)
        ensures
            match payload_problem(*doc) {
                Some(p) => r is Err && r->Err_0->0@ == p,
                None => r is Ok,
            },
    {
        let shape = match doc {
            Ok(s) => s,
            Err(m) => {
                return Err(HookPayloadValidationError::Invalid(m.clone()));
            },
        };
        if !shape.is_object {
            return Err(
                HookPayloadValidationError::Invalid(String::from_str("payload must be an object")),
            );
        }
        let version_ok = match &shape.schema_version {
            Some(v) => same_text(v.as_str(), "1.0"),
            None => false,
        };
        if !version_ok {
            return Err(
                HookPayloadValidationError::Invalid(String::from_str("unsupported schemaVersion")),
            );
        }
        if shape.event.is_none() {
            return Err(
                HookPayloadValidationError::Invalid(String::from_str("event must be provided")),
            );
        }
        match &shape.decodes {
            Err(m) => Err(HookPayloadValidationError::Invalid(m.clone())),
            Ok(_) => Ok(()),
        }
    }

    /// The outcomes a hook may give.
    pub fn supported_decisions() -> (r: Vec<HookOutcome>)
        ensures
            r@ == seq![
                HookOutcome::Allow,
                HookOutcome::Ask,
                HookOutcome::Deny,
                HookOutcome::Block,
                HookOutcome::Continue,
            ],
    {
        let mut r: Vec<HookOutcome> = Vec::new();
        r.push(HookOutcome::Allow);
        r.push(HookOutcome::Ask);
        r.push(HookOutcome::Deny);
        r.push(HookOutcome::Block);
        r.push(HookOutcome::Continue);
        proof {
            assert(r@ =~= seq![
                HookOutcome::Allow,
                HookOutcome::Ask,
                HookOutcome::Deny,
                HookOutcome::Block,
                HookOutcome::Continue,
            ]);
        }
        r
    }
}

} // verus!
