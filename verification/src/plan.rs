//! The decide/act leg of a scheduler tick: the request handed to the
//! decision service (with the screenshot encoded), the plan it returns,
//! and the browser instruction derived from that plan. Parameter payloads
//! are dynamic JSON values and are carried through opaquely.

use vstd::prelude::*;
use base64::Engine as _;

verus! {

/// serde_json's dynamic value type, declared so plans can carry it.
#[verifier::external_type_specification]
#[verifier::external_body]
pub struct ExJsonValue(serde_json::Value);

/// What the decision service returns for one tick: an action identifier,
/// an optional rationale, and an optional parameter payload.
pub struct ActionPlan {
    pub action: String,
    pub reason: Option<String>,
    pub params: Option<serde_json::Value>,
}

/// The instruction handed to the actuation surface: the action identifier
/// and a parameter payload that is never absent.
pub struct BrowserAction {
    pub action_type: String,
    pub params: serde_json::Value,
}

/// Relies on `serde_json::Value::Null`: the empty parameter payload used
/// when a plan omits parameters.
#[verifier::external_body]
fn null_value() -> serde_json::Value {
    serde_json::Value::Null
}

/// The action identifier that marks a task as finished.
pub fn is_terminal_action(action: &str) -> (r: bool)
    ensures
        r == (action@ == "done"@),
{
    crate::kv::str_eq(action, "done")
}

/// Derives the browser instruction from a plan: the same action
/// identifier; the parameter payload passes through unchanged, with the
/// null payload standing in when the plan omitted parameters.
pub fn plan_to_action(plan: ActionPlan) -> (a: BrowserAction)
    ensures
        a.action_type == plan.action,
        plan.params is Some ==> a.params == plan.params.unwrap(),
{
    let params = match plan.params {
        Some(p) => p,
        None => null_value(),
    };
    BrowserAction { action_type: plan.action, params }
}

/// What base64 encoding yields for given bytes; fixed by the bytes alone.
pub uninterp spec fn base64_of(bytes: Seq<u8>) -> Seq<char>;

/// Relies on base64's `Engine::encode` with the standard alphabet and
/// padding: the result is a function of the input bytes alone, four
/// characters for every three bytes begun. The length bound keeps the
/// engine's output-size computation from overflowing.
#[verifier::external_body]
fn base64_encode(bytes: &Vec<u8>) -> (r: String)
    requires
        bytes@.len() / 3 + 1 <= usize::MAX as nat / 4,
    ensures
        r@ == base64_of(bytes@),
        r@.len() == 4 * ((bytes@.len() + 2) / 3),
{
    base64::engine::general_purpose::STANDARD.encode(bytes)
}

/// The observation handed to the decision service for one tick.
pub struct DecisionRequest {
    pub user_id: String,
    pub description: String,
    pub url: String,
    pub screenshot: String,
}

/// Builds the decision-service request from the tick's observation: the
/// screenshot travels base64-encoded, everything else verbatim.
pub fn decision_request(user_id: &str, description: &str, url: &str, screenshot: &Vec<u8>) -> (r:
    DecisionRequest)
    requires
        screenshot@.len() / 3 + 1 <= usize::MAX as nat / 4,
    ensures
        r.user_id@ == user_id@,
        r.description@ == description@,
        r.url@ == url@,
        r.screenshot@ == base64_of(screenshot@),
{
    DecisionRequest {
        user_id: user_id.to_owned(),
        description: description.to_owned(),
        url: url.to_owned(),
        screenshot: base64_encode(screenshot),
    }
}

} // verus!
