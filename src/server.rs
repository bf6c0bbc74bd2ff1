//! The request layer: each route's work on an actuator, and the structured
//! response that answers it.

use vstd::prelude::*;
use vstd::string::*;

use crate::action::{
    click_kind_of, key_target_of, requested_amount, resolved_modifiers, scroll_action_of,
    scroll_amount_fits, translate_click, translate_key, translate_mouse, translate_scroll,
    ActionModel,
};
use crate::actuator::{refusal_of, Actuator, InputDevice};
use crate::error::{status_of, CommandError, ErrorKind};
use crate::voice::{intent_action, intent_message, Intent, IntentModel};

verus! {

/// The body of every response.
#[derive(Debug, PartialEq, Eq)]
pub struct ApiResponse {
    /// `"success"`, `"error"`, or `"ok"` for the health check.
    pub status: String,
    pub message: Option<String>,
}

/// How an attempt to launch an application ended.
#[derive(Debug, PartialEq, Eq)]
pub enum LaunchOutcome {
    /// The launcher ran and reported success.
    Opened,
    /// The launcher ran and reported failure.
    Failed,
    /// The launcher could not be started; holds the system's error text.
    NotStarted(String),
}

/// The health check's response.
pub fn health() -> (r: ApiResponse)
    ensures
        r.status@ == "ok"@,
        r.message matches Some(m) && m@ == "Astra Gesture Control Server - Rust Edition"@,
{
    let message = String::from_str("Astra Gesture Control Server - Rust Edition");
    ApiResponse { status: String::from_str("ok"), message: Some(message) }
}

/// The HTTP status and body that answer a request's result.
pub fn respond(result: Result<String, CommandError>) -> (r: (u16, ApiResponse))
    ensures
        result matches Ok(m) ==> r.0 == 200 && r.1.status@ == "success"@ && (r.1.message matches Some(x) && x@ == m@),
        result matches Err(e) ==> r.0 == status_of(e.kind) && r.1.status@ == "error"@ && (r.1.message matches Some(x)
            && x@ == e.message@),
{
    match result {
        Ok(message) => (200, ApiResponse { status: String::from_str("success"), message: Some(message) }),
        Err(e) => {
            let code = e.http_status();
            (code, ApiResponse { status: String::from_str("error"), message: Some(e.message) })
        },
    }
}

/// Moves the pointer by the given deltas.
pub fn handle_mouse<D: InputDevice>(actuator: &mut Actuator<D>, dx: i32, dy: i32) -> (r: Result<String, CommandError>)
    ensures
        old(actuator).applied(final(actuator), ActionModel::MouseMove { dx: dx as int, dy: dy as int }, refusal_of(r)),
        r matches Ok(m) ==> m@ == "Mouse moved"@,
        r matches Err(e) ==> e.kind == ErrorKind::ExecutionFailure,
{
    let action = translate_mouse(dx, dy);
    match actuator.apply(&action) {
        Ok(()) => Ok(String::from_str("Mouse moved")),
        Err(e) => Err(e),
    }
}

/// Performs the named click. An unknown kind is `InvalidRequest` and sends
/// nothing to the device.
pub fn handle_click<D: InputDevice>(actuator: &mut Actuator<D>, kind: &str) -> (r: Result<String, CommandError>)
    ensures
        click_kind_of(kind@) is None ==> old(actuator).untouched(final(actuator)) && (r matches Err(e)
            && e.kind == ErrorKind::InvalidRequest && e.message@ == "Unknown click type: "@ + kind@),
        click_kind_of(kind@) matches Some(c) ==> old(actuator).applied(
            final(actuator),
            ActionModel::Click { kind: c },
            refusal_of(r),
        ) && (r matches Err(e) ==> e.kind == ErrorKind::ExecutionFailure),
        r matches Ok(m) ==> m@ == kind@ + " performed"@,
{
    let action = match translate_click(kind) {
        Ok(a) => a,
        Err(e) => {
            return Err(e);
        },
    };
    match actuator.apply(&action) {
        Ok(()) => Ok(String::from_str(kind).concat(" performed")),
        Err(e) => Err(e),
    }
}

/// Scrolls in the named direction. An unknown direction is `InvalidRequest`
/// and sends nothing to the device.
pub fn handle_scroll<D: InputDevice>(actuator: &mut Actuator<D>, direction: &str, amount: Option<i32>) -> (r: Result<
    String,
    CommandError,
>)
    requires
        scroll_amount_fits(amount),
    ensures
        scroll_action_of(direction@, requested_amount(amount)) is None ==> old(actuator).untouched(final(actuator))
            && (r matches Err(e) && e.kind == ErrorKind::InvalidRequest && e.message@
            == "Unknown scroll direction: "@ + direction@),
        scroll_action_of(direction@, requested_amount(amount)) matches Some(a) ==> old(actuator).applied(
            final(actuator),
            a,
            refusal_of(r),
        ) && (r matches Err(e) ==> e.kind == ErrorKind::ExecutionFailure),
        r matches Ok(m) ==> m@ == "Scrolled"@,
{
    let action = match translate_scroll(direction, amount) {
        Ok(a) => a,
        Err(e) => {
            return Err(e);
        },
    };
    match actuator.apply(&action) {
        Ok(()) => Ok(String::from_str("Scrolled")),
        Err(e) => Err(e),
    }
}

/// Presses the named key with the named modifiers held.
pub fn handle_key<D: InputDevice>(actuator: &mut Actuator<D>, key: &str, modifiers: &Option<Vec<String>>) -> (r: Result<
    String,
    CommandError,
>)
    ensures
        old(actuator).applied(
            final(actuator),
            ActionModel::KeyPress {
                key: key_target_of(key@),
                modifiers: match modifiers {
                    Some(m) => resolved_modifiers(m.deep_view()),
                    None => Seq::empty(),
                },
            },
            refusal_of(r),
        ),
        r matches Ok(m) ==> m@ == "Key '"@ + key@ + "' pressed"@,
        r matches Err(e) ==> e.kind == ErrorKind::ExecutionFailure,
{
    let action = translate_key(key, modifiers);
    match actuator.apply(&action) {
        Ok(()) => {
            let message = String::from_str("Key '").concat(key).concat("' pressed");
            Ok(message)
        },
        Err(e) => Err(e),
    }
}

/// Carries out a voice intent other than opening an app, which runs outside
/// the device's exclusive section. Unknown text is `UnknownCommand` and sends
/// nothing to the device.
pub fn execute_intent<D: InputDevice>(actuator: &mut Actuator<D>, intent: &Intent) -> (r: Result<String, CommandError>)
    requires
        !(intent@ is OpenApp),
    ensures
        intent@ is Unknown ==> old(actuator).untouched(final(actuator))
            && (r matches Err(e) && e.kind == ErrorKind::UnknownCommand && e.message@ == intent_message(intent@)),
        intent_action(intent@) matches Some(a) ==> old(actuator).applied(
            final(actuator),
            a,
            refusal_of(r),
        ) && (r matches Err(e) ==> e.kind == ErrorKind::ExecutionFailure),
        r matches Ok(m) ==> m@ == intent_message(intent@),
{
    match intent.action() {
        Some(action) => match actuator.apply(&action) {
            Ok(()) => Ok(intent.message()),
            Err(e) => Err(e),
        },
        None => Err(CommandError::new(ErrorKind::UnknownCommand, intent.message())),
    }
}

/// The result of a voice request to open `name`, given how the launch ended.
pub fn open_app_result(name: &str, outcome: LaunchOutcome) -> (r: Result<String, CommandError>)
    ensures
        outcome is Opened <==> r is Ok,
        r matches Ok(m) ==> m@ == "Opened "@ + name@,
        r matches Err(e) ==> e.kind == ErrorKind::ExecutionFailure,
        outcome is Failed ==> (r matches Err(e) && e.message@ == "Failed to open "@ + name@),
        outcome matches LaunchOutcome::NotStarted(why) ==> (r matches Err(e) && e.message@
            == "Failed to run open command: "@ + why@),
{
    match outcome {
        LaunchOutcome::Opened => Ok(String::from_str("Opened ").concat(name)),
        LaunchOutcome::Failed => Err(
            CommandError::new(ErrorKind::ExecutionFailure, String::from_str("Failed to open ").concat(name)),
        ),
        LaunchOutcome::NotStarted(why) => Err(
            CommandError::new(
                ErrorKind::ExecutionFailure,
                String::from_str("Failed to run open command: ").concat(why.as_str()),
            ),
        ),
    }
}

} // verus!
