//! Canonical input actions and the translator from structured request
//! payloads to them.

use vstd::prelude::*;
use vstd::string::*;

use crate::error::{CommandError, ErrorKind};
use crate::keys::{resolve, resolve_spec, KeyId};

verus! {

/// Which click a request asks for.
#[derive(Clone, Copy, Debug, PartialEq, Eq, Structural)]
pub enum ClickKind {
    Left,
    Right,
    Double,
}

/// The axis of a scroll.
#[derive(Clone, Copy, Debug, PartialEq, Eq, Structural)]
pub enum ScrollAxis {
    Vertical,
    Horizontal,
}

/// The main key of a key press: a resolved key, or text to type literally.
#[derive(Debug, PartialEq, Eq)]
pub enum KeyTarget {
    Key(KeyId),
    Literal(String),
}

/// The mathematical form of a [`KeyTarget`].
pub enum KeyTargetModel {
    Key(KeyId),
    Literal(Seq<char>),
}

impl View for KeyTarget {
    type V = KeyTargetModel;

    open spec fn view(&self) -> KeyTargetModel {
        match self {
            KeyTarget::Key(k) => KeyTargetModel::Key(*k),
            KeyTarget::Literal(s) => KeyTargetModel::Literal(s@),
        }
    }
}

/// One pointer, scroll or keyboard operation.
#[derive(Debug, PartialEq, Eq)]
pub enum InputAction {
    /// Relative pointer displacement in pixels.
    MouseMove { dx: i32, dy: i32 },
    Click { kind: ClickKind },
    /// A scroll by an amount that is already scaled.
    Scroll { axis: ScrollAxis, amount: i32 },
    /// Modifiers are pressed in the listed order around the main key.
    KeyPress { key: KeyTarget, modifiers: Vec<KeyId> },
}

/// The mathematical form of an [`InputAction`].
pub enum ActionModel {
    MouseMove { dx: int, dy: int },
    Click { kind: ClickKind },
    Scroll { axis: ScrollAxis, amount: int },
    KeyPress { key: KeyTargetModel, modifiers: Seq<KeyId> },
}

impl View for InputAction {
    type V = ActionModel;

    open spec fn view(&self) -> ActionModel {
        match self {
            InputAction::MouseMove { dx, dy } => ActionModel::MouseMove { dx: *dx as int, dy: *dy as int },
            InputAction::Click { kind } => ActionModel::Click { kind: *kind },
            InputAction::Scroll { axis, amount } => ActionModel::Scroll { axis: *axis, amount: *amount as int },
            InputAction::KeyPress { key, modifiers } => ActionModel::KeyPress { key: key@, modifiers: modifiers@ },
        }
    }
}

/// The factor that every scroll amount is multiplied by.
pub const SCROLL_SCALE: i32 = 10;

/// The click kind that a request's type string names; the match is
/// case-sensitive.
pub open spec fn click_kind_of(name: Seq<char>) -> Option<ClickKind> {
    if name == "left"@ || name == "left_click"@ {
        Some(ClickKind::Left)
    } else if name == "right"@ || name == "right_click"@ {
        Some(ClickKind::Right)
    } else if name == "double"@ || name == "double_click"@ {
        Some(ClickKind::Double)
    } else {
        None
    }
}

/// The scroll that a direction and an unscaled amount ask for: `up` and
/// `right` keep the sign of the scaled amount, `down` and `left` invert it.
pub open spec fn scroll_action_of(direction: Seq<char>, amount: int) -> Option<ActionModel> {
    let scaled = amount * 10;
    if direction == "up"@ {
        Some(ActionModel::Scroll { axis: ScrollAxis::Vertical, amount: scaled })
    } else if direction == "down"@ {
        Some(ActionModel::Scroll { axis: ScrollAxis::Vertical, amount: -scaled })
    } else if direction == "left"@ {
        Some(ActionModel::Scroll { axis: ScrollAxis::Horizontal, amount: -scaled })
    } else if direction == "right"@ {
        Some(ActionModel::Scroll { axis: ScrollAxis::Horizontal, amount: scaled })
    } else {
        None
    }
}

/// A scroll request's amount, with its default of one.
pub open spec fn requested_amount(amount: Option<i32>) -> int {
    match amount {
        Some(a) => a as int,
        None => 1,
    }
}

/// Whether a scroll amount, once scaled, fits the device's range.
pub open spec fn scroll_amount_fits(amount: Option<i32>) -> bool {
    -214748364 <= requested_amount(amount) <= 214748364
}

/// Whether a scroll amount, once scaled, fits the device's range.
pub fn scroll_amount_in_range(amount: Option<i32>) -> (r: bool)
    ensures
        r == scroll_amount_fits(amount),
{
    let a: i32 = match amount {
        Some(a) => a,
        None => 1,
    };
    -214748364 <= a && a <= 214748364
}

/// The resolved modifiers of a list of names, in order; names that do not
/// resolve are left out.
pub open spec fn resolved_modifiers(names: Seq<Seq<char>>) -> Seq<KeyId>
    decreases names.len(),
{
    if names.len() == 0 {
        Seq::empty()
    } else {
        let rest = resolved_modifiers(names.drop_last());
        match resolve_spec(names.last()) {
            Some(k) => rest.push(k),
            None => rest,
        }
    }
}

/// The main key of a key request: the resolved key, or else the name itself
/// as literal text.
pub open spec fn key_target_of(name: Seq<char>) -> KeyTargetModel {
    match resolve_spec(name) {
        Some(k) => KeyTargetModel::Key(k),
        None => KeyTargetModel::Literal(name),
    }
}

/// A mouse move by the given pixel deltas.
pub fn translate_mouse(dx: i32, dy: i32) -> (r: InputAction)
    ensures
        r@ == (ActionModel::MouseMove { dx: dx as int, dy: dy as int }),
{
    InputAction::MouseMove { dx, dy }
}

/// A click of the named kind, or `InvalidRequest` for an unknown kind.
pub fn translate_click(kind: &str) -> (r: Result<InputAction, CommandError>)
    ensures
        r is Ok <==> click_kind_of(kind@) is Some,
        r matches Ok(a) ==> a@ == (ActionModel::Click { kind: click_kind_of(kind@)->0 }),
        r matches Err(e) ==> e.kind == ErrorKind::InvalidRequest && e.message@ == "Unknown click type: "@ + kind@,
{
    if crate::text::str_eq(kind, "left") || crate::text::str_eq(kind, "left_click") {
        Ok(InputAction::Click { kind: ClickKind::Left })
    } else if crate::text::str_eq(kind, "right") || crate::text::str_eq(kind, "right_click") {
        Ok(InputAction::Click { kind: ClickKind::Right })
    } else if crate::text::str_eq(kind, "double") || crate::text::str_eq(kind, "double_click") {
        Ok(InputAction::Click { kind: ClickKind::Double })
    } else {
        let message = String::from_str("Unknown click type: ").concat(kind);
        Err(CommandError::new(ErrorKind::InvalidRequest, message))
    }
}

/// A scroll in the named direction by the amount (one if absent) times
/// [`SCROLL_SCALE`]; `down` and `left` are negative. An unknown direction is
/// `InvalidRequest`.
pub fn translate_scroll(direction: &str, amount: Option<i32>) -> (r: Result<InputAction, CommandError>)
    requires
        scroll_amount_fits(amount),
    ensures
        r is Ok <==> scroll_action_of(direction@, requested_amount(amount)) is Some,
        r matches Ok(a) ==> scroll_action_of(direction@, requested_amount(amount)) == Some(a@),
        r matches Err(e) ==> e.kind == ErrorKind::InvalidRequest && e.message@ == "Unknown scroll direction: "@ + direction@,
{
    let base: i32 = match amount {
        Some(a) => a,
        None => 1,
    };
    let scaled: i32 = base * SCROLL_SCALE;
    if crate::text::str_eq(direction, "up") {
        Ok(InputAction::Scroll { axis: ScrollAxis::Vertical, amount: scaled })
    } else if crate::text::str_eq(direction, "down") {
        Ok(InputAction::Scroll { axis: ScrollAxis::Vertical, amount: -scaled })
    } else if crate::text::str_eq(direction, "left") {
        Ok(InputAction::Scroll { axis: ScrollAxis::Horizontal, amount: -scaled })
    } else if crate::text::str_eq(direction, "right") {
        Ok(InputAction::Scroll { axis: ScrollAxis::Horizontal, amount: scaled })
    } else {
        let message = String::from_str("Unknown scroll direction: ").concat(direction);
        Err(CommandError::new(ErrorKind::InvalidRequest, message))
    }
}

/// Resolves each modifier name in order, dropping those that do not resolve.
pub fn resolve_modifiers(names: &Vec<String>) -> (r: Vec<KeyId>)
    ensures
        r@ == resolved_modifiers(names.deep_view()),
{
    let mut out: Vec<KeyId> = Vec::new();
    let n = names.len();
    let mut i: usize = 0;
    while i < n
        invariant
            n == names@.len(),
            i <= n,
            out@ == resolved_modifiers(names.deep_view().take(i as int)),
        decreases n - i,
    {
        proof {
            assert(names.deep_view().take(i as int + 1).drop_last() =~= names.deep_view().take(i as int));
        }
        match resolve(names[i].as_str()) {
            Some(k) => out.push(k),
            None => {},
        }
        i = i + 1;
    }
    proof {
        assert(names.deep_view().take(n as int) =~= names.deep_view());
    }
    out
}

/// A key press: the main key resolved, or typed literally if it does not
/// resolve; the modifiers that resolve, in the given order.
pub fn translate_key(key: &str, modifiers: &Option<Vec<String>>) -> (r: InputAction)
    ensures
        r@ == (ActionModel::KeyPress {
            key: key_target_of(key@),
            modifiers: match modifiers {
                Some(m) => resolved_modifiers(m.deep_view()),
                None => Seq::empty(),
            },
        }),
{
    let target = match resolve(key) {
        Some(k) => KeyTarget::Key(k),
        None => KeyTarget::Literal(String::from_str(key)),
    };
    let mods = match modifiers {
        Some(m) => resolve_modifiers(m),
        None => Vec::new(),
    };
    InputAction::KeyPress { key: target, modifiers: mods }
}


/// Exactly six click names are accepted: `left`, `left_click`, `right`,
/// `right_click`, `double` and `double_click`; every other string is refused.
pub proof fn lemma_click_kinds(name: Seq<char>)
    ensures
        click_kind_of(name) is Some <==> (name == "left"@ || name == "left_click"@ || name == "right"@
            || name == "right_click"@ || name == "double"@ || name == "double_click"@),
{
}

/// A scroll amount is always multiplied by ten; `down` and `left` carry the
/// opposite sign of `up` and `right`.
pub proof fn lemma_scroll_scaling(amount: int)
    ensures
        scroll_action_of("up"@, amount) == Some(ActionModel::Scroll { axis: ScrollAxis::Vertical, amount: 10 * amount }),
        scroll_action_of("down"@, amount) == Some(ActionModel::Scroll { axis: ScrollAxis::Vertical, amount: -10 * amount }),
        scroll_action_of("left"@, amount) == Some(ActionModel::Scroll { axis: ScrollAxis::Horizontal, amount: -10 * amount }),
        scroll_action_of("right"@, amount) == Some(ActionModel::Scroll { axis: ScrollAxis::Horizontal, amount: 10 * amount }),
{
    reveal_strlit("up");
    reveal_strlit("down");
    reveal_strlit("left");
    reveal_strlit("right");
    assert("down"@.len() != "up"@.len());
    assert("left"@.len() != "up"@.len());
    assert("left"@[0] != "down"@[0]);
    assert("right"@.len() != "up"@.len());
    assert("right"@.len() != "down"@.len());
    assert("right"@.len() != "left"@.len());
}

/// A key name that does not resolve becomes literal text, exactly as given,
/// with no change of case.
pub proof fn lemma_unresolved_key_is_literal(name: Seq<char>)
    requires
        resolve_spec(name) is None,
    ensures
        key_target_of(name) == KeyTargetModel::Literal(name),
{
}

} // verus!
