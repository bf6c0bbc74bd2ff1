//! The input device actuator: the single owner of the input device, which
//! applies one action at a time as a sequence of device steps.

use vstd::prelude::*;

use crate::action::{ActionModel, ClickKind, InputAction, KeyTarget, KeyTargetModel, ScrollAxis};
use crate::error::{CommandError, ErrorKind};
use crate::keys::KeyId;

verus! {

/// A mouse button.
#[derive(Clone, Copy, Debug, PartialEq, Eq, Structural)]
pub enum MouseButton {
    Left,
    Right,
}

/// One primitive operation on the input device.
#[derive(Clone, Debug, PartialEq, Eq)]
pub enum DeviceStep {
    MoveBy { dx: i32, dy: i32 },
    Click(MouseButton),
    /// Wait for the given number of milliseconds.
    Pause(u64),
    Scroll { axis: ScrollAxis, amount: i32 },
    KeyDown(KeyId),
    KeyUp(KeyId),
    KeyClick(KeyId),
    /// Type the text character by character, with no key semantics.
    Text(String),
}

/// The mathematical form of a [`DeviceStep`].
pub enum StepModel {
    MoveBy { dx: int, dy: int },
    Click(MouseButton),
    Pause(nat),
    Scroll { axis: ScrollAxis, amount: int },
    KeyDown(KeyId),
    KeyUp(KeyId),
    KeyClick(KeyId),
    Text(Seq<char>),
}

impl View for DeviceStep {
    type V = StepModel;

    open spec fn view(&self) -> StepModel {
        match self {
            DeviceStep::MoveBy { dx, dy } => StepModel::MoveBy { dx: *dx as int, dy: *dy as int },
            DeviceStep::Click(b) => StepModel::Click(*b),
            DeviceStep::Pause(ms) => StepModel::Pause(*ms as nat),
            DeviceStep::Scroll { axis, amount } => StepModel::Scroll { axis: *axis, amount: *amount as int },
            DeviceStep::KeyDown(k) => StepModel::KeyDown(*k),
            DeviceStep::KeyUp(k) => StepModel::KeyUp(*k),
            DeviceStep::KeyClick(k) => StepModel::KeyClick(*k),
            DeviceStep::Text(s) => StepModel::Text(s@),
        }
    }
}

/// The wait between the two clicks of a double click, in milliseconds.
pub const DOUBLE_CLICK_PAUSE_MS: u64 = 50;

/// The step for the main key of a key press.
pub open spec fn main_key_step(key: KeyTargetModel) -> StepModel {
    match key {
        KeyTargetModel::Key(k) => StepModel::KeyClick(k),
        KeyTargetModel::Literal(s) => StepModel::Text(s),
    }
}

/// Presses of the given keys, in order.
pub open spec fn presses_of(keys: Seq<KeyId>) -> Seq<StepModel> {
    keys.map_values(|k: KeyId| StepModel::KeyDown(k))
}

/// Releases of the given keys, in order.
pub open spec fn releases_of(keys: Seq<KeyId>) -> Seq<StepModel> {
    keys.map_values(|k: KeyId| StepModel::KeyUp(k))
}

/// The device steps that apply an action, in order. A key press presses its
/// modifiers in the listed order, clicks or types the main key, then releases
/// the modifiers in the same listed order.
pub open spec fn steps_of(action: ActionModel) -> Seq<StepModel> {
    match action {
        ActionModel::MouseMove { dx, dy } => seq![StepModel::MoveBy { dx, dy }],
        ActionModel::Click { kind } => match kind {
            ClickKind::Left => seq![StepModel::Click(MouseButton::Left)],
            ClickKind::Right => seq![StepModel::Click(MouseButton::Right)],
            ClickKind::Double => seq![
                StepModel::Click(MouseButton::Left),
                StepModel::Pause(DOUBLE_CLICK_PAUSE_MS as nat),
                StepModel::Click(MouseButton::Left),
            ],
        },
        ActionModel::Scroll { axis, amount } => seq![StepModel::Scroll { axis, amount }],
        ActionModel::KeyPress { key, modifiers } => presses_of(modifiers) + seq![main_key_step(key)]
            + releases_of(modifiers),
    }
}

/// The views of a list of steps.
pub open spec fn step_views(steps: Seq<DeviceStep>) -> Seq<StepModel> {
    steps.map_values(|s: DeviceStep| s@)
}

/// The device steps that apply `action`, in order.
pub fn plan(action: &InputAction) -> (r: Vec<DeviceStep>)
    ensures
        step_views(r@) == steps_of(action@),
{
    let mut out: Vec<DeviceStep> = Vec::new();
    match action {
        InputAction::MouseMove { dx, dy } => {
            out.push(DeviceStep::MoveBy { dx: *dx, dy: *dy });
        },
        InputAction::Click { kind } => match kind {
            ClickKind::Left => out.push(DeviceStep::Click(MouseButton::Left)),
            ClickKind::Right => out.push(DeviceStep::Click(MouseButton::Right)),
            ClickKind::Double => {
                out.push(DeviceStep::Click(MouseButton::Left));
                out.push(DeviceStep::Pause(DOUBLE_CLICK_PAUSE_MS));
                out.push(DeviceStep::Click(MouseButton::Left));
            },
        },
        InputAction::Scroll { axis, amount } => {
            out.push(DeviceStep::Scroll { axis: *axis, amount: *amount });
        },
        InputAction::KeyPress { key, modifiers } => {
            let n = modifiers.len();
            let mut i: usize = 0;
            while i < n
                invariant
                    n == modifiers@.len(),
                    i <= n,
                    step_views(out@) == presses_of(modifiers@.take(i as int)),
                decreases n - i,
            {
                let ghost before = out@;
                out.push(DeviceStep::KeyDown(modifiers[i]));
                proof {
                    assert(step_views(out@) =~= step_views(before).push(StepModel::KeyDown(modifiers@[i as int])));
                    assert(presses_of(modifiers@.take(i as int + 1)) =~= presses_of(modifiers@.take(i as int)).push(
                        StepModel::KeyDown(modifiers@[i as int]),
                    ));
                }
                i = i + 1;
            }
            let ghost downs = step_views(out@);
            let ghost before = out@;
            match key {
                KeyTarget::Key(k) => out.push(DeviceStep::KeyClick(*k)),
                KeyTarget::Literal(s) => out.push(DeviceStep::Text(s.clone())),
            }
            let ghost pressed = step_views(out@);
            proof {
                assert(step_views(out@) =~= step_views(before).push(main_key_step(key@)));
                assert(pressed =~= downs + seq![main_key_step(key@)]);
            }
            let mut j: usize = 0;
            while j < n
                invariant
                    n == modifiers@.len(),
                    j <= n,
                    step_views(out@) == pressed + releases_of(modifiers@.take(j as int)),
                decreases n - j,
            {
                let ghost before = out@;
                out.push(DeviceStep::KeyUp(modifiers[j]));
                proof {
                    assert(step_views(out@) =~= step_views(before).push(StepModel::KeyUp(modifiers@[j as int])));
                    assert(releases_of(modifiers@.take(j as int + 1)) =~= releases_of(modifiers@.take(j as int)).push(
                        StepModel::KeyUp(modifiers@[j as int]),
                    ));
                    assert(step_views(out@) =~= pressed + releases_of(modifiers@.take(j as int + 1)));
                }
                j = j + 1;
            }
            proof {
                assert(modifiers@.take(n as int) =~= modifiers@);
            }
        },
    }
    proof {
        assert(step_views(out@) =~= steps_of(action@));
    }
    out
}

/// The input injection capability that an [`Actuator`] drives: one call per
/// device step. An error carries the device's own message.
pub trait InputDevice {
    fn perform(&mut self, step: &DeviceStep) -> Result<(), String>;
}

/// What the device answered to one step.
pub enum DeviceAnswer {
    Accepted,
    /// The step was refused, with the device's message.
    Refused(Seq<char>),
}

/// The device's refusal that a result carries: none for success, the error
/// message otherwise.
pub open spec fn refusal_of<T>(r: Result<T, CommandError>) -> Option<Seq<char>> {
    match r {
        Ok(_) => None,
        Err(e) => Some(e.message@),
    }
}

/// Exclusive owner of an input device. Every action is applied through
/// `&mut self`, so one action's steps are never interleaved with another's;
/// the history records every step sent to the device, in order, and the
/// answers record what the device said to each.
pub struct Actuator<D: InputDevice> {
    device: D,
    history: Ghost<Seq<StepModel>>,
    answers: Ghost<Seq<DeviceAnswer>>,
}

impl<D: InputDevice> Actuator<D> {
    /// The steps sent to the device so far, oldest first.
    pub closed spec fn history(&self) -> Seq<StepModel> {
        self.history@
    }

    /// The device's answers so far, oldest first.
    pub closed spec fn answers(&self) -> Seq<DeviceAnswer> {
        self.answers@
    }

    /// How `after` follows from `self` when `action` was applied and ended
    /// with the given refusal (none for success): a non-empty prefix of the
    /// action's steps was appended to the history, with one answer each;
    /// every step but the last was accepted; the last was accepted exactly
    /// when there is no refusal, and then the whole action was sent.
    pub open spec fn applied(&self, after: &Self, action: ActionModel, refusal: Option<Seq<char>>) -> bool {
        let steps = steps_of(action);
        let hb = self.history();
        let ha = after.history();
        let ab = self.answers();
        let aa = after.answers();
        &&& hb.len() < ha.len() <= hb.len() + steps.len()
        &&& ha == hb + steps.take(ha.len() - hb.len())
        &&& aa.len() == ab.len() + (ha.len() - hb.len())
        &&& aa.subrange(0, ab.len() as int) == ab
        &&& forall|i: int| ab.len() <= i < aa.len() - 1 ==> aa[i] is Accepted
        &&& match refusal {
            None => aa.last() is Accepted && ha == hb + steps,
            Some(m) => aa.last() == DeviceAnswer::Refused(m),
        }
    }

    /// Whether nothing was sent between `self` and `after`.
    pub open spec fn untouched(&self, after: &Self) -> bool {
        after.history() == self.history() && after.answers() == self.answers()
    }

    /// Takes ownership of the device; nothing has been sent to it yet.
    pub fn new(device: D) -> (r: Self)
        ensures
            r.history() == Seq::<StepModel>::empty(),
            r.answers() == Seq::<DeviceAnswer>::empty(),
    {
        Actuator { device, history: Ghost(Seq::empty()), answers: Ghost(Seq::empty()) }
    }

    /// The device itself.
    pub fn device(&self) -> &D {
        &self.device
    }

    /// Applies one action: sends its steps to the device in order and stops
    /// at the first step that the device refuses. The result is `Ok` exactly
    /// when every step was accepted; a refusal is an `ExecutionFailure` with
    /// the device's message. Either way the steps sent form one contiguous
    /// block of the history.
    pub fn apply(&mut self, action: &InputAction) -> (r: Result<(), CommandError>)
        ensures
            old(self).applied(final(self), action@, refusal_of(r)),
            r matches Err(e) ==> e.kind == ErrorKind::ExecutionFailure,
    {
        let steps = plan(action);
        let ghost start = self.history@;
        let ghost start_answers = self.answers@;
        let ghost planned = steps_of(action@);
        proof {
            assert(step_views(steps@).len() == steps@.len());
            assert(planned.len() > 0);
        }
        let n = steps.len();
        let mut i: usize = 0;
        while i < n
            invariant
                n == steps@.len(),
                step_views(steps@) == planned,
                planned.len() == n,
                planned == steps_of(action@),
                start == old(self).history(),
                start_answers == old(self).answers(),
                i <= n,
                self.history@ == start + planned.take(i as int),
                self.answers@.len() == start_answers.len() + i,
                self.answers@.subrange(0, start_answers.len() as int) == start_answers,
                forall|j: int| start_answers.len() <= j < self.answers@.len() ==> self.answers@[j] is Accepted,
            decreases n - i,
        {
            let result = self.device.perform(&steps[i]);
            proof {
                assert(planned[i as int] == steps@[i as int]@);
                assert(planned.take(i as int + 1) =~= planned.take(i as int).push(steps@[i as int]@));
            }
            self.history = Ghost(self.history@.push(steps@[i as int]@));
            proof {
                assert(self.history@ =~= start + planned.take(i as int + 1));
                assert(self.history@.len() == start.len() + i + 1);
            }
            let ghost before_answers = self.answers@;
            match result {
                Ok(()) => {
                    self.answers = Ghost(self.answers@.push(DeviceAnswer::Accepted));
                    proof {
                        assert(self.answers@.subrange(0, start_answers.len() as int) =~= before_answers.subrange(
                            0,
                            start_answers.len() as int,
                        ));
                    }
                },
                Err(message) => {
                    self.answers = Ghost(self.answers@.push(DeviceAnswer::Refused(message@)));
                    proof {
                        assert(self.answers@.subrange(0, start_answers.len() as int) =~= before_answers.subrange(
                            0,
                            start_answers.len() as int,
                        ));
                        assert(forall|j: int| start_answers.len() <= j < self.answers@.len() - 1 ==> self.answers@[j]
                            == before_answers[j]);
                    }
                    return Err(CommandError::new(ErrorKind::ExecutionFailure, message));
                },
            }
            i = i + 1;
        }
        proof {
            assert(planned.take(n as int) =~= planned);
        }
        Ok(())
    }
}

/// A key press with modifiers `m` sends `2 * |m| + 1` steps: the modifiers
/// pressed in the listed order, the main key once, then the modifiers
/// released in the same listed order.
pub proof fn lemma_key_press_order(key: KeyTargetModel, modifiers: Seq<KeyId>)
    ensures
        ({
            let steps = steps_of(ActionModel::KeyPress { key, modifiers });
            &&& steps.len() == 2 * modifiers.len() + 1
            &&& steps[modifiers.len() as int] == main_key_step(key)
            &&& forall|i: int| 0 <= i < modifiers.len() ==> steps[i] == StepModel::KeyDown(modifiers[i])
            &&& forall|i: int| 0 <= i < modifiers.len() ==> steps[modifiers.len() + 1 + i] == StepModel::KeyUp(modifiers[i])
        }),
{
}

/// How many times `x` occurs in `steps`.
pub open spec fn occurrences(steps: Seq<StepModel>, x: StepModel) -> nat
    decreases steps.len(),
{
    if steps.len() == 0 {
        0
    } else {
        occurrences(steps.drop_last(), x) + if steps.last() == x { 1nat } else { 0nat }
    }
}

/// Occurrences in a concatenation add up.
pub proof fn lemma_occurrences_concat(a: Seq<StepModel>, b: Seq<StepModel>, x: StepModel)
    ensures
        occurrences(a + b, x) == occurrences(a, x) + occurrences(b, x),
    decreases b.len(),
{
    if b.len() > 0 {
        assert((a + b).drop_last() =~= a + b.drop_last());
        lemma_occurrences_concat(a, b.drop_last(), x);
    } else {
        assert(a + b =~= a);
    }
}

/// Pressing a list of keys presses `k` as often as releasing the list
/// releases it, and neither releases nor presses the other way.
proof fn lemma_presses_match_releases(keys: Seq<KeyId>, k: KeyId)
    ensures
        occurrences(presses_of(keys), StepModel::KeyDown(k)) == occurrences(releases_of(keys), StepModel::KeyUp(k)),
        occurrences(presses_of(keys), StepModel::KeyUp(k)) == 0,
        occurrences(releases_of(keys), StepModel::KeyDown(k)) == 0,
    decreases keys.len(),
{
    if keys.len() > 0 {
        assert(presses_of(keys).drop_last() =~= presses_of(keys.drop_last()));
        assert(releases_of(keys).drop_last() =~= releases_of(keys.drop_last()));
        lemma_presses_match_releases(keys.drop_last(), k);
    }
}

/// A key press leaves no key held: every key is pressed exactly as many times
/// as it is released, and the main key is clicked or typed exactly once.
pub proof fn lemma_key_press_balanced(key: KeyTargetModel, modifiers: Seq<KeyId>, k: KeyId)
    ensures
        ({
            let steps = steps_of(ActionModel::KeyPress { key, modifiers });
            &&& occurrences(steps, StepModel::KeyDown(k)) == occurrences(steps, StepModel::KeyUp(k))
            &&& occurrences(steps, main_key_step(key)) == 1
        }),
{
    let downs = presses_of(modifiers);
    let main = seq![main_key_step(key)];
    let ups = releases_of(modifiers);
    lemma_presses_match_releases(modifiers, k);
    lemma_occurrences_concat(downs + main, ups, StepModel::KeyDown(k));
    lemma_occurrences_concat(downs, main, StepModel::KeyDown(k));
    lemma_occurrences_concat(downs + main, ups, StepModel::KeyUp(k));
    lemma_occurrences_concat(downs, main, StepModel::KeyUp(k));
    lemma_occurrences_concat(downs + main, ups, main_key_step(key));
    lemma_occurrences_concat(downs, main, main_key_step(key));
    lemma_main_step_not_in(modifiers, key);
    assert(main.drop_last() =~= Seq::<StepModel>::empty());
    assert(occurrences(Seq::<StepModel>::empty(), StepModel::KeyDown(k)) == 0);
    assert(occurrences(Seq::<StepModel>::empty(), StepModel::KeyUp(k)) == 0);
    assert(occurrences(Seq::<StepModel>::empty(), main_key_step(key)) == 0);
    assert(occurrences(main, StepModel::KeyDown(k)) == 0);
    assert(occurrences(main, StepModel::KeyUp(k)) == 0);
    assert(occurrences(main, main_key_step(key)) == 1);
    assert(steps_of(ActionModel::KeyPress { key, modifiers }) == downs + main + ups);
}

/// The main key's step is neither a press nor a release, so it never occurs
/// among a key press's modifier steps.
proof fn lemma_main_step_not_in(keys: Seq<KeyId>, key: KeyTargetModel)
    ensures
        occurrences(presses_of(keys), main_key_step(key)) == 0,
        occurrences(releases_of(keys), main_key_step(key)) == 0,
    decreases keys.len(),
{
    if keys.len() > 0 {
        assert(presses_of(keys).drop_last() =~= presses_of(keys.drop_last()));
        assert(releases_of(keys).drop_last() =~= releases_of(keys.drop_last()));
        lemma_main_step_not_in(keys.drop_last(), key);
    }
}

/// Actions applied one after the other never interleave: after two
/// successful applications the history holds the first action's steps, then
/// the second's, each as one block.
pub proof fn lemma_actions_do_not_interleave(
    h0: Seq<StepModel>,
    h1: Seq<StepModel>,
    h2: Seq<StepModel>,
    first: ActionModel,
    second: ActionModel,
)
    requires
        h1 == h0 + steps_of(first),
        h2 == h1 + steps_of(second),
    ensures
        h2 == h0 + steps_of(first) + steps_of(second),
        h2.subrange(h0.len() as int, (h0.len() + steps_of(first).len()) as int) == steps_of(first),
        h2.subrange((h0.len() + steps_of(first).len()) as int, h2.len() as int) == steps_of(second),
{
    assert(h2.subrange(h0.len() as int, (h0.len() + steps_of(first).len()) as int) =~= steps_of(first));
    assert(h2.subrange((h0.len() + steps_of(first).len()) as int, h2.len() as int) =~= steps_of(second));
}

} // verus!
