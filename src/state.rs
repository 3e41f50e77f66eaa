//! The application's persistent state: an editable label and a counter.
//!
//! The counter is held in fixed point: one unit of the counter is
//! `COUNTER_SCALE` steps of the stored integer, so `2700` stands for `2.7`.
use vstd::prelude::*;

verus! {

/// Stored steps per unit of the counter.
pub const COUNTER_SCALE: i64 = 1000;

/// Counter value of a fresh state (2.7).
pub const DEFAULT_COUNTER: i64 = 2700;

/// Lower end of the slider's range (0.0).
pub const SLIDER_MIN: i64 = 0;

/// Upper end of the slider's range (10.0).
pub const SLIDER_MAX: i64 = 10000;

/// Label of a fresh state.
pub const DEFAULT_LABEL: &'static str = "Hello World!";

/// Mathematical model of [`AppState`].
pub struct StateView {
    pub label: Seq<char>,
    pub counter: int,
}

/// The model of a state built from defaults alone.
pub open spec fn default_state() -> StateView {
    StateView { label: DEFAULT_LABEL@, counter: DEFAULT_COUNTER as int }
}

/// What the slider leaves in the counter when dragged to `v`.
pub open spec fn slider_value(v: int) -> int {
    if v < SLIDER_MIN {
        SLIDER_MIN as int
    } else if v > SLIDER_MAX {
        SLIDER_MAX as int
    } else {
        v
    }
}

/// The persisted part of the state, as read back from the host's store.
///
/// A field that the stored record lacks is `None` and takes its default.
pub struct Snapshot {
    pub label: Option<String>,
    pub counter: Option<i64>,
}

/// The model of the state built from `snapshot`, or from defaults where
/// there is no snapshot.
pub open spec fn restored(snapshot: Option<Snapshot>) -> StateView {
    match snapshot {
        Some(snap) => StateView {
            label: match snap.label {
                Some(l) => l@,
                None => DEFAULT_LABEL@,
            },
            counter: match snap.counter {
                Some(c) => c as int,
                None => DEFAULT_COUNTER as int,
            },
        },
        None => default_state(),
    }
}

/// `snap` records both fields of `s`.
pub open spec fn records(snap: Snapshot, s: StateView) -> bool {
    &&& snap.label is Some
    &&& snap.label.unwrap()@ == s.label
    &&& snap.counter == Some(s.counter as i64)
}

/// An interaction that a frame reports.
pub enum UiEvent {
    /// The text field now holds this text.
    LabelEdited(String),
    /// The slider was dragged to this value, in counter steps.
    SliderMoved(i64),
    /// The increment button was clicked.
    IncrementClicked,
    /// The exit entry of the menu was chosen.
    ExitClicked,
    /// The pointer is held down on the title bar.
    TitleBarHeld,
}

/// What the host is asked to do after an event.
#[derive(PartialEq, Eq, Structural, Clone, Copy, Debug)]
pub enum Action {
    Nothing,
    CloseWindow,
    DragWindow,
}

/// The state after `e`.
pub open spec fn next_state(s: StateView, e: UiEvent) -> StateView {
    match e {
        UiEvent::LabelEdited(t) => StateView { label: t@, counter: s.counter },
        UiEvent::SliderMoved(v) => StateView { label: s.label, counter: slider_value(v as int) },
        UiEvent::IncrementClicked => StateView { label: s.label, counter: s.counter + COUNTER_SCALE },
        _ => s,
    }
}

/// The request to the host after `e`. The exit menu and the title bar of the
/// custom window frame exist only where the application draws its own frame
/// (`custom_frame`).
pub open spec fn action_for(e: UiEvent, custom_frame: bool) -> Action {
    match e {
        UiEvent::ExitClicked => if custom_frame {
            Action::CloseWindow
        } else {
            Action::Nothing
        },
        UiEvent::TitleBarHeld => if custom_frame {
            Action::DragWindow
        } else {
            Action::Nothing
        },
        _ => Action::Nothing,
    }
}

/// The state after `n` clicks of the increment button.
pub open spec fn after_increments(s: StateView, n: nat) -> StateView
    decreases n,
{
    if n == 0 {
        s
    } else {
        next_state(after_increments(s, (n - 1) as nat), UiEvent::IncrementClicked)
    }
}

/// The state of the label and the counter, as the widgets edit them.
pub struct AppState {
    label: String,
    counter: i64,
}

impl View for AppState {
    type V = StateView;

    closed spec fn view(&self) -> StateView {
        StateView { label: self.label@, counter: self.counter as int }
    }
}

impl AppState {
    /// A state holding the default label and counter.
    pub fn new() -> (r: AppState)
        ensures
            r@ == default_state(),
    {
        AppState { label: String::from_str(DEFAULT_LABEL), counter: DEFAULT_COUNTER }
    }

    /// The state restored from `snapshot`, with defaults for what it lacks.
    pub fn from_snapshot(snapshot: Option<Snapshot>) -> (r: AppState)
        ensures
            r@ == restored(snapshot),
    {
        match snapshot {
            Some(snap) => {
                let label = match snap.label {
                    Some(l) => l,
                    None => String::from_str(DEFAULT_LABEL),
                };
                let counter = match snap.counter {
                    Some(c) => c,
                    None => DEFAULT_COUNTER,
                };
                AppState { label, counter }
            },
            None => AppState::new(),
        }
    }

    /// The record to persist at shutdown.
    pub fn snapshot(&self) -> (r: Snapshot)
        ensures
            records(r, self@),
    {
        Snapshot { label: Some(self.label.clone()), counter: Some(self.counter) }
    }

    /// Whether one more click of the increment button keeps the counter
    /// representable.
    pub fn can_increment(&self) -> (r: bool)
        ensures
            r == (self@.counter + COUNTER_SCALE <= i64::MAX),
    {
        self.counter <= i64::MAX - COUNTER_SCALE
    }

    /// Applies one interaction to the state and says what the host is to do.
    /// The increment button adds one unit with no regard to the slider's range.
    pub fn handle_event(&mut self, event: UiEvent, custom_frame: bool) -> (act: Action)
        requires
            event is IncrementClicked ==> old(self)@.counter + COUNTER_SCALE <= i64::MAX,
        ensures
            final(self)@ == next_state(old(self)@, event),
            act == action_for(event, custom_frame),
    {
        match event {
            UiEvent::LabelEdited(t) => {
                self.label = t;
                Action::Nothing
            },
            UiEvent::SliderMoved(v) => {
                self.counter = if v < SLIDER_MIN {
                    SLIDER_MIN
                } else if v > SLIDER_MAX {
                    SLIDER_MAX
                } else {
                    v
                };
                Action::Nothing
            },
            UiEvent::IncrementClicked => {
                self.counter = self.counter + COUNTER_SCALE;
                Action::Nothing
            },
            UiEvent::ExitClicked => if custom_frame {
                Action::CloseWindow
            } else {
                Action::Nothing
            },
            UiEvent::TitleBarHeld => if custom_frame {
                Action::DragWindow
            } else {
                Action::Nothing
            },
        }
    }

    pub fn label(&self) -> (r: &String)
        ensures
            r@ == self@.label,
    {
        &self.label
    }

    /// The counter in steps of `1 / COUNTER_SCALE`.
    pub fn counter(&self) -> (r: i64)
        ensures
            r as int == self@.counter,
    {
        self.counter
    }
}

/// A snapshot holding label `label` and counter `counter` restores exactly
/// that label and that counter.
pub proof fn lemma_restore_snapshot(label: String, counter: i64)
    ensures
        restored(Some(Snapshot { label: Some(label), counter: Some(counter) }))
            == (StateView { label: label@, counter: counter as int }),
{
}

/// Without a snapshot, the state holds the label "Hello World!" and the
/// counter 2.7; a snapshot with neither field gives the same.
pub proof fn lemma_restore_defaults()
    ensures
        restored(None) == (StateView { label: "Hello World!"@, counter: DEFAULT_COUNTER as int }),
        restored(Some(Snapshot { label: None, counter: None })) == restored(None),
        DEFAULT_COUNTER == 27 * COUNTER_SCALE / 10,
{
}

/// Dragging the slider to any value in its range leaves exactly that value in
/// the counter, and the label untouched.
pub proof fn lemma_slider_sets_counter(s: StateView, v: i64)
    requires
        SLIDER_MIN <= v <= SLIDER_MAX,
    ensures
        next_state(s, UiEvent::SliderMoved(v)).counter == v as int,
        next_state(s, UiEvent::SliderMoved(v)).label == s.label,
{
}

/// `n` clicks of the increment button from counter `c` give counter
/// `c + n` units, past the slider's upper end too, and leave the label.
pub proof fn lemma_increments_add(s: StateView, n: nat)
    ensures
        after_increments(s, n).counter == s.counter + n * COUNTER_SCALE,
        after_increments(s, n).label == s.label,
    decreases n,
{
    if n > 0 {
        lemma_increments_add(s, (n - 1) as nat);
        assert(s.counter + (n - 1) * COUNTER_SCALE + COUNTER_SCALE == s.counter + n * COUNTER_SCALE)
            by (nonlinear_arith);
    }
}

/// Where `c + n` units fit in the counter, each of the `n` clicks meets the
/// condition under which [`AppState::handle_event`] takes it, so `n` calls
/// of it from counter `c` end at counter `c + n` units.
pub proof fn lemma_increments_fit(s: StateView, n: nat)
    requires
        s.counter + n * COUNTER_SCALE <= i64::MAX,
    ensures
        forall|k: nat| #![trigger after_increments(s, k)]
            k < n ==> after_increments(s, k).counter + COUNTER_SCALE <= i64::MAX,
        after_increments(s, n).counter == s.counter + n * COUNTER_SCALE,
{
    assert forall|k: nat| #![trigger after_increments(s, k)]
        k < n implies after_increments(s, k).counter + COUNTER_SCALE <= i64::MAX by {
        lemma_increments_add(s, k);
        assert(k * COUNTER_SCALE + COUNTER_SCALE <= n * COUNTER_SCALE) by (nonlinear_arith)
            requires
                k < n,
        ;
    }
    lemma_increments_add(s, n);
}

/// Saving a state and restoring it from what was saved gives back the same
/// label and counter.
pub proof fn lemma_save_restore(snap: Snapshot, s: StateView)
    requires
        records(snap, s),
        i64::MIN <= s.counter <= i64::MAX,
    ensures
        restored(Some(snap)) == s,
{
}

} // verus!
