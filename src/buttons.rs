//! Debouncing of the wheel's buttons into press, release and toggle events.
use vstd::prelude::*;

verus! {

/// Number of buttons on the wheel.
pub const NUM_BUTTONS: usize = 10;

/// Number of consecutive identical samples that confirm a new state.
pub const DEBOUNCE_THRESHOLD: u8 = 5;

/// Logical inputs of the wheel, in polling order.
#[derive(Debug, Clone, Copy, PartialEq, Eq, Structural)]
pub enum ButtonId {
    CruiseDown,
    CruiseUp,
    Reverse,
    PushToTalk,
    Horn,
    PowerSave,
    Rearview,
    LeftTurn,
    RightTurn,
    Lock,
}

/// Momentary buttons report press and release; toggle buttons flip a stored flag on each press.
#[derive(Debug, Clone, Copy, PartialEq, Eq, Structural)]
pub enum ButtonKind {
    Regular,
    Toggle,
}

/// What one poll reports about one button.
#[derive(Debug, Clone, Copy, PartialEq, Eq, Structural)]
pub enum ButtonEvent {
    Pressed(ButtonId),
    Released(ButtonId),
    Toggled(ButtonId, bool),
}

/// The button polled at position `i`.
pub open spec fn id_at(i: int) -> ButtonId {
    if i == 0 {
        ButtonId::CruiseDown
    } else if i == 1 {
        ButtonId::CruiseUp
    } else if i == 2 {
        ButtonId::Reverse
    } else if i == 3 {
        ButtonId::PushToTalk
    } else if i == 4 {
        ButtonId::Horn
    } else if i == 5 {
        ButtonId::PowerSave
    } else if i == 6 {
        ButtonId::Rearview
    } else if i == 7 {
        ButtonId::LeftTurn
    } else if i == 8 {
        ButtonId::RightTurn
    } else {
        ButtonId::Lock
    }
}

/// Slot of a toggle button's stored flag.
pub open spec fn toggle_slot(id: ButtonId) -> int {
    match id {
        ButtonId::LeftTurn => 0,
        ButtonId::RightTurn => 1,
        _ => 2,
    }
}

pub open spec fn kind_of(id: ButtonId) -> ButtonKind {
    match id {
        ButtonId::LeftTurn | ButtonId::RightTurn | ButtonId::Lock => ButtonKind::Toggle,
        _ => ButtonKind::Regular,
    }
}

/// The button polled at position `i`.
pub fn button_at(i: usize) -> (r: ButtonId)
    requires
        i < NUM_BUTTONS,
    ensures
        r == id_at(i as int),
{
    match i {
        0 => ButtonId::CruiseDown,
        1 => ButtonId::CruiseUp,
        2 => ButtonId::Reverse,
        3 => ButtonId::PushToTalk,
        4 => ButtonId::Horn,
        5 => ButtonId::PowerSave,
        6 => ButtonId::Rearview,
        7 => ButtonId::LeftTurn,
        8 => ButtonId::RightTurn,
        _ => ButtonId::Lock,
    }
}

impl ButtonId {
    /// Whether the button is momentary or toggling.
    pub fn kind(self) -> (r: ButtonKind)
        ensures
            r == kind_of(self),
    {
        match self {
            ButtonId::LeftTurn | ButtonId::RightTurn | ButtonId::Lock => ButtonKind::Toggle,
            _ => ButtonKind::Regular,
        }
    }
}

/// Human-readable name of a button.
pub open spec fn name_of(button: ButtonId) -> Seq<char> {
    match button {
        ButtonId::CruiseDown => "Cruise Down"@,
        ButtonId::CruiseUp => "Cruise Up"@,
        ButtonId::Reverse => "Reverse"@,
        ButtonId::PushToTalk => "Push-to-Talk"@,
        ButtonId::Horn => "Horn"@,
        ButtonId::PowerSave => "Power Save"@,
        ButtonId::Rearview => "Rearview"@,
        ButtonId::LeftTurn => "Left Turn"@,
        ButtonId::RightTurn => "Right Turn"@,
        ButtonId::Lock => "Lock"@,
    }
}

/// Human-readable name of a button.
pub fn button_name(button: ButtonId) -> (r: &'static str)
    ensures
        r@ == name_of(button),
{
    match button {
        ButtonId::CruiseDown => "Cruise Down",
        ButtonId::CruiseUp => "Cruise Up",
        ButtonId::Reverse => "Reverse",
        ButtonId::PushToTalk => "Push-to-Talk",
        ButtonId::Horn => "Horn",
        ButtonId::PowerSave => "Power Save",
        ButtonId::Rearview => "Rearview",
        ButtonId::LeftTurn => "Left Turn",
        ButtonId::RightTurn => "Right Turn",
        ButtonId::Lock => "Lock",
    }
}

/// The debounce state of one button.
pub struct Debounce {
    /// Last sample seen, unfiltered.
    pub raw: bool,
    /// Accepted logical state.
    pub stable: bool,
    /// Length of the current run of identical samples, capped at the threshold.
    pub counter: nat,
}

pub open spec fn debounce_wf(d: Debounce) -> bool {
    &&& d.counter <= DEBOUNCE_THRESHOLD
    &&& d.counter == DEBOUNCE_THRESHOLD ==> d.stable == d.raw
}

pub open spec fn debounce_init() -> Debounce {
    Debounce { raw: false, stable: false, counter: 0 }
}

/// One poll of one button: a sample that differs from the stored one starts
/// a new run of length one; a matching sample lengthens the run up to the
/// threshold, and the run that reaches it is accepted as the stable state.
pub open spec fn debounce_step(d: Debounce, sample: bool) -> Debounce {
    let counter = if sample != d.raw {
        1
    } else if d.counter < DEBOUNCE_THRESHOLD {
        d.counter + 1
    } else {
        d.counter
    };
    Debounce {
        raw: sample,
        stable: if counter == DEBOUNCE_THRESHOLD { sample } else { d.stable },
        counter: counter as nat,
    }
}

/// The event, if any, that a poll reports for button `id` whose stable state
/// went from `before` to `after`; `toggle` is its stored flag before the poll.
pub open spec fn event_for(id: ButtonId, before: bool, after: bool, toggle: bool) -> Seq<
    ButtonEvent,
> {
    if before == after {
        Seq::empty()
    } else {
        match kind_of(id) {
            ButtonKind::Regular => if after {
                seq![ButtonEvent::Pressed(id)]
            } else {
                seq![ButtonEvent::Released(id)]
            },
            ButtonKind::Toggle => if after {
                seq![ButtonEvent::Toggled(id, !toggle)]
            } else {
                Seq::empty()
            },
        }
    }
}

/// Debounced state of every button, with the stored flags of the toggle buttons.
pub struct ButtonState {
    /// Debounced states; `true` is pressed.
    pub states: [bool; 10],
    /// Last sample of each button, unfiltered.
    pub raw_states: [bool; 10],
    /// Length of each button's current run of identical samples.
    pub debounce_counters: [u8; 10],
    /// Stored flags of the left turn, right turn and lock buttons.
    pub toggle_states: [bool; 3],
}

/// heapless::Vec, the fixed-capacity vector that carries the events of one poll.
#[verifier::external_type_specification]
#[verifier::external_body]
#[verifier::reject_recursive_types(T)]
pub struct ExHeaplessVec<T, const N: usize>(heapless::Vec<T, N>);

/// What an event list holds, in order.
pub uninterp spec fn events_of(v: heapless::Vec<ButtonEvent, 10>) -> Seq<ButtonEvent>;

/// Relies on heapless::Vec::new: the new vector is empty.
#[verifier::external_body]
fn new_event_list() -> (r: heapless::Vec<ButtonEvent, 10>)
    ensures
        events_of(r) == Seq::<ButtonEvent>::empty(),
{
    heapless::Vec::new()
}

/// Relies on heapless::Vec::push: it appends while the length is under the
/// capacity, and otherwise hands the item back and leaves the vector as it was.
#[verifier::external_body]
fn push_event(v: &mut heapless::Vec<ButtonEvent, 10>, e: ButtonEvent) -> (pushed: bool)
    ensures
        pushed == (events_of(*old(v)).len() < 10),
        pushed ==> events_of(*final(v)) == events_of(*old(v)).push(e),
        !pushed ==> events_of(*final(v)) == events_of(*old(v)),
{
    v.push(e).is_ok()
}

impl ButtonState {
    /// Debounce state of the button at position `i`.
    pub open spec fn cell(&self, i: int) -> Debounce {
        Debounce {
            raw: self.raw_states@[i],
            stable: self.states@[i],
            counter: self.debounce_counters@[i] as nat,
        }
    }

    /// Stored flag of toggle button `id`.
    pub open spec fn toggle_of(&self, id: ButtonId) -> bool {
        self.toggle_states@[toggle_slot(id)]
    }

    pub open spec fn wf(&self) -> bool {
        forall|i: int| 0 <= i < 10 ==> debounce_wf(#[trigger] self.cell(i))
    }

    /// Events that a poll with `samples` (true = pressed) reports for the
    /// buttons before position `k`, in polling order.
    pub open spec fn events_upto(&self, samples: Seq<bool>, k: int) -> Seq<ButtonEvent>
        decreases k,
    {
        if k <= 0 {
            Seq::empty()
        } else {
            self.events_upto(samples, k - 1) + event_for(
                id_at(k - 1),
                self.cell(k - 1).stable,
                debounce_step(self.cell(k - 1), samples[k - 1]).stable,
                self.toggle_of(id_at(k - 1)),
            )
        }
    }

    /// All buttons released, nothing sampled yet, every toggle off.
    pub fn new() -> (r: Self)
        ensures
            r.wf(),
            forall|i: int| 0 <= i < 10 ==> #[trigger] r.cell(i) == debounce_init(),
            forall|s: int| 0 <= s < 3 ==> !#[trigger] r.toggle_states@[s],
    {
        Self {
            states: [false; 10],
            raw_states: [false; 10],
            debounce_counters: [0; 10],
            toggle_states: [false; 3],
        }
    }

    /// Takes one sample of every button, as electrical levels (`true` is
    /// high; a pressed button pulls its line low), and reports the confirmed
    /// changes in polling order.
    pub fn update(&mut self, levels: &[bool; 10]) -> (events: heapless::Vec<ButtonEvent, 10>)
        requires
            old(self).wf(),
        ensures
            final(self).wf(),
            forall|i: int|
                0 <= i < 10 ==> #[trigger] final(self).cell(i) == debounce_step(
                    old(self).cell(i),
                    !levels@[i],
                ),
            forall|t: int|
                0 <= t < 3 ==> #[trigger] final(self).toggle_states@[t] == (if !old(self).cell(
                    7 + t,
                ).stable && debounce_step(old(self).cell(7 + t), !levels@[7 + t]).stable {
                    !old(self).toggle_states@[t]
                } else {
                    old(self).toggle_states@[t]
                }),
            events_of(events) == old(self).events_upto(
                Seq::new(10, |i: int| !levels@[i]),
                10,
            ),
    {
        let ghost pre = *self;
        let ghost samples = Seq::new(10, |i: int| !levels@[i]);
        let mut events = new_event_list();
        let mut i: usize = 0;
        while i < NUM_BUTTONS
            invariant
                0 <= i <= 10,
                samples == Seq::new(10, |j: int| !levels@[j]),
                pre.wf(),
                forall|j: int|
                    0 <= j < i ==> #[trigger] self.cell(j) == debounce_step(
                        pre.cell(j),
                        samples[j],
                    ),
                forall|j: int| i <= j < 10 ==> #[trigger] self.cell(j) == pre.cell(j),
                forall|t: int|
                    0 <= t < 3 && 7 + t < i ==> #[trigger] self.toggle_states@[t] == (if !pre.cell(
                        7 + t,
                    ).stable && debounce_step(pre.cell(7 + t), samples[7 + t]).stable {
                        !pre.toggle_states@[t]
                    } else {
                        pre.toggle_states@[t]
                    }),
                forall|t: int|
                    0 <= t < 3 && i <= 7 + t ==> #[trigger] self.toggle_states@[t]
                        == pre.toggle_states@[t],
                events_of(events) == pre.events_upto(samples, i as int),
                events_of(events).len() <= i,
            decreases 10 - i,
        {
            let ghost cur = *self;
            assert(cur.cell(i as int) == pre.cell(i as int));
            assert(i >= 7 ==> cur.toggle_states@[i - 7] == pre.toggle_states@[i - 7]);
            let sample = !levels[i];
            let before = self.states[i];
            let mut raw = self.raw_states[i];
            let mut counter = self.debounce_counters[i];
            let mut after = before;
            if sample != raw {
                raw = sample;
                counter = 1;
            } else if counter < DEBOUNCE_THRESHOLD {
                counter = counter + 1;
            }
            if counter == DEBOUNCE_THRESHOLD {
                after = sample;
            }
            self.raw_states[i] = raw;
            self.debounce_counters[i] = counter;
            self.states[i] = after;
            let id = button_at(i);
            if before != after {
                match id.kind() {
                    ButtonKind::Regular => {
                        if after {
                            let _ = push_event(&mut events, ButtonEvent::Pressed(id));
                        } else {
                            let _ = push_event(&mut events, ButtonEvent::Released(id));
                        }
                    },
                    ButtonKind::Toggle => {
                        if after {
                            let slot: usize = if i == 7 {
                                0
                            } else if i == 8 {
                                1
                            } else {
                                2
                            };
                            let flipped = !self.toggle_states[slot];
                            self.toggle_states[slot] = flipped;
                            let _ = push_event(&mut events, ButtonEvent::Toggled(id, flipped));
                        }
                    },
                }
            }
            proof {
                assert(self.cell(i as int) == debounce_step(pre.cell(i as int), samples[i as int]));
                assert forall|j: int| 0 <= j < 10 && j != i implies #[trigger] self.cell(j) == cur.cell(
                    j,
                ) by {
                    assert(self.raw_states@[j] == cur.raw_states@[j]);
                    assert(self.states@[j] == cur.states@[j]);
                    assert(self.debounce_counters@[j] == cur.debounce_counters@[j]);
                }
            }
            i = i + 1;
        }
        events
    }
}

/// State of one button after `samples`, polled in order from `d`.
pub open spec fn debounce_run(d: Debounce, samples: Seq<bool>) -> Debounce
    decreases samples.len(),
{
    if samples.len() == 0 {
        d
    } else {
        debounce_step(debounce_run(d, samples.drop_last()), samples.last())
    }
}

/// Length of the run of identical samples that ends `samples`.
pub open spec fn trailing_run(samples: Seq<bool>) -> nat
    decreases samples.len(),
{
    if samples.len() == 0 {
        0
    } else if samples.len() == 1 {
        1
    } else if samples[samples.len() - 1] == samples[samples.len() - 2] {
        1 + trailing_run(samples.drop_last())
    } else {
        1
    }
}

/// From the power-on state, the counter is the length of the trailing run
/// of identical samples, capped at the threshold, and `raw` is the last sample.
pub proof fn lemma_counter_is_run_length(samples: Seq<bool>)
    ensures
        debounce_wf(debounce_run(debounce_init(), samples)),
        debounce_run(debounce_init(), samples).counter == (if trailing_run(samples)
            < DEBOUNCE_THRESHOLD {
            trailing_run(samples)
        } else {
            DEBOUNCE_THRESHOLD as nat
        }),
        samples.len() > 0 ==> debounce_run(debounce_init(), samples).raw == samples.last(),
    decreases samples.len(),
{
    if samples.len() > 0 {
        let prev = samples.drop_last();
        lemma_counter_is_run_length(prev);
        if samples.len() > 1 {
            assert(prev.last() == samples[samples.len() - 2]);
        }
    }
}

/// A momentary button, fed any samples from the power-on state, reports on
/// the last poll exactly one `Pressed` when that poll confirms a press,
/// exactly one `Released` when it confirms a release, and nothing otherwise.
/// A change is confirmed only by the threshold-th consecutive identical
/// sample, and always by it.
pub proof fn lemma_regular_button_events(id: ButtonId, samples: Seq<bool>, toggle: bool)
    requires
        kind_of(id) == ButtonKind::Regular,
        samples.len() > 0,
    ensures
        ({
            let before = debounce_run(debounce_init(), samples.drop_last()).stable;
            let after = debounce_run(debounce_init(), samples).stable;
            &&& event_for(id, before, after, toggle) == (if !before && after {
                seq![ButtonEvent::Pressed(id)]
            } else if before && !after {
                seq![ButtonEvent::Released(id)]
            } else {
                Seq::<ButtonEvent>::empty()
            })
            &&& after == (if trailing_run(samples) >= DEBOUNCE_THRESHOLD {
                samples.last()
            } else {
                before
            })
            &&& before != after ==> trailing_run(samples) == DEBOUNCE_THRESHOLD
        }),
{
    lemma_counter_is_run_length(samples);
    lemma_counter_is_run_length(samples.drop_last());
    let prev = samples.drop_last();
    if samples.len() > 1 && samples[samples.len() - 1] == samples[samples.len() - 2] {
        assert(prev.last() == samples[samples.len() - 2]);
    }
}

/// A toggle button, fed any samples from the power-on state, reports on the
/// last poll a single `Toggled` carrying the flipped flag when that poll
/// confirms a press, and nothing on any other poll, release included.
pub proof fn lemma_toggle_button_events(id: ButtonId, samples: Seq<bool>, toggle: bool)
    requires
        kind_of(id) == ButtonKind::Toggle,
        samples.len() > 0,
    ensures
        ({
            let before = debounce_run(debounce_init(), samples.drop_last()).stable;
            let after = debounce_run(debounce_init(), samples).stable;
            &&& event_for(id, before, after, toggle) == (if !before && after {
                seq![ButtonEvent::Toggled(id, !toggle)]
            } else {
                Seq::<ButtonEvent>::empty()
            })
            &&& before != after ==> trailing_run(samples) == DEBOUNCE_THRESHOLD
        }),
{
    lemma_counter_is_run_length(samples);
    lemma_counter_is_run_length(samples.drop_last());
    let prev = samples.drop_last();
    if samples.len() > 1 && samples[samples.len() - 1] == samples[samples.len() - 2] {
        assert(prev.last() == samples[samples.len() - 2]);
    }
}

} // verus!
