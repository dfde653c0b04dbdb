//! Device-side button sampler: debounces raw input samples by change
//! detection, decodes valid single-press patterns into actions, and tags each
//! published action with a wrapping 8-bit sequence number.

use vstd::prelude::*;

use crate::icd::ButtonAction;

verus! {

/// The capacity of the sample history ring.
pub const HISTORY_CAPACITY: usize = 4;

/// The levels of the four input lines at a single instant. A line reads
/// `true` when it is asserted (the lines are active-low, so an asserted line
/// is a pressed button).
#[derive(Clone, Copy, Debug, PartialEq, Eq, Structural)]
pub struct InputSample {
    pub fn_1: bool,
    pub fn_2: bool,
    pub fn_3: bool,
    pub end_conversation: bool,
}

/// The action a sample decodes to: one for each pattern with exactly one
/// asserted line, none for the ambiguous or no-press patterns.
pub open spec fn decoded(s: InputSample) -> Option<ButtonAction> {
    if s.fn_1 && !s.fn_2 && !s.fn_3 && !s.end_conversation {
        Some(ButtonAction::Fn1)
    } else if !s.fn_1 && s.fn_2 && !s.fn_3 && !s.end_conversation {
        Some(ButtonAction::Fn2)
    } else if !s.fn_1 && !s.fn_2 && s.fn_3 && !s.end_conversation {
        Some(ButtonAction::Fn3)
    } else if !s.fn_1 && !s.fn_2 && !s.fn_3 && s.end_conversation {
        Some(ButtonAction::EndConversation)
    } else {
        None
    }
}

/// Decodes a sample against the table of valid single-press patterns.
pub fn decode(s: InputSample) -> (r: Option<ButtonAction>)
    ensures
        r == decoded(s),
{
    if s.fn_1 && !s.fn_2 && !s.fn_3 && !s.end_conversation {
        Some(ButtonAction::Fn1)
    } else if !s.fn_1 && s.fn_2 && !s.fn_3 && !s.end_conversation {
        Some(ButtonAction::Fn2)
    } else if !s.fn_1 && !s.fn_2 && s.fn_3 && !s.end_conversation {
        Some(ButtonAction::Fn3)
    } else if !s.fn_1 && !s.fn_2 && !s.fn_3 && s.end_conversation {
        Some(ButtonAction::EndConversation)
    } else {
        None
    }
}

/// A sample differs from the most recent history entry; an empty history
/// counts as changed, so the first sample always triggers a decode attempt.
pub open spec fn sample_changed(history: Seq<InputSample>, s: InputSample) -> bool {
    history.len() == 0 || history.last() != s
}

/// The history after a sample is recorded: appended at the end, the oldest
/// entry evicted once the ring is full.
pub open spec fn history_written(history: Seq<InputSample>, s: InputSample) -> Seq<InputSample> {
    if history.len() < HISTORY_CAPACITY {
        history.push(s)
    } else {
        history.skip(1).push(s)
    }
}

/// A bounded ring of the most recent input samples, newest last.
pub struct SampleHistory {
    entries: Vec<InputSample>,
}

impl View for SampleHistory {
    type V = Seq<InputSample>;

    closed spec fn view(&self) -> Seq<InputSample> {
        self.entries@
    }
}

impl SampleHistory {
    pub open spec fn wf(self) -> bool {
        self@.len() <= HISTORY_CAPACITY
    }

    pub fn new() -> (r: Self)
        ensures
            r@ == Seq::<InputSample>::empty(),
            r.wf(),
    {
        SampleHistory { entries: Vec::new() }
    }

    /// The most recent sample, if any.
    pub fn recent(&self) -> (r: Option<InputSample>)
        ensures
            self@.len() == 0 ==> r is None,
            self@.len() > 0 ==> r == Some(self@.last()),
    {
        if self.entries.len() == 0 {
            None
        } else {
            Some(self.entries[self.entries.len() - 1])
        }
    }

    /// Records a sample, evicting the oldest entry when the ring is full.
    pub fn write(&mut self, s: InputSample)
        requires
            old(self).wf(),
        ensures
            final(self)@ == history_written(old(self)@, s),
            final(self).wf(),
    {
        if self.entries.len() == HISTORY_CAPACITY {
            self.entries.remove(0);
        }
        self.entries.push(s);
    }
}

/// A published button event: the decoded action and the sequence number it
/// was published under.
#[derive(Clone, Copy, Debug, PartialEq, Eq, Structural)]
pub struct ButtonEvent {
    pub action: ButtonAction,
    pub seq: u8,
}

/// The sampler's state between ticks: the sample history and the sequence
/// number the next published event will carry.
pub struct ButtonSampler {
    history: SampleHistory,
    seq: u8,
}

/// One tick of the sampler on the spec level: the new history, the new
/// sequence number, and the event published this tick, if any.
pub open spec fn tick_spec(history: Seq<InputSample>, seq: u8, s: InputSample) -> (
    Seq<InputSample>,
    u8,
    Option<ButtonEvent>,
) {
    if sample_changed(history, s) {
        match decoded(s) {
            Some(action) => (
                history_written(history, s),
                ((seq + 1) % 256) as u8,
                Some(ButtonEvent { action, seq }),
            ),
            None => (history_written(history, s), seq, None),
        }
    } else {
        (history, seq, None)
    }
}

impl ButtonSampler {
    pub closed spec fn wf(self) -> bool {
        self.history.wf()
    }

    pub closed spec fn history(self) -> Seq<InputSample> {
        self.history@
    }

    pub closed spec fn seq(self) -> u8 {
        self.seq
    }

    /// A fresh sampler: empty history, sequence number zero.
    pub fn new() -> (r: Self)
        ensures
            r.history() == Seq::<InputSample>::empty(),
            r.seq() == 0,
            r.wf(),
    {
        ButtonSampler { history: SampleHistory::new(), seq: 0 }
    }

    /// One fixed-rate tick: record the sample if it changed, decode it, and
    /// hand back the event to publish, if any. An event is produced if and
    /// only if the sample changed from the most recent one and decodes to
    /// exactly one asserted line; the sequence number advances by exactly one
    /// (wrapping) per produced event and is untouched otherwise.
    pub fn tick(&mut self, s: InputSample) -> (r: Option<ButtonEvent>)
        requires
            old(self).wf(),
        ensures
            final(self).wf(),
            (final(self).history(), final(self).seq(), r) == tick_spec(
                old(self).history(),
                old(self).seq(),
                s,
            ),
            r is Some <==> sample_changed(old(self).history(), s) && decoded(s) is Some,
    {
        let changed = match self.history.recent() {
            Some(recent) => recent != s,
            None => true,
        };
        if changed {
            self.history.write(s);
            match decode(s) {
                Some(action) => {
                    let event = ButtonEvent { action, seq: self.seq };
                    self.seq = self.seq.wrapping_add(1);
                    Some(event)
                },
                None => None,
            }
        } else {
            None
        }
    }
}

/// The history after one tick: recorded if the sample changed, untouched
/// otherwise.
pub open spec fn step_history(history: Seq<InputSample>, s: InputSample) -> Seq<InputSample> {
    if sample_changed(history, s) {
        history_written(history, s)
    } else {
        history
    }
}

/// The history after the sampler consumes a sequence of samples, oldest
/// first.
pub open spec fn run_history(history: Seq<InputSample>, samples: Seq<InputSample>) -> Seq<
    InputSample,
>
    decreases samples.len(),
{
    if samples.len() == 0 {
        history
    } else {
        run_history(step_history(history, samples[0]), samples.skip(1))
    }
}

/// The per-tick outputs while the sampler consumes a sequence of samples:
/// element `i` is the event the `i`-th sample published, if any.
pub open spec fn run_outputs(history: Seq<InputSample>, seq: u8, samples: Seq<InputSample>) -> Seq<
    Option<ButtonEvent>,
>
    decreases samples.len(),
{
    if samples.len() == 0 {
        Seq::empty()
    } else {
        let (history2, seq2, ev) = tick_spec(history, seq, samples[0]);
        seq![ev] + run_outputs(history2, seq2, samples.skip(1))
    }
}

/// A run produces one output slot per sample.
pub proof fn lemma_run_outputs_len(history: Seq<InputSample>, seq: u8, samples: Seq<InputSample>)
    ensures
        run_outputs(history, seq, samples).len() == samples.len(),
    decreases samples.len(),
{
    if samples.len() > 0 {
        let (history2, seq2, _) = tick_spec(history, seq, samples[0]);
        lemma_run_outputs_len(history2, seq2, samples.skip(1));
    }
}

/// For every sequence of samples fed to the sampler, the `i`-th sample
/// publishes an event if and only if it changed from the most recent history
/// entry at that point and decodes to exactly one asserted line; ambiguous
/// and no-press changes never publish.
pub proof fn lemma_run_publishes_iff(
    history: Seq<InputSample>,
    seq: u8,
    samples: Seq<InputSample>,
    i: int,
)
    requires
        0 <= i < samples.len(),
    ensures
        run_outputs(history, seq, samples)[i] is Some <==> (sample_changed(
            run_history(history, samples.take(i)),
            samples[i],
        ) && decoded(samples[i]) is Some),
    decreases samples.len(),
{
    let (history2, seq2, ev) = tick_spec(history, seq, samples[0]);
    lemma_run_outputs_len(history2, seq2, samples.skip(1));
    assert(history2 == step_history(history, samples[0]));
    if i == 0 {
        assert(samples.take(0) =~= Seq::<InputSample>::empty());
        assert(run_history(history, samples.take(0)) == history);
        assert(run_outputs(history, seq, samples)[0] == ev);
    } else {
        lemma_run_publishes_iff(history2, seq2, samples.skip(1), i - 1);
        assert(run_outputs(history, seq, samples)[i] == run_outputs(
            history2,
            seq2,
            samples.skip(1),
        )[i - 1]);
        assert(samples.skip(1)[i - 1] == samples[i]);
        assert(samples.take(i).skip(1) =~= samples.skip(1).take(i - 1));
        assert(samples.take(i)[0] == samples[0]);
        assert(run_history(history, samples.take(i)) == run_history(
            history2,
            samples.skip(1).take(i - 1),
        ));
    }
}

/// The events published while the sampler consumes a sequence of samples,
/// oldest sample first.
pub open spec fn run_events(history: Seq<InputSample>, seq: u8, samples: Seq<InputSample>) -> Seq<
    ButtonEvent,
>
    decreases samples.len(),
{
    if samples.len() == 0 {
        Seq::empty()
    } else {
        let (history2, seq2, ev) = tick_spec(history, seq, samples[0]);
        let rest = run_events(history2, seq2, samples.skip(1));
        match ev {
            Some(e) => seq![e] + rest,
            None => rest,
        }
    }
}

/// Over any run of the sampler, a sample publishes an event exactly when it
/// changed from the previous one and exactly one line is asserted; ambiguous
/// and no-press samples never publish.
pub proof fn lemma_publish_iff_changed_single_press(
    history: Seq<InputSample>,
    seq: u8,
    s: InputSample,
)
    ensures
        tick_spec(history, seq, s).2 is Some <==> (sample_changed(history, s) && decoded(s)
            is Some),
        decoded(s) is Some ==> (s.fn_1 as int) + (s.fn_2 as int) + (s.fn_3 as int) + (
        s.end_conversation as int) == 1,
{
}

/// Sequence numbers increase by exactly one (mod 256) between consecutive
/// published events, whatever anomalies the sampler sees in between: the
/// `j`-th event of any run carries sequence number `seq + j` (mod 256).
pub proof fn lemma_seq_numbers_consecutive(
    history: Seq<InputSample>,
    seq: u8,
    samples: Seq<InputSample>,
    j: int,
)
    requires
        0 <= j < run_events(history, seq, samples).len(),
    ensures
        run_events(history, seq, samples)[j].seq == (seq + j) % 256,
    decreases samples.len(),
{
    if samples.len() > 0 {
        let (history2, seq2, ev) = tick_spec(history, seq, samples[0]);
        match ev {
            Some(e) => {
                if j > 0 {
                    lemma_seq_numbers_consecutive(history2, seq2, samples.skip(1), j - 1);
                    assert(seq2 == (seq + 1) % 256);
                    assert((((seq + 1) % 256) + (j - 1)) % 256 == (seq + j) % 256) by {
                        vstd::arithmetic::div_mod::lemma_add_mod_noop(seq + 1, j - 1, 256);
                        vstd::arithmetic::div_mod::lemma_mod_twice(j - 1, 256);
                        vstd::arithmetic::div_mod::lemma_add_mod_noop(seq + 1, (j - 1) % 256, 256);
                    }
                }
            },
            None => {
                lemma_seq_numbers_consecutive(history2, seq2, samples.skip(1), j);
            },
        }
    }
}

} // verus!
