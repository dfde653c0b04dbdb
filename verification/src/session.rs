//! Host-side session state machine: the character-select carousel and the
//! timed conversation loop, written purely as transitions from state and
//! event to next state and action. The surrounding process performs the
//! awaits, the endpoint calls and the collaborator calls, and feeds the
//! results back in as plain values.

use vstd::prelude::*;

use crate::character::{details_of, next_index, prev_index, CharacterCollection};
use crate::conversation::{VnOutput, VnOutputView};
use crate::icd::{ButtonAction, CharacterSelectScreen, CharacterSelectScreenView};

verus! {

/// Where the character-select loop stands after one button: still browsing
/// at some index, or done with a confirmed index.
#[derive(Clone, Copy, Debug, PartialEq, Eq, Structural)]
pub enum CarouselOutcome {
    Browsing(usize),
    Confirmed(usize),
}

/// One step of the character-select carousel over a collection of `n`
/// characters: the back button steps to the previous index, the forward
/// button to the next, both circularly; the middle button confirms the
/// current index; the end button is ignored at this stage.
pub fn carousel_step(n: usize, idx: usize, action: ButtonAction) -> (r: CarouselOutcome)
    requires
        0 < n,
        idx < n,
    ensures
        match action {
            ButtonAction::Fn1 => r == CarouselOutcome::Browsing(
                prev_index(n as int, idx as int) as usize,
            ),
            ButtonAction::Fn2 => r == CarouselOutcome::Confirmed(idx),
            ButtonAction::Fn3 => r == CarouselOutcome::Browsing(
                next_index(n as int, idx as int) as usize,
            ),
            ButtonAction::EndConversation => r == CarouselOutcome::Browsing(idx),
        },
        match r {
            CarouselOutcome::Browsing(j) => j < n,
            CarouselOutcome::Confirmed(j) => j < n,
        },
{
    match action {
        ButtonAction::Fn1 => {
            if idx == 0 {
                CarouselOutcome::Browsing(n - 1)
            } else {
                CarouselOutcome::Browsing(idx - 1)
            }
        },
        ButtonAction::Fn2 => CarouselOutcome::Confirmed(idx),
        ButtonAction::Fn3 => {
            if idx == n - 1 {
                CarouselOutcome::Browsing(0)
            } else {
                CarouselOutcome::Browsing(idx + 1)
            }
        },
        ButtonAction::EndConversation => CarouselOutcome::Browsing(idx),
    }
}

/// Carousel transitions are circular: stepping back from the first index
/// reaches the last, and stepping forward from the last reaches the first.
pub proof fn lemma_carousel_circular(n: int)
    requires
        n >= 1,
    ensures
        prev_index(n, 0) == n - 1,
        next_index(n, n - 1) == 0,
{
}

/// The character-select screen to show while browsing at an index: the
/// ordered triple (previous, selected, next) by circular indexing into the
/// collection.
pub fn character_select_screen(collection: &CharacterCollection, idx: usize) -> (r:
    CharacterSelectScreen)
    requires
        collection.wf(),
        idx < collection.characters@.len(),
    ensures
        r@ == (CharacterSelectScreenView {
            prev: details_of(
                collection.characters@[prev_index(
                    collection.characters@.len() as int,
                    idx as int,
                )]@,
            ),
            selected: details_of(collection.characters@[idx as int]@),
            next: details_of(
                collection.characters@[next_index(
                    collection.characters@.len() as int,
                    idx as int,
                )]@,
            ),
        }),
{
    let (prev, selected, next) = collection.pick_subset(idx);
    CharacterSelectScreen {
        prev: prev.details(),
        selected: selected.details(),
        next: next.details(),
    }
}

/// The event one wait of the conversation loop ends with: a button arrived
/// in time, or the wait timed out.
pub open spec fn resolved_event(event: Option<ButtonAction>) -> ButtonAction {
    match event {
        Some(a) => a,
        None => ButtonAction::EndConversation,
    }
}

/// Treats a timed-out wait identically to an explicit end press.
pub fn resolve_event(event: Option<ButtonAction>) -> (r: ButtonAction)
    ensures
        r == resolved_event(event),
{
    match event {
        Some(a) => a,
        None => ButtonAction::EndConversation,
    }
}

/// What one turn of the conversation loop decides: send the chosen reply to
/// the dialogue collaborator, or end the conversation.
#[derive(Debug)]
pub enum TurnOutcome {
    Reply(String),
    End,
}

/// Mathematical value of a [`TurnOutcome`].
pub enum TurnOutcomeView {
    Reply(Seq<char>),
    End,
}

impl View for TurnOutcome {
    type V = TurnOutcomeView;

    open spec fn view(&self) -> TurnOutcomeView {
        match self {
            TurnOutcome::Reply(s) => TurnOutcomeView::Reply(s@),
            TurnOutcome::End => TurnOutcomeView::End,
        }
    }
}

/// The decision one turn of the conversation loop takes on the offered
/// choices and the awaited event: the three function buttons select the
/// corresponding reply text; an end press, or a wait that timed out, ends
/// the conversation.
pub open spec fn turn_decision(vn: VnOutputView, event: Option<ButtonAction>) -> TurnOutcomeView {
    match resolved_event(event) {
        ButtonAction::Fn1 => TurnOutcomeView::Reply(vn.user_reply_1),
        ButtonAction::Fn2 => TurnOutcomeView::Reply(vn.user_reply_2),
        ButtonAction::Fn3 => TurnOutcomeView::Reply(vn.user_reply_3),
        ButtonAction::EndConversation => TurnOutcomeView::End,
    }
}

/// Decides one turn of the conversation loop; `None` stands for a wait that
/// timed out.
pub fn conversation_turn(vn: &VnOutput, event: Option<ButtonAction>) -> (r: TurnOutcome)
    ensures
        r@ == turn_decision(vn@, event),
{
    match resolve_event(event) {
        ButtonAction::Fn1 => TurnOutcome::Reply(vn.user_reply_1.clone()),
        ButtonAction::Fn2 => TurnOutcome::Reply(vn.user_reply_2.clone()),
        ButtonAction::Fn3 => TurnOutcome::Reply(vn.user_reply_3.clone()),
        ButtonAction::EndConversation => TurnOutcome::End,
    }
}

/// A wait that times out during a turn behaves identically to an explicit
/// end press: the same decision follows, so the same footer and persistence
/// behaviour does too.
pub proof fn lemma_timeout_acts_as_end(vn: VnOutputView)
    ensures
        turn_decision(vn, None) == turn_decision(vn, Some(ButtonAction::EndConversation)),
{
}

} // verus!
