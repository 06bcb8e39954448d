//! Properties of the ledger over single operations and over whole
//! histories of operations, proved on its abstract state.

use vstd::prelude::*;

use crate::ledger::{
    QuizState, REWARD, added, answer_matches, balance_of, deleted, initial_state,
    question_text, state_wf, submitted,
};

verus! {

/// One operation on the ledger, with its arguments.
pub enum Action {
    Add { text: Seq<char>, correct_answer: Seq<char> },
    Submit { caller: Seq<u8>, id: u32, answer: Seq<char> },
    Delete { id: u32 },
}

/// The state after one action.
pub open spec fn apply(s: QuizState, a: Action) -> QuizState {
    match a {
        Action::Add { text, correct_answer } => added(s, text, correct_answer),
        Action::Submit { caller, id, answer } => submitted(s, caller, id, answer),
        Action::Delete { id } => deleted(s, id),
    }
}

/// The state after a history of actions, from a fresh ledger.
pub open spec fn run(history: Seq<Action>) -> QuizState
    decreases history.len(),
{
    if history.len() == 0 {
        initial_state()
    } else {
        apply(run(history.drop_last()), history.last())
    }
}

/// How many questions a history adds.
pub open spec fn adds_in(history: Seq<Action>) -> nat
    decreases history.len(),
{
    if history.len() == 0 {
        0
    } else {
        adds_in(history.drop_last()) + if history.last() is Add {
            1nat
        } else {
            0nat
        }
    }
}

/// The text that a history last stored under `id`, unless a later
/// deletion removed it.
pub open spec fn last_stored(history: Seq<Action>, id: u32) -> Option<Seq<char>>
    decreases history.len(),
{
    if history.len() == 0 {
        None
    } else {
        let before = history.drop_last();
        match history.last() {
            Action::Add { text, .. } => if adds_in(before) == id {
                Some(text)
            } else {
                last_stored(before, id)
            },
            Action::Delete { id: gone } => if gone == id {
                None
            } else {
                last_stored(before, id)
            },
            Action::Submit { .. } => last_stored(before, id),
        }
    }
}

/// Whether some answer by `caller` in the history was correct when given.
pub open spec fn ever_rewarded(history: Seq<Action>, caller: Seq<u8>) -> bool
    decreases history.len(),
{
    if history.len() == 0 {
        false
    } else {
        let before = history.drop_last();
        ever_rewarded(before, caller) || match history.last() {
            Action::Submit { caller: who, id, answer } => who == caller && answer_matches(
                run(before),
                id,
                answer,
            ),
            _ => false,
        }
    }
}

/// How many answers by `caller` in the history were correct when given.
pub open spec fn rewards_in(history: Seq<Action>, caller: Seq<u8>) -> nat
    decreases history.len(),
{
    if history.len() == 0 {
        0
    } else {
        let before = history.drop_last();
        rewards_in(before, caller) + match history.last() {
            Action::Submit { caller: who, id, answer } => if who == caller && answer_matches(
                run(before),
                id,
                answer,
            ) {
                1nat
            } else {
                0nat
            },
            _ => 0nat,
        }
    }
}

/// Question ids follow the number of additions: after any history, deletions
/// and answers included, the counter equals the number of questions added,
/// so the question added by the action at position `j` gets as its id the
/// number of additions before it.
pub proof fn lemma_ids_count_additions(history: Seq<Action>, j: int)
    requires
        adds_in(history) <= u32::MAX,
        0 <= j < history.len(),
        history[j] is Add,
    ensures
        run(history).next_id == adds_in(history),
        run(history.take(j)).next_id == adds_in(history.take(j)),
        run(history.take(j + 1)).questions[adds_in(history.take(j)) as u32] == (
            history[j]->Add_text,
            history[j]->Add_correct_answer,
        ),
{
    lemma_counter(history);
    lemma_counter(history.take(j + 1));
    lemma_adds_prefix(history, j + 1);
    assert(history.take(j + 1).drop_last() =~= history.take(j));
    lemma_counter(history.take(j));
}

proof fn lemma_counter(history: Seq<Action>)
    ensures
        run(history).next_id == adds_in(history),
    decreases history.len(),
{
    if history.len() > 0 {
        lemma_counter(history.drop_last());
    }
}

proof fn lemma_adds_prefix(history: Seq<Action>, j: int)
    requires
        0 <= j <= history.len(),
    ensures
        adds_in(history.take(j)) <= adds_in(history),
    decreases history.len(),
{
    if j < history.len() {
        lemma_adds_prefix(history.drop_last(), j);
        assert(history.drop_last().take(j) =~= history.take(j));
    } else {
        assert(history.take(j) =~= history);
    }
}

/// Every reachable state is well formed: the counter fits and every stored
/// id was handed out before.
pub proof fn lemma_run_wf(history: Seq<Action>)
    requires
        adds_in(history) <= u32::MAX,
    ensures
        state_wf(run(history)),
    decreases history.len(),
{
    if history.len() > 0 {
        let before = history.drop_last();
        lemma_run_wf(before);
        lemma_counter(before);
        lemma_counter(history);
    }
}

/// Looking up a question gives the text most recently stored under its id,
/// or nothing if that question was deleted since or the id was never
/// handed out.
pub proof fn lemma_lookup_gives_last_stored(history: Seq<Action>, id: u32)
    requires
        adds_in(history) <= u32::MAX,
    ensures
        question_text(run(history), id) == last_stored(history, id),
    decreases history.len(),
{
    if history.len() > 0 {
        let before = history.drop_last();
        lemma_lookup_gives_last_stored(before, id);
        lemma_counter(before);
    }
}

/// An id that the counter has not reached holds no question.
pub proof fn lemma_unassigned_absent(s: QuizState, id: u32)
    requires
        state_wf(s),
        id >= s.next_id,
    ensures
        question_text(s, id) == None::<Seq<char>>,
{
}

/// A question just added can be looked up under the id it got.
pub proof fn lemma_added_is_found(s: QuizState, text: Seq<char>, correct_answer: Seq<char>)
    requires
        state_wf(s),
        s.next_id < u32::MAX,
    ensures
        question_text(added(s, text, correct_answer), s.next_id as u32) == Some(text),
        state_wf(added(s, text, correct_answer)),
{
}

/// Deleting a stored question succeeds, deleting it again does not, and a
/// deletion touches neither the counter nor any other question. Since the
/// counter has passed the id, no later addition stores under it again.
pub proof fn lemma_delete_once(s: QuizState, id: u32, other: u32)
    requires
        state_wf(s),
        s.questions.contains_key(id),
    ensures
        !deleted(s, id).questions.contains_key(id),
        deleted(s, id).next_id == s.next_id,
        other != id ==> question_text(deleted(s, id), other) == question_text(s, other),
        forall|text: Seq<char>, correct_answer: Seq<char>|
            !(#[trigger] added(deleted(s, id), text, correct_answer)).questions.contains_key(id),
{
    assert forall|text: Seq<char>, correct_answer: Seq<char>|
        !(#[trigger] added(deleted(s, id), text, correct_answer)).questions.contains_key(id) by {
        assert(id < s.next_id);
    }
}

/// A correct answer raises the caller's balance by exactly the reward, and
/// any other submission leaves it as it was. The first holds where the
/// raised balance still fits in 32 bits.
pub proof fn lemma_reward(s: QuizState, caller: Seq<u8>, id: u32, answer: Seq<char>)
    ensures
        answer_matches(s, id, answer) && balance_of(s, caller) + REWARD <= u32::MAX
            ==> balance_of(submitted(s, caller, id, answer), caller) == balance_of(s, caller)
            + REWARD,
        !answer_matches(s, id, answer) ==> balance_of(submitted(s, caller, id, answer), caller)
            == balance_of(s, caller),
{
}

/// A caller that never gave a correct answer has balance 0.
pub proof fn lemma_unrewarded_balance_zero(history: Seq<Action>, caller: Seq<u8>)
    requires
        !ever_rewarded(history, caller),
    ensures
        balance_of(run(history), caller) == 0,
    decreases history.len(),
{
    if history.len() > 0 {
        lemma_unrewarded_balance_zero(history.drop_last(), caller);
    }
}

/// A caller's balance is the reward times the number of correct answers
/// they gave, held at `u32::MAX` once it would pass it.
pub proof fn lemma_balance_counts_rewards(history: Seq<Action>, caller: Seq<u8>)
    ensures
        balance_of(run(history), caller) == if REWARD * rewards_in(history, caller) <= u32::MAX {
            REWARD * rewards_in(history, caller)
        } else {
            u32::MAX as int
        },
    decreases history.len(),
{
    if history.len() > 0 {
        lemma_balance_counts_rewards(history.drop_last(), caller);
    }
}

} // verus!
