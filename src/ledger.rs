//! The quiz ledger: its abstract state, the effect of each operation on
//! that state, and the executable ledger that follows it.

use std::collections::HashMap;
use vstd::prelude::*;

use crate::account::{AccountBook, AccountId};

verus! {

/// Tokens credited for each correct answer.
pub const REWARD: u32 = 10;

/// The ledger's abstract state.
pub struct QuizState {
    /// Each stored question's text and correct answer, by id.
    pub questions: Map<u32, (Seq<char>, Seq<char>)>,
    /// For each caller, whether their most recent answer was correct.
    pub answers: Map<Seq<u8>, bool>,
    /// Token balances of the callers that have one.
    pub balances: Map<Seq<u8>, u32>,
    /// The id that the next question will get.
    pub next_id: nat,
}

/// A fresh ledger: nothing stored, ids start at 0.
pub open spec fn initial_state() -> QuizState {
    QuizState {
        questions: Map::empty(),
        answers: Map::empty(),
        balances: Map::empty(),
        next_id: 0,
    }
}

/// The counter fits its 32 bits and every stored id was handed out by it.
pub open spec fn state_wf(s: QuizState) -> bool {
    &&& s.next_id <= u32::MAX
    &&& forall|id: u32| #[trigger] s.questions.contains_key(id) ==> id < s.next_id
}

/// The state after adding a question: it is stored under the counter's
/// value, and the counter moves on by one.
pub open spec fn added(s: QuizState, text: Seq<char>, correct_answer: Seq<char>) -> QuizState {
    QuizState {
        questions: s.questions.insert(s.next_id as u32, (text, correct_answer)),
        next_id: s.next_id + 1,
        ..s
    }
}

/// Whether question `id` is stored and `answer` is exactly its correct answer.
pub open spec fn answer_matches(s: QuizState, id: u32, answer: Seq<char>) -> bool {
    s.questions.contains_key(id) && s.questions[id].1 == answer
}

/// A caller's balance; 0 for a caller without one.
pub open spec fn balance_of(s: QuizState, caller: Seq<u8>) -> u32 {
    if s.balances.contains_key(caller) {
        s.balances[caller]
    } else {
        0
    }
}

/// A balance after one reward, held at `u32::MAX` rather than wrapping.
pub open spec fn rewarded(b: u32) -> u32 {
    if b + REWARD <= u32::MAX {
        (b + REWARD) as u32
    } else {
        u32::MAX
    }
}

/// The state after `caller` answers question `id`: nothing changes for an
/// unknown id; otherwise the caller's last-answer record is overwritten and
/// a correct answer earns the reward.
pub open spec fn submitted(s: QuizState, caller: Seq<u8>, id: u32, answer: Seq<char>) -> QuizState {
    if !s.questions.contains_key(id) {
        s
    } else {
        let ok = answer_matches(s, id, answer);
        QuizState {
            answers: s.answers.insert(caller, ok),
            balances: if ok {
                s.balances.insert(caller, rewarded(balance_of(s, caller)))
            } else {
                s.balances
            },
            ..s
        }
    }
}

/// The state after deleting question `id`: only that entry goes.
pub open spec fn deleted(s: QuizState, id: u32) -> QuizState {
    QuizState { questions: s.questions.remove(id), ..s }
}

/// The text of question `id`, if it is stored.
pub open spec fn question_text(s: QuizState, id: u32) -> Option<Seq<char>> {
    if s.questions.contains_key(id) {
        Some(s.questions[id].0)
    } else {
        None
    }
}

/// A question: the text shown to callers and the answer that earns the reward.
pub struct Question {
    text: String,
    correct_answer: String,
}

impl View for Question {
    type V = (Seq<char>, Seq<char>);

    closed spec fn view(&self) -> (Seq<char>, Seq<char>) {
        (self.text@, self.correct_answer@)
    }
}

/// The ledger: questions by id, each caller's last-answer record and
/// balance, and the counter that hands out question ids.
pub struct VaraQuizContract {
    correct_answers: AccountBook<bool>,
    token_balance: AccountBook<u32>,
    questions: HashMap<u32, Question>,
    next_question_id: u32,
}

impl View for VaraQuizContract {
    type V = QuizState;

    closed spec fn view(&self) -> QuizState {
        QuizState {
            questions: self.questions@.map_values(|q: Question| q@),
            answers: self.correct_answers@,
            balances: self.token_balance@,
            next_id: self.next_question_id as nat,
        }
    }
}

impl VaraQuizContract {
    /// The ledger's representation is consistent and its state well formed.
    pub closed spec fn wf(&self) -> bool {
        &&& self.correct_answers.wf()
        &&& self.token_balance.wf()
        &&& state_wf(self@)
    }

    /// A fresh ledger.
    pub fn new() -> (r: VaraQuizContract)
        ensures
            r.wf(),
            r@ == initial_state(),
    {
        let r = VaraQuizContract {
            correct_answers: AccountBook::new(),
            token_balance: AccountBook::new(),
            questions: HashMap::new(),
            next_question_id: 0,
        };
        assert(r@.questions =~= Map::empty());
        r
    }

    /// Stores a question under the next id and advances the counter.
    pub fn add_question(&mut self, text: String, correct_answer: String)
        requires
            old(self).wf(),
            old(self)@.next_id < u32::MAX,
        ensures
            final(self).wf(),
            final(self)@ == added(old(self)@, text@, correct_answer@),
    {
        let question = Question { text, correct_answer };
        let ghost q = question@;
        self.questions.insert(self.next_question_id, question);
        self.next_question_id = self.next_question_id + 1;
        assert(self@.questions =~= old(self)@.questions.insert(old(self).next_question_id, q));
    }

    /// Answers question `question_id` as `caller`. Returns whether the
    /// question is stored and `answer` equals its correct answer exactly.
    /// For a stored question the caller's last-answer record is overwritten,
    /// and a correct answer credits the reward to the caller's balance.
    pub fn submit_answer(&mut self, caller: &AccountId, question_id: u32, answer: String) -> (r:
        bool)
        requires
            old(self).wf(),
        ensures
            final(self).wf(),
            r == answer_matches(old(self)@, question_id, answer@),
            final(self)@ == submitted(old(self)@, caller@, question_id, answer@),
    {
        let is_correct = match self.questions.get(&question_id) {
            Some(question) => answer == question.correct_answer,
            None => {
                return false;
            },
        };
        self.correct_answers.set(caller, is_correct);
        if is_correct {
            let balance = match self.token_balance.get(caller) {
                Some(b) => b,
                None => 0,
            };
            let credited = if balance <= u32::MAX - REWARD {
                balance + REWARD
            } else {
                u32::MAX
            };
            self.token_balance.set(caller, credited);
        }
        assert(self@.questions == old(self)@.questions);
        is_correct
    }

    /// The caller's token balance; 0 for a caller that has none.
    pub fn get_balance(&self, caller: &AccountId) -> (r: u32)
        requires
            self.wf(),
        ensures
            r == balance_of(self@, caller@),
    {
        match self.token_balance.get(caller) {
            Some(b) => b,
            None => 0,
        }
    }

    /// The text of question `question_id`, if it is stored. The correct
    /// answer is never handed out.
    pub fn get_question(&self, question_id: u32) -> (r: Option<String>)
        requires
            self.wf(),
        ensures
            match r {
                Some(t) => question_text(self@, question_id) == Some(t@),
                None => question_text(self@, question_id) == None::<Seq<char>>,
            },
    {
        match self.questions.get(&question_id) {
            Some(question) => Some(question.text.clone()),
            None => None,
        }
    }

    /// Removes question `question_id`. Returns whether it was stored.
    pub fn delete_question(&mut self, question_id: u32) -> (r: bool)
        requires
            old(self).wf(),
        ensures
            final(self).wf(),
            r == old(self)@.questions.contains_key(question_id),
            final(self)@ == deleted(old(self)@, question_id),
    {
        let removed = self.questions.remove(&question_id);
        assert(self@.questions =~= old(self)@.questions.remove(question_id));
        removed.is_some()
    }

    /// The id that the next added question will get.
    pub fn next_question_id(&self) -> (r: u32)
        ensures
            r == self@.next_id,
    {
        self.next_question_id
    }
}

} // verus!
