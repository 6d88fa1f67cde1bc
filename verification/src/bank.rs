//! The question bank: an ordered list of named question sets, read-only at
//! game time. Questions are handed out as copies, so play never touches the bank.

use vstd::prelude::*;
use crate::question::{Question, QuestionView};

verus! {

/// Mathematical view of a named question set.
#[verifier::ext_equal]
pub struct QuestionSetView {
    pub name: Seq<char>,
    pub questions: Seq<QuestionView>,
}

/// Mathematical view of the bank.
#[verifier::ext_equal]
pub struct BankView {
    pub sets: Seq<QuestionSetView>,
}

impl QuestionSetView {
    /// A set with a name and no questions.
    pub open spec fn empty(name: Seq<char>) -> QuestionSetView {
        QuestionSetView { name, questions: Seq::empty() }
    }

    /// The set with one more question at its end.
    pub open spec fn with_question(self, question: QuestionView) -> QuestionSetView {
        QuestionSetView { questions: self.questions.push(question), ..self }
    }
}

impl BankView {
    /// The bank without any set.
    pub open spec fn empty() -> BankView {
        BankView { sets: Seq::empty() }
    }

    /// The bank with one more set at its end.
    pub open spec fn with_set(self, set: QuestionSetView) -> BankView {
        BankView { sets: self.sets.push(set) }
    }

    /// Name of set `index`; empty when there is no such set.
    pub open spec fn set_name(self, index: int) -> Seq<char> {
        if 0 <= index < self.sets.len() {
            self.sets[index].name
        } else {
            Seq::empty()
        }
    }

    /// The set that index `set_index` selects: an index beyond the last set
    /// wraps round, modulo the number of sets. An empty bank has no set to
    /// select, and the index stays as it was given.
    pub open spec fn selected_set(self, set_index: nat) -> nat {
        if self.sets.len() > 0 {
            set_index % self.sets.len()
        } else {
            set_index
        }
    }

    /// The question that a lookup yields. Both indices wrap: the set index
    /// modulo the number of sets, the question index modulo the number of
    /// questions of that set. An empty bank and an empty set yield the
    /// placeholder question.
    pub open spec fn question_at(self, set_index: nat, question_index: nat) -> QuestionView {
        if self.sets.len() == 0 {
            QuestionView::placeholder()
        } else {
            let set = self.sets[(set_index % self.sets.len()) as int];
            if set.questions.len() == 0 {
                QuestionView::placeholder()
            } else {
                set.questions[(question_index % set.questions.len()) as int]
            }
        }
    }
}

/// A named, ordered list of questions.
pub struct QuestionSet {
    name: String,
    questions: Vec<Question>,
}

/// The ordered list of question sets.
pub struct QuestionBank {
    sets: Vec<QuestionSet>,
}

impl View for QuestionSet {
    type V = QuestionSetView;

    closed spec fn view(&self) -> QuestionSetView {
        QuestionSetView {
            name: self.name@,
            questions: Seq::new(self.questions@.len(), |i: int| self.questions@[i]@),
        }
    }
}

impl View for QuestionBank {
    type V = BankView;

    closed spec fn view(&self) -> BankView {
        BankView { sets: Seq::new(self.sets@.len(), |i: int| self.sets@[i]@) }
    }
}

impl QuestionSet {
    /// Builds a set with a name and no questions.
    pub fn new(name: String) -> (set: QuestionSet)
        ensures
            set@ == QuestionSetView::empty(name@),
    {
        let set = QuestionSet { name, questions: Vec::new() };
        assert(set@ =~~= QuestionSetView::empty(name@));
        set
    }

    /// Appends a question to the set.
    pub fn push(&mut self, question: Question)
        ensures
            final(self)@ == old(self)@.with_question(question@),
    {
        self.questions.push(question);
        assert(self@ =~~= old(self)@.with_question(question@));
    }

    /// Returns a copy of the name.
    pub fn name(&self) -> (name: String)
        ensures
            name@ == self@.name,
    {
        self.name.clone()
    }

    /// Returns the number of questions.
    pub fn len(&self) -> (len: usize)
        ensures
            len == self@.questions.len(),
    {
        self.questions.len()
    }
}

impl QuestionBank {
    /// Builds a bank without any set.
    pub fn new() -> (bank: QuestionBank)
        ensures
            bank@ == BankView::empty(),
    {
        let bank = QuestionBank { sets: Vec::new() };
        assert(bank@ =~~= BankView::empty());
        bank
    }

    /// Appends a set to the bank.
    pub fn push(&mut self, set: QuestionSet)
        ensures
            final(self)@ == old(self)@.with_set(set@),
    {
        self.sets.push(set);
        assert(self@ =~~= old(self)@.with_set(set@));
    }

    /// Returns the number of sets.
    pub fn set_count(&self) -> (count: usize)
        ensures
            count == self@.sets.len(),
    {
        self.sets.len()
    }

    /// Returns the name of set `index`, or the empty string when there is no such set.
    pub fn set_name(&self, index: usize) -> (name: String)
        ensures
            name@ == self@.set_name(index as int),
    {
        if index < self.sets.len() {
            self.sets[index].name()
        } else {
            String::new()
        }
    }

    /// Returns the set that index `set_index` selects: the index itself when
    /// it names a set, wrapped round the number of sets when it lies beyond
    /// the last one. On an empty bank the index comes back as given.
    pub fn selected_set(&self, set_index: usize) -> (selected: usize)
        ensures
            selected == self@.selected_set(set_index as nat),
    {
        if self.sets.len() > 0 {
            set_index % self.sets.len()
        } else {
            set_index
        }
    }

    /// Returns a copy of the question that the two indices select, each
    /// wrapping round. An empty bank and an empty set give the placeholder question.
    pub fn question_at(&self, set_index: usize, question_index: usize) -> (question: Question)
        ensures
            question@ == self@.question_at(set_index as nat, question_index as nat),
    {
        if self.sets.len() == 0 {
            return Question::placeholder();
        }
        let set = &self.sets[set_index % self.sets.len()];
        if set.questions.len() == 0 {
            return Question::placeholder();
        }
        set.questions[question_index % set.questions.len()].clone()
    }
}

} // verus!
