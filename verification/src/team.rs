//! The team model: a name, the points of the whole session, the streak of the
//! current question, and whether the team may still answer.

use vstd::prelude::*;
use crate::question::floor_sub;

verus! {

/// Mathematical view of a team.
#[verifier::ext_equal]
pub struct TeamView {
    pub name: Seq<char>,
    /// Points over the whole session.
    pub score: nat,
    /// Points earned in a row on the current question.
    pub round_score: nat,
    /// Whether the team may still answer the current question.
    pub active: bool,
}

impl TeamView {
    /// A team at the start of a session.
    pub open spec fn fresh(name: Seq<char>) -> TeamView {
        TeamView { name, score: 0, round_score: 0, active: true }
    }

    /// The team after one of its answers was judged. A correct answer adds a
    /// point to the score and to the streak. A wrong one takes the whole
    /// streak back from the score (floored at zero), clears the streak and
    /// puts the team out.
    pub open spec fn scored(self, correct: bool) -> TeamView {
        if correct {
            TeamView { score: self.score + 1, round_score: self.round_score + 1, ..self }
        } else {
            TeamView {
                score: floor_sub(self.score, self.round_score),
                round_score: 0,
                active: false,
                ..self
            }
        }
    }

    /// The team at the start of a new question: active, with no streak.
    pub open spec fn reactivated(self) -> TeamView {
        TeamView { round_score: 0, active: true, ..self }
    }

    /// The team after it gave up the current question.
    pub open spec fn retired(self) -> TeamView {
        TeamView { active: false, ..self }
    }

    /// The counters can take one more point.
    pub open spec fn has_room(self) -> bool {
        self.score < usize::MAX && self.round_score < usize::MAX
    }
}

/// One of the two teams.
pub struct Team {
    name: String,
    score: usize,
    round_score: usize,
    active: bool,
}

impl View for Team {
    type V = TeamView;

    closed spec fn view(&self) -> TeamView {
        TeamView {
            name: self.name@,
            score: self.score as nat,
            round_score: self.round_score as nat,
            active: self.active,
        }
    }
}

impl Team {
    /// Builds a team at the start of a session.
    pub fn new(name: String) -> (team: Team)
        ensures
            team@ == TeamView::fresh(name@),
    {
        Team { name, score: 0, round_score: 0, active: true }
    }

    /// Returns a copy of the name.
    pub fn name(&self) -> (name: String)
        ensures
            name@ == self@.name,
    {
        self.name.clone()
    }

    /// Returns the points over the whole session.
    pub fn score(&self) -> (score: usize)
        ensures
            score == self@.score,
    {
        self.score
    }

    /// Returns the streak on the current question.
    pub fn round_score(&self) -> (round_score: usize)
        ensures
            round_score == self@.round_score,
    {
        self.round_score
    }

    /// Returns whether the team may still answer the current question.
    pub fn is_active(&self) -> (active: bool)
        ensures
            active == self@.active,
    {
        self.active
    }

    /// Returns whether the counters can take one more point.
    pub fn has_room(&self) -> (room: bool)
        ensures
            room == self@.has_room(),
    {
        self.score < usize::MAX && self.round_score < usize::MAX
    }

    /// Applies the judgement of one answer of this team.
    pub fn apply_score(&mut self, correct: bool)
        requires
            correct ==> old(self)@.has_room(),
        ensures
            final(self)@ == old(self)@.scored(correct),
    {
        if correct {
            self.score += 1;
            self.round_score += 1;
        } else {
            self.score = self.score.saturating_sub(self.round_score);
            self.round_score = 0;
            self.active = false;
        }
    }

    /// Makes the team active again and clears its streak.
    pub fn reactivate(&mut self)
        ensures
            final(self)@ == old(self)@.reactivated(),
    {
        self.active = true;
        self.round_score = 0;
    }

    /// Puts the team out of the current question. The scores stay as they are.
    pub fn retire(&mut self)
        ensures
            final(self)@ == old(self)@.retired(),
    {
        self.active = false;
    }
}

} // verus!
