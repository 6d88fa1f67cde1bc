//! The game session: one question in play, two teams and the turn pointer.
//! All scoring and turn-rotation rules live here.
//!
//! The rules are written once, as functions on [`GameView`]; every executable
//! operation states that it moves the session exactly as those functions say.

use vstd::prelude::*;
use crate::question::{Question, QuestionType, QuestionView, Verdict, MAX_POSITION, MIN_POSITION};
use crate::team::{Team, TeamView};

verus! {

/// Length of the cycle in which a new round moves the question cursor.
pub const ROUND_CYCLE: usize = 3;

/// Index of the opponent of team `idx`.
pub open spec fn other_team(idx: int) -> int {
    if idx == 0 {
        1
    } else {
        0
    }
}

/// Name of the first team of a new session.
pub open spec fn first_team_name() -> Seq<char> {
    "Team A"@
}

/// Name of the second team of a new session.
pub open spec fn second_team_name() -> Seq<char> {
    "Team B"@
}

/// One answer command, as the presentation layer submits it.
pub enum Answer {
    /// Classify option `.0` as yes (`.1` true) or no.
    YesNo(int, bool),
    /// Give ranking item `.0` the position `.1`; the item is judged at once.
    Position(int, int),
    /// Have the whole ranking judged as one answer.
    Ranking,
    /// Record the presenter's judgement `.1` of reveal item `.0`.
    Reveal(int, bool),
}

/// Mathematical view of a game session.
#[verifier::ext_equal]
pub struct GameView {
    pub question: QuestionView,
    pub teams: Seq<TeamView>,
    /// Index of the team whose turn it is.
    pub current_team: int,
    /// Position of the question in its sequence.
    pub question_index: nat,
}

impl GameView {
    /// A new session on `question`: two fresh teams, the first one to move.
    pub open spec fn fresh(question: QuestionView) -> GameView {
        GameView {
            question,
            teams: seq![TeamView::fresh(first_team_name()), TeamView::fresh(second_team_name())],
            current_team: 0,
            question_index: 0,
        }
    }

    /// There are two teams and the turn pointer names one of them.
    pub open spec fn wf(self) -> bool {
        self.teams.len() == 2 && 0 <= self.current_team < 2
    }

    /// The team whose turn it is.
    pub open spec fn current(self) -> TeamView {
        self.teams[self.current_team]
    }

    /// The team whose turn it is not.
    pub open spec fn opponent(self) -> TeamView {
        self.teams[other_team(self.current_team)]
    }

    /// Both teams are out of the current question.
    pub open spec fn both_out(self) -> bool {
        !self.teams[0].active && !self.teams[1].active
    }

    /// The turn pointer names an active team whenever at least one team is active.
    pub open spec fn turn_is_sound(self) -> bool {
        self.current().active || self.both_out()
    }

    /// Turn rotation: the turn passes to the opponent unless the opponent is out.
    pub open spec fn rotated(self) -> GameView {
        if self.opponent().active {
            GameView { current_team: other_team(self.current_team), ..self }
        } else {
            self
        }
    }

    /// The session after a recorded answer of the current team was judged:
    /// the scoring rule is applied to the question and to the team, the
    /// judgement is counted, and the turn rotates.
    pub open spec fn judged(self, correct: bool) -> GameView {
        GameView {
            question: self.question.scored(correct, self.current().round_score),
            teams: self.teams.update(self.current_team, self.current().scored(correct)),
            ..self
        }.rotated()
    }

    /// The counters that a judgement raises can take it: the count of
    /// judgements always, the three scores when the answer is right.
    pub open spec fn has_room_for(self, correct: bool) -> bool {
        &&& self.question.answered_count < usize::MAX
        &&& correct ==> self.question.score < usize::MAX && self.current().has_room()
    }

    /// The counters can take a judgement of either kind.
    pub open spec fn has_room(self) -> bool {
        self.has_room_for(true)
    }

    /// Whether answer `a` will be judged: it is neither rejected nor the
    /// replay of an earlier judgement.
    pub open spec fn judges(self, a: Answer) -> bool {
        match a {
            Answer::YesNo(index, _) => {
                &&& self.question.has_option(index)
                &&& self.current().active
                &&& !self.question.options()[index].verdict.is_answered()
            },
            Answer::Position(index, position) => {
                &&& self.question.has_ranking_item(index)
                &&& MIN_POSITION <= position <= MAX_POSITION
                &&& self.current().active
                &&& self.question.ranking_items()[index].user_position is None
            },
            Answer::Ranking => self.current().active && self.question.all_positioned(),
            Answer::Reveal(index, _) => {
                &&& self.question.has_reveal_item(index)
                &&& self.current().active
                &&& !self.question.reveal_items()[index].verdict.is_answered()
            },
        }
    }

    /// Whether answer `a` repeats an item that was judged before, so that the
    /// stored verdict is given again. Only yes/no options and reveal items
    /// are replayed.
    pub open spec fn replays(self, a: Answer) -> bool {
        match a {
            Answer::YesNo(index, _) => {
                &&& self.question.has_option(index)
                &&& self.current().active
                &&& self.question.options()[index].verdict.is_answered()
            },
            Answer::Reveal(index, _) => {
                &&& self.question.has_reveal_item(index)
                &&& self.current().active
                &&& self.question.reveal_items()[index].verdict.is_answered()
            },
            _ => false,
        }
    }

    /// The verdict stored on the item that `a` names.
    pub open spec fn stored_verdict(self, a: Answer) -> Verdict {
        match a {
            Answer::YesNo(index, _) => self.question.option_verdict(index),
            Answer::Reveal(index, _) => self.question.reveal_verdict(index),
            _ => Verdict::Unanswered,
        }
    }

    /// Whether answer `a` is right, for an answer that is judged.
    ///
    /// An option is classified right when the submitted answer is the
    /// authored one; a position is right when it is the item's correct
    /// position; a whole ranking is right when every item has its correct
    /// position; a reveal is right when the presenter says so.
    pub open spec fn is_right(self, a: Answer) -> bool {
        match a {
            Answer::YesNo(index, yes) => yes == self.question.options()[index].is_yes,
            Answer::Position(index, position) => position
                == self.question.ranking_items()[index].correct_position,
            Answer::Ranking => self.question.ranking_correct(),
            Answer::Reveal(_, correct) => correct,
        }
    }

    /// The question with answer `a` recorded on the item that it names.
    pub open spec fn recorded(self, a: Answer) -> QuestionView {
        match a {
            Answer::YesNo(index, _) => self.question.with_option_verdict(
                index,
                Verdict::of(self.is_right(a)),
            ),
            Answer::Position(index, position) => self.question.with_position(index, position as nat),
            Answer::Ranking => self.question,
            Answer::Reveal(index, correct) => self.question.with_reveal_verdict(
                index,
                Verdict::of(correct),
            ),
        }
    }

    /// The counters can take answer `a`, if it is going to be judged.
    pub open spec fn can_take(self, a: Answer) -> bool {
        self.judges(a) ==> self.has_room_for(self.is_right(a))
    }

    /// The session after answer `a`. An answer that is judged is recorded and
    /// scored; any other answer changes nothing.
    pub open spec fn after(self, a: Answer) -> GameView {
        if self.judges(a) {
            GameView { question: self.recorded(a), ..self }.judged(self.is_right(a))
        } else {
            self
        }
    }

    /// What the engine replies to answer `a`: whether it is right when it is
    /// judged, the stored verdict when it is a replay, `false` when it is rejected.
    pub open spec fn reply(self, a: Answer) -> bool {
        if self.judges(a) {
            self.is_right(a)
        } else {
            self.replays(a) && self.stored_verdict(a).was_correct()
        }
    }

    /// The session after the answers of `answers`, taken in order.
    pub open spec fn after_all(self, answers: Seq<Answer>) -> GameView
        decreases answers.len(),
    {
        if answers.len() == 0 {
            self
        } else {
            self.after(answers.first()).after_all(answers.drop_first())
        }
    }

    /// Every answer of `answers`, taken in order, is judged and found right.
    pub open spec fn all_judged_right(self, answers: Seq<Answer>) -> bool
        decreases answers.len(),
    {
        answers.len() == 0 || {
            &&& self.judges(answers.first())
            &&& self.is_right(answers.first())
            &&& self.after(answers.first()).all_judged_right(answers.drop_first())
        }
    }

    /// Number of answers of `answers`, taken in order, that are judged while
    /// it is the turn of team `t`.
    pub open spec fn judged_for(self, answers: Seq<Answer>, t: int) -> nat
        decreases answers.len(),
    {
        if answers.len() == 0 {
            0
        } else {
            self.after(answers.first()).judged_for(answers.drop_first(), t) + if self.judges(
                answers.first(),
            ) && self.current_team == t {
                1nat
            } else {
                0nat
            }
        }
    }

    /// Every answer of `answers`, taken in order, that is judged while it is
    /// the turn of team `t` is found right.
    pub open spec fn all_right_for(self, answers: Seq<Answer>, t: int) -> bool
        decreases answers.len(),
    {
        answers.len() == 0 || {
            &&& self.judges(answers.first()) && self.current_team == t ==> self.is_right(
                answers.first(),
            )
            &&& self.after(answers.first()).all_right_for(answers.drop_first(), t)
        }
    }

    /// The question's score is the sum of the two streaks.
    pub open spec fn score_matches_streaks(self) -> bool {
        self.question.score == self.teams[0].round_score + self.teams[1].round_score
    }

    /// The session after the current team gave up the question: the team is
    /// out, no score changes, and the turn passes to the opponent if it is active.
    pub open spec fn resigned(self) -> GameView {
        GameView {
            teams: self.teams.update(self.current_team, self.current().retired()),
            ..self
        }.rotated()
    }

    /// Completion rule: both teams are out, or as many judgements have been
    /// counted as a yes/no or reveal question has items. A ranking question
    /// ends only when both teams are out.
    pub open spec fn is_completed(self) -> bool {
        ||| self.both_out()
        ||| match self.question.kind() {
            QuestionType::YesNo => self.question.answered_count >= self.question.options().len(),
            QuestionType::Ranking => false,
            QuestionType::Reveal => self.question.answered_count
                >= self.question.reveal_items().len(),
        }
    }

    /// Both teams active again with no streak, the first team to move.
    pub open spec fn reactivated(self) -> GameView {
        GameView {
            teams: seq![self.teams[0].reactivated(), self.teams[1].reactivated()],
            current_team: 0,
            ..self
        }
    }

    /// The cursor position that the next round takes: one further, in a
    /// cycle of fixed length.
    pub open spec fn next_round_index(self) -> nat {
        ((self.question_index + 1) % (ROUND_CYCLE as nat)) as nat
    }

    /// The session at the start of a round on `question`, taken from cursor
    /// position `question_index`.
    pub open spec fn round_started(self, question: QuestionView, question_index: nat) -> GameView {
        GameView { question, question_index, ..self }.reactivated()
    }

    /// The session after the cursor moved on by one without loading a question.
    pub open spec fn cursor_advanced(self) -> GameView {
        GameView { question_index: self.question_index + 1, ..self }.reactivated()
    }

    /// The session with its question replaced; teams, turn and cursor stay.
    pub open spec fn with_question(self, question: QuestionView) -> GameView {
        GameView { question, ..self }
    }

    /// Name of team `idx`; empty when there is no such team.
    pub open spec fn team_name(self, idx: int) -> Seq<char> {
        if 0 <= idx < 2 {
            self.teams[idx].name
        } else {
            Seq::empty()
        }
    }

    /// Score of team `idx`; 0 when there is no such team.
    pub open spec fn team_score(self, idx: int) -> nat {
        if 0 <= idx < 2 {
            self.teams[idx].score
        } else {
            0
        }
    }

    /// Streak of team `idx`; 0 when there is no such team.
    pub open spec fn team_round_score(self, idx: int) -> nat {
        if 0 <= idx < 2 {
            self.teams[idx].round_score
        } else {
            0
        }
    }

    /// Whether team `idx` is active; `false` when there is no such team.
    pub open spec fn team_active(self, idx: int) -> bool {
        0 <= idx < 2 && self.teams[idx].active
    }
}

/// One of the two seats at the table.
#[derive(Clone, Copy, PartialEq, Eq, Debug, Structural)]
pub enum Side {
    First,
    Second,
}

impl Side {
    /// The team index of a seat: 0 for the first, 1 for the second.
    pub open spec fn spec_index(self) -> int {
        match self {
            Side::First => 0,
            Side::Second => 1,
        }
    }

    /// Returns the team index of this seat.
    pub fn index(self) -> (idx: usize)
        ensures
            idx == self.spec_index(),
    {
        match self {
            Side::First => 0,
            Side::Second => 1,
        }
    }

    /// Returns the opposite seat.
    pub fn other(self) -> (side: Side)
        ensures
            side.spec_index() == other_team(self.spec_index()),
    {
        match self {
            Side::First => Side::Second,
            Side::Second => Side::First,
        }
    }
}

/// A game session: one question in play, two teams, the turn pointer and the
/// question cursor.
pub struct Game {
    question: Question,
    teams: [Team; 2],
    turn: Side,
    question_index: usize,
}

impl View for Game {
    type V = GameView;

    closed spec fn view(&self) -> GameView {
        GameView {
            question: self.question@,
            teams: Seq::new(2, |i: int| self.teams@[i]@),
            current_team: self.turn.spec_index(),
            question_index: self.question_index as nat,
        }
    }
}

impl Game {
    /// Starts a session on `question` with two fresh teams.
    pub fn new(question: Question) -> (game: Game)
        ensures
            game@ == GameView::fresh(question@),
            game@.wf(),
    {
        let game = Game {
            question,
            teams: [Team::new("Team A".to_owned()), Team::new("Team B".to_owned())],
            turn: Side::First,
            question_index: 0,
        };
        assert(game@ =~~= GameView::fresh(question@));
        game
    }

    /// Returns whether the counters can take a judgement of either kind.
    pub fn has_room(&self) -> (room: bool)
        ensures
            room == self@.has_room(),
    {
        self.question.answered_count() < usize::MAX && self.question.score() < usize::MAX
            && self.teams[self.turn.index()].has_room()
    }

    /// Applies the scoring rule and the turn rotation rule to an answer of
    /// the current team that has been recorded.
    fn judge(&mut self, correct: bool)
        requires
            old(self)@.has_room_for(correct),
        ensures
            final(self)@ == old(self)@.judged(correct),
    {
        let current: usize = self.turn.index();
        let streak: usize = self.teams[current].round_score();
        self.question.apply_score(correct, streak);
        self.teams[current].apply_score(correct);
        self.pass_turn();
        assert(self@ =~~= old(self)@.judged(correct));
    }

    /// Turn rotation: passes the turn to the opponent unless the opponent is out.
    fn pass_turn(&mut self)
        ensures
            final(self)@ == old(self)@.rotated(),
    {
        let other = self.turn.other();
        if self.teams[other.index()].is_active() {
            self.turn = other;
        }
        assert(self@ =~~= old(self)@.rotated());
    }

    /// Judges the classification of option `index` as yes or no, and returns
    /// whether it was right.
    ///
    /// The answer is rejected (`false`, nothing changes) when there is no
    /// such option or the current team is out. An option that was judged
    /// before gets its stored verdict again and nothing changes.
    pub fn answer(&mut self, index: usize, yes: bool) -> (correct: bool)
        requires
            old(self)@.can_take(Answer::YesNo(index as int, yes)),
        ensures
            final(self)@ == old(self)@.after(Answer::YesNo(index as int, yes)),
            correct == old(self)@.reply(Answer::YesNo(index as int, yes)),
            final(self)@.wf(),
    {
        if index >= self.question.options_len() {
            return false;
        }
        if !self.teams[self.turn.index()].is_active() {
            return false;
        }
        let stored = self.question.option_verdict(index);
        if stored.is_answered() {
            return stored.was_correct();
        }
        let correct = self.question.option_is_yes(index) == yes;
        self.question.record_option_verdict(index, Verdict::judged(correct));
        self.judge(correct);
        correct
    }

    /// Gives ranking item `index` the position `position`, judges that one
    /// item at once, and returns whether the position was right.
    ///
    /// The command is rejected (`false`, nothing changes) when there is no
    /// such item, the position is outside the allowed range, the current team
    /// is out, or the item has a position already.
    pub fn set_ranking_position(&mut self, index: usize, position: usize) -> (correct: bool)
        requires
            old(self)@.can_take(Answer::Position(index as int, position as int)),
        ensures
            final(self)@ == old(self)@.after(Answer::Position(index as int, position as int)),
            correct == old(self)@.reply(Answer::Position(index as int, position as int)),
            final(self)@.wf(),
    {
        if index >= self.question.ranking_items_len() || position < MIN_POSITION || position
            > MAX_POSITION {
            return false;
        }
        if !self.teams[self.turn.index()].is_active() {
            return false;
        }
        if self.question.ranking_user_position(index).is_some() {
            return false;
        }
        let correct = position == self.question.ranking_correct_position(index);
        self.question.record_position(index, position);
        self.judge(correct);
        correct
    }

    /// Records the presenter's judgement of reveal item `index` and returns it.
    ///
    /// The command is rejected (`false`, nothing changes) when there is no
    /// such item or the current team is out. An item that was judged before
    /// gets its stored verdict again and nothing changes.
    pub fn mark_reveal(&mut self, index: usize, correct: bool) -> (verdict: bool)
        requires
            old(self)@.can_take(Answer::Reveal(index as int, correct)),
        ensures
            final(self)@ == old(self)@.after(Answer::Reveal(index as int, correct)),
            verdict == old(self)@.reply(Answer::Reveal(index as int, correct)),
            final(self)@.wf(),
    {
        if index >= self.question.reveal_items_len() {
            return false;
        }
        if !self.teams[self.turn.index()].is_active() {
            return false;
        }
        let stored = self.question.reveal_verdict(index);
        if stored.is_answered() {
            return stored.was_correct();
        }
        self.question.record_reveal_verdict(index, Verdict::judged(correct));
        self.judge(correct);
        correct
    }

    /// Judges the whole ranking as one answer and returns whether every item
    /// has its correct position.
    ///
    /// The command is rejected (`false`, nothing changes) when the current
    /// team is out or some item has no position yet.
    pub fn submit_ranking(&mut self) -> (correct: bool)
        requires
            old(self)@.can_take(Answer::Ranking),
        ensures
            final(self)@ == old(self)@.after(Answer::Ranking),
            correct == old(self)@.reply(Answer::Ranking),
            final(self)@.wf(),
    {
        if !self.teams[self.turn.index()].is_active() {
            return false;
        }
        if !self.question.all_positioned() {
            return false;
        }
        let correct = self.question.ranking_correct();
        self.judge(correct);
        correct
    }

    /// Puts the current team out of the question and passes the turn to the
    /// opponent if it is active. No score changes.
    pub fn resign_current_team(&mut self)
        ensures
            final(self)@ == old(self)@.resigned(),
            final(self)@.wf(),
    {
        let current: usize = self.turn.index();
        self.teams[current].retire();
        self.pass_turn();
        assert(self@ =~~= old(self)@.resigned());
    }

    /// Returns whether the question is complete.
    pub fn is_completed(&self) -> (done: bool)
        ensures
            done == self@.is_completed(),
    {
        if !self.teams[0].is_active() && !self.teams[1].is_active() {
            return true;
        }
        match self.question.kind() {
            QuestionType::YesNo => self.question.answered_count() >= self.question.options_len(),
            QuestionType::Ranking => false,
            QuestionType::Reveal => self.question.answered_count()
                >= self.question.reveal_items_len(),
        }
    }

    /// Makes both teams active again with no streak and gives the first team the turn.
    fn reactivate_teams(&mut self)
        ensures
            final(self)@ == old(self)@.reactivated(),
    {
        self.teams[0].reactivate();
        self.teams[1].reactivate();
        self.turn = Side::First;
        assert(self@ =~~= old(self)@.reactivated());
    }

    /// Returns whether the question cursor can move on by one.
    pub fn cursor_has_room(&self) -> (room: bool)
        ensures
            room == (self@.question_index < usize::MAX),
    {
        self.question_index < usize::MAX
    }

    /// Returns the cursor position that the next round takes.
    pub fn next_round_index(&self) -> (index: usize)
        requires
            self@.question_index < usize::MAX,
        ensures
            index == self@.next_round_index(),
    {
        (self.question_index + 1) % ROUND_CYCLE
    }

    /// Starts a round on `question`, taken from cursor position
    /// `question_index`: both teams are active again with no streak, and the
    /// first team moves. The teams keep their scores.
    pub fn start_round(&mut self, question: Question, question_index: usize)
        ensures
            final(self)@ == old(self)@.round_started(question@, question_index as nat),
            final(self)@.wf(),
    {
        self.question_index = question_index;
        self.question = question;
        self.reactivate_teams();
    }

    /// Moves the cursor on by one without loading a question, and makes both
    /// teams active again with no streak; the first team moves.
    pub fn advance_cursor(&mut self)
        requires
            old(self)@.question_index < usize::MAX,
        ensures
            final(self)@ == old(self)@.cursor_advanced(),
            final(self)@.wf(),
    {
        self.question_index += 1;
        self.reactivate_teams();
    }

    /// Replaces the question. Teams, turn and cursor stay as they are.
    pub fn set_question(&mut self, question: Question)
        ensures
            final(self)@ == old(self)@.with_question(question@),
            final(self)@.wf(),
    {
        self.question = question;
    }

    /// Appends an option to a yes/no question; does nothing on another format.
    pub fn add_option(&mut self, text: String, is_yes: bool)
        ensures
            final(self)@ == old(self)@.with_question(old(self)@.question.with_option(text@, is_yes)),
            final(self)@.wf(),
    {
        self.question.push_option(text, is_yes);
    }

    /// Appends an item to a ranking question; does nothing on another format.
    pub fn add_ranking_item(&mut self, text: String, correct_position: usize)
        ensures
            final(self)@ == old(self)@.with_question(
                old(self)@.question.with_ranking_item(text@, correct_position as nat),
            ),
            final(self)@.wf(),
    {
        self.question.push_ranking_item(text, correct_position);
    }

    /// Appends an item to a reveal question; does nothing on another format.
    pub fn add_reveal_item(&mut self, text: String, answer: String)
        ensures
            final(self)@ == old(self)@.with_question(
                old(self)@.question.with_reveal_item(text@, answer@),
            ),
            final(self)@.wf(),
    {
        self.question.push_reveal_item(text, answer);
    }

    /// The question in play.
    pub fn question(&self) -> (question: &Question)
        ensures
            question@ == self@.question,
            self@.wf(),
    {
        &self.question
    }

    /// Team `idx`, or `None` when there is no such team.
    pub fn team(&self, idx: usize) -> (team: Option<&Team>)
        ensures
            self@.wf(),
            match team {
                Some(t) => idx < 2 && t@ == self@.teams[idx as int],
                None => idx >= 2,
            },
    {
        if idx < 2 {
            Some(&self.teams[idx])
        } else {
            None
        }
    }

    /// Returns the index of the team whose turn it is.
    pub fn current_team_index(&self) -> (idx: usize)
        ensures
            idx == self@.current_team,
            self@.wf(),
    {
        self.turn.index()
    }

    /// Returns the position of the question in its sequence.
    pub fn question_index(&self) -> (index: usize)
        ensures
            index == self@.question_index,
    {
        self.question_index
    }
}

} // verus!
