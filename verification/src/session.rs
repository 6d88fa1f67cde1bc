//! The session lifecycle controller: at most one live game session, the
//! question bank and the selected set, together with the commands and read
//! accessors that the presentation layer calls.
//!
//! Before a game exists every read accessor gives a default (the empty
//! string, zero, `false`, the unanswered verdict) and every command other
//! than the lifecycle commands does nothing.

use vstd::prelude::*;
use crate::bank::{BankView, QuestionBank};
use crate::game::{Answer, Game, GameView};
use crate::question::{Question, QuestionType, QuestionView, Verdict};

verus! {

/// Mathematical view of the controller's state.
#[verifier::ext_equal]
pub struct SessionView {
    /// The live game, if one has been started.
    pub game: Option<GameView>,
    pub bank: BankView,
    /// The selected set. Selecting a set stores an index that names one,
    /// whenever the bank has any.
    pub current_set: nat,
}

impl SessionView {
    /// The state at start-up: no game, the first set selected.
    pub open spec fn with_bank(bank: BankView) -> SessionView {
        SessionView { game: None, bank, current_set: 0 }
    }

    /// The live game, if there is one, is well formed.
    pub open spec fn wf(self) -> bool {
        self.game matches Some(game) ==> game.wf()
    }

    /// The state with `game` as the live game.
    pub open spec fn with_game(self, game: GameView) -> SessionView {
        SessionView { game: Some(game), ..self }
    }

    /// The question in play; the placeholder question when there is no game.
    pub open spec fn question(self) -> QuestionView {
        match self.game {
            Some(game) => game.question,
            None => QuestionView::placeholder(),
        }
    }

    /// The counters can take answer `a`, if it is going to be judged.
    pub open spec fn can_take(self, a: Answer) -> bool {
        self.game matches Some(game) ==> game.can_take(a)
    }

    /// The state after answer `a`; without a game nothing changes.
    pub open spec fn after(self, a: Answer) -> SessionView {
        match self.game {
            Some(game) => self.with_game(game.after(a)),
            None => self,
        }
    }

    /// The reply to answer `a`; `false` without a game.
    pub open spec fn reply(self, a: Answer) -> bool {
        match self.game {
            Some(game) => game.reply(a),
            None => false,
        }
    }

    /// The state after the current team gave up; without a game nothing changes.
    pub open spec fn resigned(self) -> SessionView {
        match self.game {
            Some(game) => self.with_game(game.resigned()),
            None => self,
        }
    }

    /// Whether the question is complete; `false` without a game.
    pub open spec fn is_completed(self) -> bool {
        match self.game {
            Some(game) => game.is_completed(),
            None => false,
        }
    }

    /// The selected index names a set of the bank, if the bank has any.
    pub open spec fn selection_in_range(self) -> bool {
        self.bank.sets.len() > 0 ==> self.current_set < self.bank.sets.len()
    }

    /// The question cursor of the live game, if there is one, can move on by one.
    pub open spec fn cursor_has_room(self) -> bool {
        self.game matches Some(game) ==> game.question_index < usize::MAX
    }

    /// The state after a new round was asked for. Without a game, one is
    /// started on the first question of the selected set. With a game, the
    /// cursor moves on in its cycle, the question at the new position is
    /// loaded from the selected set, and both teams are active again; they
    /// keep their scores.
    pub open spec fn round_started(self) -> SessionView {
        match self.game {
            Some(game) => self.with_game(
                game.round_started(
                    self.bank.question_at(self.current_set, game.next_round_index()),
                    game.next_round_index(),
                ),
            ),
            None => self.with_game(GameView::fresh(self.bank.question_at(self.current_set, 0))),
        }
    }

    /// The state after set `set_index` was loaded. The index is stored
    /// wrapped round the number of sets, so that it names a set, and a new
    /// game starts on the first question of that set. On an empty bank the
    /// index is stored as given and the game starts on the placeholder question.
    pub open spec fn set_loaded(self, set_index: nat) -> SessionView {
        SessionView {
            game: Some(
                GameView::fresh(self.bank.question_at(self.bank.selected_set(set_index), 0)),
            ),
            bank: self.bank,
            current_set: self.bank.selected_set(set_index),
        }
    }

    /// The state with a new game on the placeholder question.
    pub open spec fn emptied(self) -> SessionView {
        self.with_game(GameView::fresh(QuestionView::placeholder()))
    }

    /// The state after the question in play was replaced by an empty one of
    /// the given format and prompt; without a game nothing changes.
    pub open spec fn question_loaded(self, kind: QuestionType, prompt: Seq<char>) -> SessionView {
        match self.game {
            Some(game) => self.with_game(game.with_question(QuestionView::empty(kind, prompt))),
            None => self,
        }
    }

    /// The state with the question in play replaced by `question`; without a
    /// game nothing changes.
    pub open spec fn with_question(self, question: QuestionView) -> SessionView {
        match self.game {
            Some(game) => self.with_game(game.with_question(question)),
            None => self,
        }
    }

    /// The state after the cursor moved on by one without loading a
    /// question; without a game nothing changes.
    pub open spec fn cursor_advanced(self) -> SessionView {
        match self.game {
            Some(game) => self.with_game(game.cursor_advanced()),
            None => self,
        }
    }

    /// Score of team `idx`; 0 without a game or without such a team.
    pub open spec fn team_score(self, idx: int) -> nat {
        match self.game {
            Some(game) => game.team_score(idx),
            None => 0,
        }
    }

    /// Streak of team `idx`; 0 without a game or without such a team.
    pub open spec fn team_round_score(self, idx: int) -> nat {
        match self.game {
            Some(game) => game.team_round_score(idx),
            None => 0,
        }
    }

    /// Whether team `idx` is active; `false` without a game or without such a team.
    pub open spec fn team_active(self, idx: int) -> bool {
        match self.game {
            Some(game) => game.team_active(idx),
            None => false,
        }
    }

    /// Index of the team whose turn it is; 0 without a game.
    pub open spec fn current_team_index(self) -> int {
        match self.game {
            Some(game) => game.current_team,
            None => 0,
        }
    }

    /// Name of the team whose turn it is; empty without a game.
    pub open spec fn current_team_name(self) -> Seq<char> {
        match self.game {
            Some(game) => game.team_name(game.current_team),
            None => Seq::empty(),
        }
    }
}

/// The controller's state: the live game, if any, the bank and the selected set.
pub struct Session {
    game: Option<Game>,
    bank: QuestionBank,
    current_set: usize,
}

impl View for Session {
    type V = SessionView;

    closed spec fn view(&self) -> SessionView {
        SessionView {
            game: match self.game {
                Some(game) => Some(game@),
                None => None,
            },
            bank: self.bank@,
            current_set: self.current_set as nat,
        }
    }
}

impl Session {
    /// Builds the start-up state with an empty bank.
    pub fn new() -> (session: Session)
        ensures
            session@ == SessionView::with_bank(BankView::empty()),
            session@.wf(),
    {
        Session { game: None, bank: QuestionBank::new(), current_set: 0 }
    }

    /// Builds the start-up state around a loaded bank.
    pub fn with_bank(bank: QuestionBank) -> (session: Session)
        ensures
            session@ == SessionView::with_bank(bank@),
            session@.wf(),
    {
        Session { game: None, bank, current_set: 0 }
    }

    /// Returns whether every answer command is free to run: the counters of
    /// the live game can take one more point.
    pub fn has_room(&self) -> (room: bool)
        ensures
            room == (self@.game matches Some(game) ==> game.has_room()),
            room ==> forall|a: Answer| self@.can_take(a),
    {
        match &self.game {
            Some(game) => game.has_room(),
            None => true,
        }
    }

    /// Returns whether the commands that move the question cursor are free
    /// to run: the cursor of the live game can take one more step.
    pub fn cursor_has_room(&self) -> (room: bool)
        ensures
            room == self@.cursor_has_room(),
    {
        match &self.game {
            Some(game) => game.cursor_has_room(),
            None => true,
        }
    }
}

/// Starts a new round. Without a game, a game is started on the first
/// question of the selected set, with two fresh teams. With a game, the
/// cursor moves on by one in its cycle, the question at the new position is
/// loaded, both teams are active again with no streak, and the first team moves.
pub fn new_round(session: &mut Session)
    requires
        old(session)@.cursor_has_room(),
    ensures
        final(session)@ == old(session)@.round_started(),
        final(session)@.wf(),
{
    match &mut session.game {
        Some(game) => {
            let index: usize = game.next_round_index();
            let question = session.bank.question_at(session.current_set, index);
            game.start_round(question, index);
        },
        None => {
            let question = session.bank.question_at(session.current_set, 0);
            session.game = Some(Game::new(question));
        },
    }
}

/// Returns the prompt of the question in play; the empty string without a game.
pub fn prompt(session: &Session) -> (text: String)
    ensures
        text@ == session@.question().prompt,
{
    match &session.game {
        Some(game) => game.question().prompt(),
        None => String::new(),
    }
}

/// Returns the tag of the question's format: 0 yes/no, 1 ranking, 2 reveal;
/// 0 without a game.
pub fn question_type(session: &Session) -> (tag: u8)
    ensures
        tag == session@.question().kind().tag(),
{
    match &session.game {
        Some(game) => game.question().kind().tag(),
        None => 0,
    }
}

/// Returns the number of yes/no options; 0 without a game.
pub fn options_len(session: &Session) -> (len: usize)
    ensures
        len == session@.question().options().len(),
{
    match &session.game {
        Some(game) => game.question().options_len(),
        None => 0,
    }
}

/// Returns the number of ranking items; 0 without a game.
pub fn ranking_items_len(session: &Session) -> (len: usize)
    ensures
        len == session@.question().ranking_items().len(),
{
    match &session.game {
        Some(game) => game.question().ranking_items_len(),
        None => 0,
    }
}

/// Returns the number of reveal items; 0 without a game.
pub fn reveal_items_len(session: &Session) -> (len: usize)
    ensures
        len == session@.question().reveal_items().len(),
{
    match &session.game {
        Some(game) => game.question().reveal_items_len(),
        None => 0,
    }
}

/// Returns the text of ranking item `index`; the empty string without a
/// game or without such an item.
pub fn ranking_item_text(session: &Session, index: usize) -> (text: String)
    ensures
        text@ == session@.question().ranking_item_text(index as int),
{
    match &session.game {
        Some(game) => game.question().ranking_item_text(index),
        None => String::new(),
    }
}

/// Returns the text of reveal item `index`; the empty string without a game
/// or without such an item.
pub fn reveal_item_text(session: &Session, index: usize) -> (text: String)
    ensures
        text@ == session@.question().reveal_item_text(index as int),
{
    match &session.game {
        Some(game) => game.question().reveal_item_text(index),
        None => String::new(),
    }
}

/// Returns the answer of reveal item `index`; the empty string without a
/// game or without such an item.
pub fn reveal_item_answer(session: &Session, index: usize) -> (answer: String)
    ensures
        answer@ == session@.question().reveal_item_answer(index as int),
{
    match &session.game {
        Some(game) => game.question().reveal_item_answer(index),
        None => String::new(),
    }
}

/// Returns the correct position of ranking item `index`; 0 without a game
/// or without such an item.
pub fn ranking_correct_position(session: &Session, index: usize) -> (position: usize)
    ensures
        position == session@.question().ranking_correct_position(index as int),
{
    match &session.game {
        Some(game) => game.question().ranking_correct_position(index),
        None => 0,
    }
}

/// Gives ranking item `index` the position `position`, has that one item
/// judged at once, and returns whether the position was right.
///
/// Rejected (`false`, nothing changes) without a game, without such an
/// item, for a position outside 1 to 10, when the current team is out, and
/// when the item has a position already.
pub fn set_ranking_position(session: &mut Session, index: usize, position: usize) -> (correct: bool)
    requires
        old(session)@.can_take(Answer::Position(index as int, position as int)),
    ensures
        final(session)@ == old(session)@.after(Answer::Position(index as int, position as int)),
        correct == old(session)@.reply(Answer::Position(index as int, position as int)),
        final(session)@.wf(),
{
    match &mut session.game {
        Some(game) => game.set_ranking_position(index, position),
        None => false,
    }
}

/// Records the presenter's judgement of reveal item `index` and returns it.
///
/// Rejected (`false`, nothing changes) without a game, without such an item
/// and when the current team is out. An item that was judged before gets
/// its stored verdict again and nothing changes.
pub fn mark_reveal(session: &mut Session, index: usize, correct: bool) -> (verdict: bool)
    requires
        old(session)@.can_take(Answer::Reveal(index as int, correct)),
    ensures
        final(session)@ == old(session)@.after(Answer::Reveal(index as int, correct)),
        verdict == old(session)@.reply(Answer::Reveal(index as int, correct)),
        final(session)@.wf(),
{
    match &mut session.game {
        Some(game) => game.mark_reveal(index, correct),
        None => false,
    }
}

/// Has the whole ranking judged as one answer and returns whether every
/// item has its correct position.
///
/// Rejected (`false`, nothing changes) without a game, when the current
/// team is out and when some item has no position yet.
pub fn submit_ranking(session: &mut Session) -> (correct: bool)
    requires
        old(session)@.can_take(Answer::Ranking),
    ensures
        final(session)@ == old(session)@.after(Answer::Ranking),
        correct == old(session)@.reply(Answer::Ranking),
        final(session)@.wf(),
{
    match &mut session.game {
        Some(game) => game.submit_ranking(),
        None => false,
    }
}

/// Returns the text of option `index`; the empty string without a game or
/// without such an option.
pub fn option_text(session: &Session, index: usize) -> (text: String)
    ensures
        text@ == session@.question().option_text(index as int),
{
    match &session.game {
        Some(game) => game.question().option_text(index),
        None => String::new(),
    }
}

/// Returns whether option `index` has been judged; `false` without a game
/// or without such an option.
pub fn has_answered(session: &Session, index: usize) -> (answered: bool)
    ensures
        answered == session@.question().option_verdict(index as int).is_answered(),
{
    match &session.game {
        Some(game) => game.question().option_verdict(index).is_answered(),
        None => false,
    }
}

/// Has the classification of option `index` as yes or no judged, and
/// returns whether it was right.
///
/// Rejected (`false`, nothing changes) without a game, without such an
/// option and when the current team is out. An option that was judged
/// before gets its stored verdict again and nothing changes.
pub fn answer(session: &mut Session, index: usize, yes: bool) -> (correct: bool)
    requires
        old(session)@.can_take(Answer::YesNo(index as int, yes)),
    ensures
        final(session)@ == old(session)@.after(Answer::YesNo(index as int, yes)),
        correct == old(session)@.reply(Answer::YesNo(index as int, yes)),
        final(session)@.wf(),
{
    match &mut session.game {
        Some(game) => game.answer(index, yes),
        None => false,
    }
}

/// Returns the net points earned on the question in play; 0 without a game.
pub fn score(session: &Session) -> (points: usize)
    ensures
        points == session@.question().score,
{
    match &session.game {
        Some(game) => game.question().score(),
        None => 0,
    }
}

/// Returns whether the question in play is complete; `false` without a game.
pub fn is_completed(session: &Session) -> (done: bool)
    ensures
        done == session@.is_completed(),
{
    match &session.game {
        Some(game) => game.is_completed(),
        None => false,
    }
}

/// Returns the verdict of option `index`; unanswered without a game or
/// without such an option.
pub fn option_verdict(session: &Session, index: usize) -> (verdict: Verdict)
    ensures
        verdict == session@.question().option_verdict(index as int),
{
    match &session.game {
        Some(game) => game.question().option_verdict(index),
        None => Verdict::Unanswered,
    }
}

/// Returns the verdict of option `index` as a number: 1 when it was judged
/// right, 0 when it was judged wrong, -1 when it has not been judged, when
/// there is no such option and when there is no game.
pub fn answer_was_correct(session: &Session, index: usize) -> (number: i32)
    ensures
        number == session@.question().option_verdict(index as int).spec_code(),
{
    option_verdict(session, index).code()
}

/// Returns whether "yes" is right for option `index`; `false` without a
/// game or without such an option.
pub fn correct_answer_is_yes(session: &Session, index: usize) -> (is_yes: bool)
    ensures
        is_yes == session@.question().option_is_yes(index as int),
{
    match &session.game {
        Some(game) => game.question().option_is_yes(index),
        None => false,
    }
}

/// Returns the streak of team `idx`; 0 without a game or without such a team.
pub fn team_round_score(session: &Session, idx: usize) -> (points: usize)
    ensures
        points == session@.team_round_score(idx as int),
{
    match &session.game {
        Some(game) => match game.team(idx) {
            Some(team) => team.round_score(),
            None => 0,
        },
        None => 0,
    }
}

/// Returns the score of team `idx`; 0 without a game or without such a team.
pub fn team_score(session: &Session, idx: usize) -> (points: usize)
    ensures
        points == session@.team_score(idx as int),
{
    match &session.game {
        Some(game) => match game.team(idx) {
            Some(team) => team.score(),
            None => 0,
        },
        None => 0,
    }
}

/// Returns whether team `idx` is active; `false` without a game or without
/// such a team.
pub fn team_active(session: &Session, idx: usize) -> (active: bool)
    ensures
        active == session@.team_active(idx as int),
{
    match &session.game {
        Some(game) => match game.team(idx) {
            Some(team) => team.is_active(),
            None => false,
        },
        None => false,
    }
}

/// Returns the index of the team whose turn it is; 0 without a game.
pub fn current_team_index(session: &Session) -> (idx: usize)
    ensures
        idx == session@.current_team_index(),
        idx < 2,
{
    match &session.game {
        Some(game) => game.current_team_index(),
        None => 0,
    }
}

/// Returns the name of the team whose turn it is; the empty string without a game.
pub fn current_team_name(session: &Session) -> (name: String)
    ensures
        name@ == session@.current_team_name(),
{
    match &session.game {
        Some(game) => match game.team(game.current_team_index()) {
            Some(team) => team.name(),
            None => String::new(),
        },
        None => String::new(),
    }
}

/// Puts the current team out of the question and passes the turn to the
/// opponent if it is active. No score changes. Does nothing without a game.
pub fn resign_current_team(session: &mut Session)
    ensures
        final(session)@ == old(session)@.resigned(),
        final(session)@.wf(),
{
    match &mut session.game {
        Some(game) => {
            game.resign_current_team();
        },
        None => {},
    }
}

/// Returns the number of sets in the bank.
pub fn get_sets_count(session: &Session) -> (count: usize)
    ensures
        count == session@.bank.sets.len(),
{
    session.bank.set_count()
}

/// Returns the name of set `index`; the empty string when there is no such set.
pub fn get_set_name(session: &Session, index: usize) -> (name: String)
    ensures
        name@ == session@.bank.set_name(index as int),
{
    session.bank.set_name(index)
}

/// Returns the index of the selected set: 0 at start-up, afterwards the
/// index that the last load stored.
pub fn get_current_set_index(session: &Session) -> (index: usize)
    ensures
        index == session@.current_set,
{
    session.current_set
}

/// Selects set `set_index` and starts a new game on its first question,
/// with two fresh teams. An index beyond the last set wraps round the number
/// of sets, and the wrapped index is the one that is stored. On an empty
/// bank the index is stored as given and the game starts on the placeholder
/// question.
pub fn load_question_set(session: &mut Session, set_index: usize)
    ensures
        final(session)@ == old(session)@.set_loaded(set_index as nat),
        final(session)@.selection_in_range(),
        final(session)@.wf(),
{
    let selected: usize = session.bank.selected_set(set_index);
    session.current_set = selected;
    let question = session.bank.question_at(selected, 0);
    session.game = Some(Game::new(question));
}

/// Starts a new game on the placeholder question, with two fresh teams.
pub fn init_empty_game(session: &mut Session)
    ensures
        final(session)@ == old(session)@.emptied(),
        final(session)@.wf(),
{
    session.game = Some(Game::new(Question::placeholder()));
}

/// Replaces the question in play by an empty one of the given format.
fn load_question(session: &mut Session, kind: QuestionType, prompt_text: String)
    ensures
        final(session)@ == old(session)@.question_loaded(kind, prompt_text@),
        final(session)@.wf(),
{
    match &mut session.game {
        Some(game) => {
            game.set_question(Question::new(kind, prompt_text));
        },
        None => {},
    }
}

/// Replaces the question in play by an empty yes/no question with the given
/// prompt. Teams, turn and cursor stay. Does nothing without a game.
pub fn load_yesno_question(session: &mut Session, prompt_text: String)
    ensures
        final(session)@ == old(session)@.question_loaded(QuestionType::YesNo, prompt_text@),
        final(session)@.wf(),
{
    load_question(session, QuestionType::YesNo, prompt_text);
}

/// Appends an unanswered option to the yes/no question in play. Does
/// nothing without a game or on a question of another format.
pub fn add_yesno_option(session: &mut Session, text: String, is_correct: bool)
    ensures
        final(session)@ == old(session)@.with_question(
            old(session)@.question().with_option(text@, is_correct),
        ),
        final(session)@.wf(),
{
    match &mut session.game {
        Some(game) => {
            game.add_option(text, is_correct);
        },
        None => {},
    }
}

/// Replaces the question in play by an empty ranking question with the
/// given prompt. Teams, turn and cursor stay. Does nothing without a game.
pub fn load_ranking_question(session: &mut Session, prompt_text: String)
    ensures
        final(session)@ == old(session)@.question_loaded(QuestionType::Ranking, prompt_text@),
        final(session)@.wf(),
{
    load_question(session, QuestionType::Ranking, prompt_text);
}

/// Replaces the question in play by an empty reveal question with the given
/// prompt. Teams, turn and cursor stay. Does nothing without a game.
pub fn load_reveal_question(session: &mut Session, prompt_text: String)
    ensures
        final(session)@ == old(session)@.question_loaded(QuestionType::Reveal, prompt_text@),
        final(session)@.wf(),
{
    load_question(session, QuestionType::Reveal, prompt_text);
}

/// Appends an unjudged item to the reveal question in play. Does nothing
/// without a game or on a question of another format.
pub fn add_reveal_option(session: &mut Session, text: String, answer: String)
    ensures
        final(session)@ == old(session)@.with_question(
            old(session)@.question().with_reveal_item(text@, answer@),
        ),
        final(session)@.wf(),
{
    match &mut session.game {
        Some(game) => {
            game.add_reveal_item(text, answer);
        },
        None => {},
    }
}

/// Appends an unpositioned item to the ranking question in play. Does
/// nothing without a game or on a question of another format.
pub fn add_ranking_item(session: &mut Session, text: String, correct_position: usize)
    ensures
        final(session)@ == old(session)@.with_question(
            old(session)@.question().with_ranking_item(text@, correct_position as nat),
        ),
        final(session)@.wf(),
{
    match &mut session.game {
        Some(game) => {
            game.add_ranking_item(text, correct_position);
        },
        None => {},
    }
}

/// Moves the question cursor on by one without loading a question: the
/// caller supplies the next question itself. Both teams are active again
/// with no streak, and the first team moves. Does nothing without a game.
pub fn next_question_from_json(session: &mut Session)
    requires
        old(session)@.cursor_has_room(),
    ensures
        final(session)@ == old(session)@.cursor_advanced(),
        final(session)@.wf(),
{
    match &mut session.game {
        Some(game) => {
            game.advance_cursor();
        },
        None => {},
    }
}

} // verus!
