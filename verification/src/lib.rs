//! Turn-based scoring engine for a two-team trivia game.
//!
//! The engine keeps the score of one question and of two teams, enforces
//! whose turn it is, and decides when a question is complete. Three question
//! formats are played: yes/no classification, ranking, and reveal-and-judge.
//!
//! * [`question`] holds the question model,
//! * [`team`] the team model,
//! * [`game`] the scoring and turn rules of one game session,
//! * [`bank`] the read-only question bank,
//! * [`session`] the lifecycle controller and the commands and accessors
//!   that a presentation layer calls,
//! * [`laws`] the properties of the rules that are proved once and for all.
//!
//! Every operation is verified against a mathematical model of the state:
//! each type has a view, and each contract says how the view moves.

pub mod bank;
pub mod game;
pub mod laws;
pub mod question;
pub mod session;
pub mod team;

pub use crate::bank::{QuestionBank, QuestionSet};
pub use crate::game::{Game, Side};
pub use crate::question::{OptionItem, Question, QuestionType, RankingItem, RevealItem, Verdict};
pub use crate::session::{
    add_ranking_item, add_reveal_option, add_yesno_option, answer, answer_was_correct,
    correct_answer_is_yes, current_team_index, current_team_name, get_current_set_index,
    get_set_name, get_sets_count, has_answered, init_empty_game, is_completed,
    load_question_set, load_ranking_question, load_reveal_question, load_yesno_question,
    mark_reveal, new_round, next_question_from_json, option_text, option_verdict, options_len,
    prompt,
    question_type, ranking_correct_position, ranking_item_text, ranking_items_len,
    resign_current_team, reveal_item_answer, reveal_item_text, reveal_items_len, score,
    set_ranking_position, submit_ranking, team_active, team_round_score, team_score, Session,
};
pub use crate::team::Team;
