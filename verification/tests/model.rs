use trivia_engine::{
    Game, Question, QuestionBank, QuestionSet, QuestionType, Side, Team, Verdict,
};

fn ranking_question() -> Question {
    let mut question = Question::new(QuestionType::Ranking, "order".to_string());
    question.push_ranking_item("a".to_string(), 2);
    question.push_ranking_item("b".to_string(), 1);
    question
}

#[test]
fn question_type_tags() {
    assert_eq!(QuestionType::YesNo.tag(), 0);
    assert_eq!(QuestionType::Ranking.tag(), 1);
    assert_eq!(QuestionType::Reveal.tag(), 2);
}

#[test]
fn new_question_is_empty() {
    let question = Question::new(QuestionType::Reveal, "p".to_string());
    assert_eq!(question.kind(), QuestionType::Reveal);
    assert_eq!(question.prompt(), "p");
    assert_eq!(question.score(), 0);
    assert_eq!(question.answered_count(), 0);
    assert_eq!(question.options_len(), 0);
    assert_eq!(question.ranking_items_len(), 0);
    assert_eq!(question.reveal_items_len(), 0);
}

#[test]
fn placeholder_question_is_an_empty_yes_no_question() {
    let question = Question::placeholder();
    assert_eq!(question.kind(), QuestionType::YesNo);
    assert_eq!(question.prompt(), "");
    assert_eq!(question.options_len(), 0);
}

#[test]
fn question_clone_is_independent() {
    let mut template = Question::new(QuestionType::YesNo, "p".to_string());
    template.push_option("a".to_string(), true);
    let mut copy = template.clone();
    assert_eq!(copy.prompt(), "p");
    assert_eq!(copy.options_len(), 1);
    assert_eq!(copy.option_text(0), "a");
    assert!(copy.option_is_yes(0));
    copy.record_option_verdict(0, Verdict::Correct);
    copy.push_option("b".to_string(), false);
    assert_eq!(copy.option_verdict(0), Verdict::Correct);
    assert_eq!(template.option_verdict(0), Verdict::Unanswered);
    assert_eq!(template.options_len(), 1);
}

#[test]
fn clone_keeps_items_of_every_format() {
    let ranking = ranking_question();
    let copy = ranking.clone();
    assert_eq!(copy.kind(), QuestionType::Ranking);
    assert_eq!(copy.ranking_items_len(), 2);
    assert_eq!(copy.ranking_item_text(1), "b");
    assert_eq!(copy.ranking_correct_position(0), 2);

    let mut reveal = Question::new(QuestionType::Reveal, "r".to_string());
    reveal.push_reveal_item("x".to_string(), "y".to_string());
    reveal.record_reveal_verdict(0, Verdict::Incorrect);
    let copy = reveal.clone();
    assert_eq!(copy.reveal_items_len(), 1);
    assert_eq!(copy.reveal_item_text(0), "x");
    assert_eq!(copy.reveal_item_answer(0), "y");
    assert_eq!(copy.reveal_verdict(0), Verdict::Incorrect);
}

#[test]
fn positions_are_recorded_and_checked() {
    let mut question = ranking_question();
    assert!(!question.all_positioned());
    assert!(!question.ranking_correct());
    assert_eq!(question.ranking_user_position(0), None);
    question.record_position(0, 2);
    assert_eq!(question.ranking_user_position(0), Some(2));
    assert!(!question.all_positioned());
    question.record_position(1, 3);
    assert!(question.all_positioned());
    assert!(!question.ranking_correct());
    assert_eq!(question.ranking_user_position(2), None);
}

#[test]
fn ranking_is_correct_when_every_item_is_well_placed() {
    let mut question = ranking_question();
    question.record_position(0, 2);
    question.record_position(1, 1);
    assert!(question.all_positioned());
    assert!(question.ranking_correct());
}

#[test]
fn question_without_ranking_items_is_trivially_ranked() {
    let question = Question::new(QuestionType::Ranking, "r".to_string());
    assert!(question.all_positioned());
    assert!(question.ranking_correct());
    let question = Question::new(QuestionType::YesNo, "y".to_string());
    assert!(question.all_positioned());
    assert!(question.ranking_correct());
}

#[test]
fn question_score_is_floored_at_zero() {
    let mut question = Question::new(QuestionType::YesNo, "p".to_string());
    question.apply_score(true, 0);
    question.apply_score(true, 1);
    assert_eq!(question.score(), 2);
    assert_eq!(question.answered_count(), 2);
    question.apply_score(false, 5);
    assert_eq!(question.score(), 0);
    assert_eq!(question.answered_count(), 3);
    question.apply_score(true, 0);
    question.apply_score(true, 0);
    question.apply_score(true, 0);
    question.apply_score(false, 2);
    assert_eq!(question.score(), 1);
}

#[test]
fn team_scoring_rule() {
    let mut team = Team::new("Team A".to_string());
    assert_eq!(team.name(), "Team A");
    assert_eq!(team.score(), 0);
    assert_eq!(team.round_score(), 0);
    assert!(team.is_active());
    assert!(team.has_room());
    team.apply_score(true);
    team.apply_score(true);
    assert_eq!(team.score(), 2);
    assert_eq!(team.round_score(), 2);
    assert!(team.is_active());
    team.apply_score(false);
    assert_eq!(team.score(), 0);
    assert_eq!(team.round_score(), 0);
    assert!(!team.is_active());
}

#[test]
fn team_keeps_points_of_earlier_questions_after_a_clawback() {
    let mut team = Team::new("t".to_string());
    team.apply_score(true);
    team.apply_score(true);
    team.apply_score(true);
    team.reactivate();
    assert_eq!(team.score(), 3);
    assert_eq!(team.round_score(), 0);
    team.apply_score(true);
    team.apply_score(false);
    assert_eq!(team.score(), 3);
    assert!(!team.is_active());
    team.reactivate();
    assert!(team.is_active());
}

#[test]
fn retired_team_keeps_its_scores() {
    let mut team = Team::new("t".to_string());
    team.apply_score(true);
    team.retire();
    assert!(!team.is_active());
    assert_eq!(team.score(), 1);
    assert_eq!(team.round_score(), 1);
}

#[test]
fn sides() {
    assert_eq!(Side::First.index(), 0);
    assert_eq!(Side::Second.index(), 1);
    assert_eq!(Side::First.other(), Side::Second);
    assert_eq!(Side::Second.other(), Side::First);
}

#[test]
fn game_on_a_question() {
    let mut question = Question::new(QuestionType::YesNo, "p".to_string());
    question.push_option("a".to_string(), false);
    let mut game = Game::new(question);
    assert_eq!(game.current_team_index(), 0);
    assert_eq!(game.question_index(), 0);
    assert!(game.has_room());
    assert!(game.cursor_has_room());
    assert_eq!(game.next_round_index(), 1);
    assert!(game.team(2).is_none());
    assert_eq!(game.team(1).map(|t| t.name()), Some("Team B".to_string()));
    assert!(game.answer(0, false));
    assert_eq!(game.question().score(), 1);
    assert_eq!(game.question().answered_count(), 1);
    assert_eq!(game.team(0).map(|t| t.score()), Some(1));
    assert!(game.is_completed());
    assert_eq!(game.current_team_index(), 1);
}

#[test]
fn game_cursor_cycle() {
    let mut game = Game::new(Question::placeholder());
    game.advance_cursor();
    assert_eq!(game.question_index(), 1);
    assert_eq!(game.next_round_index(), 2);
    game.advance_cursor();
    assert_eq!(game.next_round_index(), 0);
    game.advance_cursor();
    game.advance_cursor();
    assert_eq!(game.question_index(), 4);
    assert_eq!(game.next_round_index(), 2);
    game.start_round(Question::placeholder(), 2);
    assert_eq!(game.question_index(), 2);
}

#[test]
fn bank_lookup_wraps_both_indices() {
    let mut bank = QuestionBank::new();
    for s in 0..2 {
        let mut set = QuestionSet::new(format!("s{}", s));
        for q in 0..3 {
            set.push(Question::new(QuestionType::YesNo, format!("s{}q{}", s, q)));
        }
        assert_eq!(set.len(), 3);
        assert_eq!(set.name(), format!("s{}", s));
        bank.push(set);
    }
    assert_eq!(bank.set_count(), 2);
    assert_eq!(bank.set_name(1), "s1");
    assert_eq!(bank.set_name(2), "");
    assert_eq!(bank.question_at(0, 0).prompt(), "s0q0");
    assert_eq!(bank.question_at(1, 2).prompt(), "s1q2");
    assert_eq!(bank.question_at(2, 3).prompt(), "s0q0");
    assert_eq!(bank.question_at(3, 4).prompt(), "s1q1");
    assert_eq!(bank.question_at(usize::MAX, usize::MAX).prompt(), {
        let s = usize::MAX % 2;
        let q = usize::MAX % 3;
        format!("s{}q{}", s, q)
    });
}

#[test]
fn selected_set_wraps_round_the_bank() {
    let mut bank = QuestionBank::new();
    assert_eq!(bank.selected_set(0), 0);
    assert_eq!(bank.selected_set(5), 5);
    for s in 0..3 {
        bank.push(QuestionSet::new(format!("s{}", s)));
    }
    assert_eq!(bank.selected_set(0), 0);
    assert_eq!(bank.selected_set(2), 2);
    assert_eq!(bank.selected_set(3), 0);
    assert_eq!(bank.selected_set(4), 1);
    assert_eq!(bank.selected_set(usize::MAX), usize::MAX % 3);
}

#[test]
fn empty_bank_gives_the_placeholder() {
    let bank = QuestionBank::new();
    let question = bank.question_at(3, 5);
    assert_eq!(question.kind(), QuestionType::YesNo);
    assert_eq!(question.prompt(), "");
    assert_eq!(question.options_len(), 0);
}
