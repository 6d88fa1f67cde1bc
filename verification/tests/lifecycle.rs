use trivia_engine::{
    add_yesno_option, answer, answer_was_correct, correct_answer_is_yes, current_team_index,
    current_team_name, get_current_set_index, get_set_name, get_sets_count, has_answered,
    init_empty_game, is_completed, load_question_set, load_ranking_question,
    load_reveal_question, load_yesno_question, mark_reveal, new_round, next_question_from_json,
    option_text, option_verdict, options_len, prompt, question_type, ranking_correct_position,
    ranking_item_text, ranking_items_len, resign_current_team, reveal_item_answer,
    reveal_item_text, reveal_items_len, score, set_ranking_position, submit_ranking,
    team_active, team_round_score, team_score, add_ranking_item, add_reveal_option, Question,
    QuestionBank, QuestionSet, QuestionType, Session, Verdict,
};

fn yes_no_template(prompt_text: &str, answers: &[bool]) -> Question {
    let mut question = Question::new(QuestionType::YesNo, prompt_text.to_string());
    for (i, is_yes) in answers.iter().enumerate() {
        question.push_option(format!("{} / {}", prompt_text, i), *is_yes);
    }
    question
}

fn set_of(name: &str, count: usize) -> QuestionSet {
    let mut set = QuestionSet::new(name.to_string());
    for i in 0..count {
        set.push(yes_no_template(&format!("{} q{}", name, i), &[true, false]));
    }
    set
}

fn bank_of(sizes: &[usize]) -> QuestionBank {
    let mut bank = QuestionBank::new();
    for (i, n) in sizes.iter().enumerate() {
        bank.push(set_of(&format!("set {}", i), *n));
    }
    bank
}

#[test]
fn accessors_give_defaults_before_a_game_exists() {
    let session = Session::new();
    assert_eq!(prompt(&session), "");
    assert_eq!(question_type(&session), 0);
    assert_eq!(options_len(&session), 0);
    assert_eq!(ranking_items_len(&session), 0);
    assert_eq!(reveal_items_len(&session), 0);
    assert_eq!(option_text(&session, 0), "");
    assert_eq!(ranking_item_text(&session, 0), "");
    assert_eq!(reveal_item_text(&session, 0), "");
    assert_eq!(reveal_item_answer(&session, 0), "");
    assert_eq!(ranking_correct_position(&session, 0), 0);
    assert!(!has_answered(&session, 0));
    assert_eq!(answer_was_correct(&session, 0), -1);
    assert_eq!(option_verdict(&session, 0), Verdict::Unanswered);
    assert!(!correct_answer_is_yes(&session, 0));
    assert_eq!(score(&session), 0);
    assert!(!is_completed(&session));
    assert_eq!(team_score(&session, 0), 0);
    assert_eq!(team_round_score(&session, 1), 0);
    assert!(!team_active(&session, 0));
    assert_eq!(current_team_index(&session), 0);
    assert_eq!(current_team_name(&session), "");
    assert_eq!(get_sets_count(&session), 0);
    assert_eq!(get_set_name(&session, 0), "");
    assert_eq!(get_current_set_index(&session), 0);
}

#[test]
fn commands_do_nothing_before_a_game_exists() {
    let mut session = Session::new();
    assert!(!answer(&mut session, 0, true));
    assert!(!set_ranking_position(&mut session, 0, 1));
    assert!(!mark_reveal(&mut session, 0, true));
    assert!(!submit_ranking(&mut session));
    resign_current_team(&mut session);
    load_yesno_question(&mut session, "q".to_string());
    load_ranking_question(&mut session, "q".to_string());
    load_reveal_question(&mut session, "q".to_string());
    add_yesno_option(&mut session, "a".to_string(), true);
    add_ranking_item(&mut session, "a".to_string(), 1);
    add_reveal_option(&mut session, "a".to_string(), "b".to_string());
    next_question_from_json(&mut session);
    assert_eq!(prompt(&session), "");
    assert_eq!(options_len(&session), 0);
    assert_eq!(ranking_items_len(&session), 0);
    assert_eq!(reveal_items_len(&session), 0);
    assert!(!team_active(&session, 0));
    assert!(!is_completed(&session));
}

#[test]
fn empty_game_has_two_fresh_teams() {
    let mut session = Session::new();
    init_empty_game(&mut session);
    assert_eq!(prompt(&session), "");
    assert_eq!(question_type(&session), 0);
    assert_eq!(current_team_index(&session), 0);
    assert_eq!(current_team_name(&session), "Team A");
    for idx in 0..2 {
        assert_eq!(team_score(&session, idx), 0);
        assert_eq!(team_round_score(&session, idx), 0);
        assert!(team_active(&session, idx));
    }
    resign_current_team(&mut session);
    assert_eq!(current_team_name(&session), "Team B");
}

#[test]
fn team_accessors_give_defaults_for_a_missing_team() {
    let mut session = Session::new();
    init_empty_game(&mut session);
    assert_eq!(team_score(&session, 2), 0);
    assert_eq!(team_round_score(&session, 2), 0);
    assert!(!team_active(&session, 2));
    assert!(!team_active(&session, usize::MAX));
}

#[test]
fn new_round_on_an_empty_bank_gives_the_placeholder_question() {
    let mut session = Session::new();
    new_round(&mut session);
    assert_eq!(prompt(&session), "");
    assert_eq!(question_type(&session), 0);
    assert_eq!(options_len(&session), 0);
    assert!(team_active(&session, 0));
    assert!(team_active(&session, 1));
    load_question_set(&mut session, 4);
    assert_eq!(get_current_set_index(&session), 4);
    assert_eq!(prompt(&session), "");
}

#[test]
fn new_round_on_an_empty_set_gives_the_placeholder_question() {
    let mut session = Session::with_bank(bank_of(&[0]));
    new_round(&mut session);
    assert_eq!(prompt(&session), "");
    assert_eq!(options_len(&session), 0);
}

#[test]
fn first_round_starts_on_the_first_question_of_the_selected_set() {
    let mut session = Session::with_bank(bank_of(&[3, 3]));
    new_round(&mut session);
    assert_eq!(prompt(&session), "set 0 q0");
    assert_eq!(options_len(&session), 2);
    assert_eq!(option_text(&session, 1), "set 0 q0 / 1");
    assert_eq!(current_team_name(&session), "Team A");
}

#[test]
fn new_round_moves_the_cursor_in_a_cycle_of_three() {
    let mut session = Session::with_bank(bank_of(&[3]));
    new_round(&mut session);
    assert_eq!(prompt(&session), "set 0 q0");
    new_round(&mut session);
    assert_eq!(prompt(&session), "set 0 q1");
    new_round(&mut session);
    assert_eq!(prompt(&session), "set 0 q2");
    new_round(&mut session);
    assert_eq!(prompt(&session), "set 0 q0");
}

#[test]
fn new_round_never_reaches_the_fourth_question_of_a_set() {
    // The cursor cycles modulo 3 whatever the size of the set.
    let mut session = Session::with_bank(bank_of(&[5]));
    let mut seen = Vec::new();
    for _ in 0..7 {
        new_round(&mut session);
        seen.push(prompt(&session));
    }
    assert_eq!(
        seen,
        vec![
            "set 0 q0", "set 0 q1", "set 0 q2", "set 0 q0", "set 0 q1", "set 0 q2", "set 0 q0"
        ]
    );
}

#[test]
fn question_lookup_wraps_round_a_short_set() {
    // Cursor positions 0, 1, 2 on a set of two questions: 2 wraps to 0.
    let mut session = Session::with_bank(bank_of(&[2]));
    new_round(&mut session);
    assert_eq!(prompt(&session), "set 0 q0");
    new_round(&mut session);
    assert_eq!(prompt(&session), "set 0 q1");
    new_round(&mut session);
    assert_eq!(prompt(&session), "set 0 q0");
    new_round(&mut session);
    assert_eq!(prompt(&session), "set 0 q0");
    new_round(&mut session);
    assert_eq!(prompt(&session), "set 0 q1");
}

#[test]
fn new_round_keeps_scores_and_reactivates_teams() {
    let mut session = Session::with_bank(bank_of(&[3]));
    new_round(&mut session);
    assert!(answer(&mut session, 0, true)); // A: 1
    assert!(!answer(&mut session, 1, true)); // B out
    assert_eq!(current_team_index(&session), 0);
    resign_current_team(&mut session);
    assert!(is_completed(&session));

    new_round(&mut session);
    assert_eq!(team_score(&session, 0), 1);
    assert_eq!(team_score(&session, 1), 0);
    assert_eq!(team_round_score(&session, 0), 0);
    assert!(team_active(&session, 0));
    assert!(team_active(&session, 1));
    assert_eq!(current_team_index(&session), 0);
    assert_eq!(score(&session), 0);
    assert!(!has_answered(&session, 0));
    assert!(!is_completed(&session));
}

#[test]
fn play_never_touches_the_bank() {
    let mut session = Session::with_bank(bank_of(&[1]));
    new_round(&mut session);
    assert!(answer(&mut session, 0, true));
    assert!(has_answered(&session, 0));
    assert_eq!(score(&session), 1);
    // The cursor moves 0 -> 1 -> 2 -> 0; every position wraps to the one question.
    new_round(&mut session);
    assert_eq!(prompt(&session), "set 0 q0");
    assert!(!has_answered(&session, 0));
    assert_eq!(score(&session), 0);
    assert_eq!(answer_was_correct(&session, 0), -1);
}

#[test]
fn load_question_set_selects_the_set_and_starts_afresh() {
    let mut session = Session::with_bank(bank_of(&[2, 2, 2]));
    new_round(&mut session);
    assert!(answer(&mut session, 0, true));
    new_round(&mut session);
    assert_eq!(prompt(&session), "set 0 q1");

    load_question_set(&mut session, 1);
    assert_eq!(get_current_set_index(&session), 1);
    assert_eq!(prompt(&session), "set 1 q0");
    assert_eq!(team_score(&session, 0), 0);
    assert_eq!(team_score(&session, 1), 0);
    assert_eq!(current_team_index(&session), 0);
    new_round(&mut session);
    assert_eq!(prompt(&session), "set 1 q1");
}

#[test]
fn set_index_wraps_round_the_bank() {
    let mut session = Session::with_bank(bank_of(&[2, 2, 2]));
    load_question_set(&mut session, 4);
    // The index is stored wrapped round the three sets.
    assert_eq!(get_current_set_index(&session), 1);
    assert_eq!(prompt(&session), "set 1 q0");
    load_question_set(&mut session, 3);
    assert_eq!(get_current_set_index(&session), 0);
    assert_eq!(prompt(&session), "set 0 q0");
    load_question_set(&mut session, usize::MAX);
    assert_eq!(get_current_set_index(&session), usize::MAX % 3);
    assert_eq!(prompt(&session), format!("set {} q0", usize::MAX % 3));
    new_round(&mut session);
    assert_eq!(prompt(&session), format!("set {} q1", usize::MAX % 3));
}

#[test]
fn set_index_within_the_bank_is_stored_as_it_is() {
    let mut session = Session::with_bank(bank_of(&[1, 1, 1]));
    for index in 0..3 {
        load_question_set(&mut session, index);
        assert_eq!(get_current_set_index(&session), index);
        assert_eq!(prompt(&session), format!("set {} q0", index));
    }
}

#[test]
fn set_index_on_an_empty_bank_is_stored_as_given() {
    let mut session = Session::new();
    load_question_set(&mut session, 7);
    assert_eq!(get_current_set_index(&session), 7);
    assert_eq!(prompt(&session), "");
    assert_eq!(options_len(&session), 0);
}

#[test]
fn bank_accessors() {
    let session = Session::with_bank(bank_of(&[1, 2]));
    assert_eq!(get_sets_count(&session), 2);
    assert_eq!(get_set_name(&session, 0), "set 0");
    assert_eq!(get_set_name(&session, 1), "set 1");
    assert_eq!(get_set_name(&session, 2), "");
    assert_eq!(get_current_set_index(&session), 0);
}

#[test]
fn loading_a_question_keeps_teams_and_turn() {
    let mut session = Session::new();
    init_empty_game(&mut session);
    load_yesno_question(&mut session, "first".to_string());
    add_yesno_option(&mut session, "a".to_string(), true);
    add_yesno_option(&mut session, "b".to_string(), true);
    assert!(answer(&mut session, 0, true)); // A: 1, turn to B
    load_reveal_question(&mut session, "second".to_string());
    assert_eq!(prompt(&session), "second");
    assert_eq!(question_type(&session), 2);
    assert_eq!(options_len(&session), 0);
    assert_eq!(score(&session), 0);
    assert_eq!(team_score(&session, 0), 1);
    assert_eq!(team_round_score(&session, 0), 1);
    assert_eq!(current_team_index(&session), 1);
}

#[test]
fn items_are_added_only_to_a_question_of_their_format() {
    let mut session = Session::new();
    init_empty_game(&mut session);
    load_ranking_question(&mut session, "rank".to_string());
    add_yesno_option(&mut session, "a".to_string(), true);
    add_reveal_option(&mut session, "a".to_string(), "b".to_string());
    assert_eq!(options_len(&session), 0);
    assert_eq!(reveal_items_len(&session), 0);
    add_ranking_item(&mut session, "a".to_string(), 1);
    assert_eq!(ranking_items_len(&session), 1);

    load_yesno_question(&mut session, "yes or no".to_string());
    add_ranking_item(&mut session, "a".to_string(), 1);
    assert_eq!(ranking_items_len(&session), 0);
    add_yesno_option(&mut session, "a".to_string(), true);
    assert_eq!(options_len(&session), 1);
}

#[test]
fn next_question_from_json_reactivates_teams_and_keeps_the_question() {
    let mut session = Session::new();
    init_empty_game(&mut session);
    load_yesno_question(&mut session, "q".to_string());
    add_yesno_option(&mut session, "a".to_string(), true);
    add_yesno_option(&mut session, "b".to_string(), true);
    assert!(answer(&mut session, 0, true)); // A: 1
    assert!(!answer(&mut session, 1, false)); // B out
    next_question_from_json(&mut session);
    assert!(team_active(&session, 0));
    assert!(team_active(&session, 1));
    assert_eq!(team_round_score(&session, 0), 0);
    assert_eq!(team_score(&session, 0), 1);
    assert_eq!(current_team_index(&session), 0);
    // The question is left for the caller to replace.
    assert_eq!(prompt(&session), "q");
    assert_eq!(score(&session), 1);
    assert!(has_answered(&session, 0));
}

#[test]
fn next_question_from_json_moves_the_cursor_that_new_round_continues_from() {
    let mut session = Session::with_bank(bank_of(&[3]));
    new_round(&mut session); // cursor 0
    next_question_from_json(&mut session); // cursor 1, question unchanged
    assert_eq!(prompt(&session), "set 0 q0");
    new_round(&mut session); // cursor 2
    assert_eq!(prompt(&session), "set 0 q2");
}

#[test]
fn init_empty_game_replaces_a_running_game() {
    let mut session = Session::with_bank(bank_of(&[1]));
    new_round(&mut session);
    assert!(answer(&mut session, 0, true));
    init_empty_game(&mut session);
    assert_eq!(prompt(&session), "");
    assert_eq!(options_len(&session), 0);
    assert_eq!(team_score(&session, 0), 0);
    assert_eq!(current_team_index(&session), 0);
    assert_eq!(get_sets_count(&session), 1);
}

#[test]
fn a_new_session_has_room_for_every_command() {
    let mut session = Session::new();
    assert!(session.has_room());
    assert!(session.cursor_has_room());
    init_empty_game(&mut session);
    assert!(session.has_room());
    assert!(session.cursor_has_room());
}
