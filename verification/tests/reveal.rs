use trivia_engine::{
    add_reveal_option, current_team_index, init_empty_game, is_completed, load_reveal_question,
    mark_reveal, question_type, resign_current_team, reveal_item_answer, reveal_item_text,
    reveal_items_len, score, team_active, team_round_score, team_score, Session,
};

fn reveal_session(n: usize) -> Session {
    let mut session = Session::new();
    init_empty_game(&mut session);
    load_reveal_question(&mut session, "Name the capital".to_string());
    for i in 0..n {
        add_reveal_option(&mut session, format!("country {}", i), format!("capital {}", i));
    }
    session
}

#[test]
fn reveal_records_the_presenters_judgement() {
    let mut session = reveal_session(3);
    assert_eq!(question_type(&session), 2);
    assert_eq!(reveal_items_len(&session), 3);
    assert!(mark_reveal(&mut session, 0, true));
    assert_eq!(team_score(&session, 0), 1);
    assert_eq!(score(&session), 1);
    assert_eq!(current_team_index(&session), 1);
    assert!(!mark_reveal(&mut session, 1, false));
    assert!(!team_active(&session, 1));
    assert_eq!(current_team_index(&session), 0);
    assert!(mark_reveal(&mut session, 2, true));
    assert_eq!(team_score(&session, 0), 2);
    assert_eq!(team_round_score(&session, 0), 2);
    assert_eq!(score(&session), 2);
    assert!(is_completed(&session));
}

#[test]
fn judged_reveal_item_replays_its_verdict() {
    let mut session = reveal_session(2);
    assert!(mark_reveal(&mut session, 0, true));
    assert!(mark_reveal(&mut session, 0, false));
    assert!(mark_reveal(&mut session, 0, true));
    assert_eq!(team_score(&session, 0), 1);
    assert_eq!(team_score(&session, 1), 0);
    assert_eq!(score(&session), 1);
    assert_eq!(current_team_index(&session), 1);
    assert!(team_active(&session, 1));
    assert!(!is_completed(&session));
}

#[test]
fn reveal_marked_wrong_replays_false() {
    let mut session = reveal_session(2);
    assert!(!mark_reveal(&mut session, 0, false));
    assert!(!mark_reveal(&mut session, 0, true));
    assert_eq!(team_score(&session, 1), 0);
    assert!(team_active(&session, 1));
}

#[test]
fn replay_is_refused_once_the_current_team_is_out() {
    let mut session = reveal_session(3);
    assert!(mark_reveal(&mut session, 0, true)); // A right
    assert!(!mark_reveal(&mut session, 1, false)); // B out
    resign_current_team(&mut session); // A out
    assert!(!mark_reveal(&mut session, 0, true));
    assert_eq!(team_score(&session, 0), 1);
    assert_eq!(score(&session), 1);
}

#[test]
fn reveal_out_of_range_is_rejected() {
    let mut session = reveal_session(1);
    assert!(!mark_reveal(&mut session, 1, true));
    assert_eq!(score(&session), 0);
    assert_eq!(current_team_index(&session), 0);
    assert!(!is_completed(&session));
}

#[test]
fn reveal_by_a_team_that_is_out_is_rejected() {
    let mut session = reveal_session(1);
    resign_current_team(&mut session);
    resign_current_team(&mut session);
    assert!(!mark_reveal(&mut session, 0, true));
    assert_eq!(score(&session), 0);
}

#[test]
fn reveal_streak_is_taken_back() {
    let mut session = reveal_session(4);
    resign_current_team(&mut session); // A out, B plays alone
    assert!(mark_reveal(&mut session, 0, true));
    assert!(mark_reveal(&mut session, 1, true));
    assert_eq!(team_score(&session, 1), 2);
    assert!(!mark_reveal(&mut session, 2, false));
    assert_eq!(team_score(&session, 1), 0);
    assert_eq!(team_round_score(&session, 1), 0);
    assert_eq!(score(&session), 0);
    assert!(is_completed(&session));
}

#[test]
fn reveal_accessors() {
    let session = reveal_session(2);
    assert_eq!(reveal_item_text(&session, 0), "country 0");
    assert_eq!(reveal_item_answer(&session, 1), "capital 1");
    assert_eq!(reveal_item_text(&session, 2), "");
    assert_eq!(reveal_item_answer(&session, 2), "");
}
