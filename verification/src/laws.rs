//! Laws of the scoring and turn rules, proved from the definitions in
//! [`crate::game`] and [`crate::question`]. Each law holds of every
//! well-formed session.

use vstd::prelude::*;
use vstd::arithmetic::div_mod::{lemma_mod_pos_bound, lemma_small_mod};
use crate::bank::BankView;
use crate::game::{other_team, Answer, GameView};
use crate::session::SessionView;
use crate::question::{
    count_where, floor_sub, judged_option, judged_reveal, placed_item, ItemsView, OptionView,
    QuestionType, QuestionView, RankingItemView, RevealItemView, Verdict,
};

verus! {

/// Every transition keeps a session well formed.
pub proof fn law_well_formed_is_kept(g: GameView, a: Answer, q: QuestionView, index: nat)
    requires
        g.wf(),
    ensures
        g.after(a).wf(),
        g.resigned().wf(),
        g.reactivated().wf(),
        g.round_started(q, index).wf(),
        g.cursor_advanced().wf(),
        g.with_question(q).wf(),
        GameView::fresh(q).wf(),
{
}

/// A right answer is worth exactly one point: the question's score, the
/// answering team's score and its streak each grow by one, the judgement is
/// counted, the team stays active and the opponent is left as it was.
pub proof fn law_right_answer_scores_one(g: GameView, a: Answer)
    requires
        g.wf(),
        g.judges(a),
        g.is_right(a),
    ensures
        ({
            let h = g.after(a);
            let t = g.current_team;
            &&& h.question.score == g.question.score + 1
            &&& h.question.answered_count == g.question.answered_count + 1
            &&& h.teams[t].score == g.teams[t].score + 1
            &&& h.teams[t].round_score == g.teams[t].round_score + 1
            &&& h.teams[t].active
            &&& h.teams[other_team(t)] == g.teams[other_team(t)]
        }),
{
}

/// In a run of right answers, whoever gives them, every answer is worth one
/// point: the question's score grows by the length of the run, each team's
/// score grows by as much as its streak, the two gains add up to the length
/// of the run, and nobody goes out.
pub proof fn law_right_answers_add_up(g: GameView, answers: Seq<Answer>)
    requires
        g.wf(),
        g.all_judged_right(answers),
    ensures
        ({
            let h = g.after_all(answers);
            &&& h.wf()
            &&& h.question.score == g.question.score + answers.len()
            &&& h.question.answered_count == g.question.answered_count + answers.len()
            &&& h.teams[0].score - g.teams[0].score == h.teams[0].round_score
                - g.teams[0].round_score
            &&& h.teams[1].score - g.teams[1].score == h.teams[1].round_score
                - g.teams[1].round_score
            &&& h.teams[0].score >= g.teams[0].score
            &&& h.teams[1].score >= g.teams[1].score
            &&& (h.teams[0].score - g.teams[0].score) + (h.teams[1].score - g.teams[1].score)
                == answers.len()
            &&& h.teams[0].active == g.teams[0].active
            &&& h.teams[1].active == g.teams[1].active
        }),
    decreases answers.len(),
{
    if answers.len() > 0 {
        law_right_answer_scores_one(g, answers.first());
        law_right_answers_add_up(g.after(answers.first()), answers.drop_first());
    }
}

/// A run of right answers by one team, its opponent being out: the team
/// keeps the turn, and its score, its streak and the question's score each
/// grow by exactly one per answer.
pub proof fn law_streak_of_one_team(g: GameView, answers: Seq<Answer>)
    requires
        g.wf(),
        !g.opponent().active,
        g.all_judged_right(answers),
    ensures
        ({
            let h = g.after_all(answers);
            let t = g.current_team;
            &&& h.current_team == t
            &&& h.teams[t].score == g.teams[t].score + answers.len()
            &&& h.teams[t].round_score == g.teams[t].round_score + answers.len()
            &&& h.question.score == g.question.score + answers.len()
            &&& h.teams[t].active == g.teams[t].active
            &&& h.teams[other_team(t)] == g.teams[other_team(t)]
        }),
    decreases answers.len(),
{
    if answers.len() > 0 {
        law_right_answer_scores_one(g, answers.first());
        law_streak_of_one_team(g.after(answers.first()), answers.drop_first());
    }
}

/// Whatever the opponent does in between, a team whose judged answers are
/// all right gains exactly one point of score and one of streak per answer,
/// and stays as active as it was.
pub proof fn law_team_gains_one_per_right_answer(g: GameView, answers: Seq<Answer>, t: int)
    requires
        g.wf(),
        0 <= t < 2,
        g.all_right_for(answers, t),
    ensures
        ({
            let h = g.after_all(answers);
            &&& h.wf()
            &&& h.teams[t].score == g.teams[t].score + g.judged_for(answers, t)
            &&& h.teams[t].round_score == g.teams[t].round_score + g.judged_for(answers, t)
            &&& h.teams[t].active == g.teams[t].active
        }),
    decreases answers.len(),
{
    if answers.len() > 0 {
        law_team_gains_one_per_right_answer(g.after(answers.first()), answers.drop_first(), t);
    }
}

/// The question's score tracks the streaks: once it is the sum of the two
/// streaks, as it is when a round starts on a question without points, it
/// stays so under every answer and every resignation. A clawback then takes
/// exactly the streak, with nothing lost to the floor.
pub proof fn law_question_score_tracks_streaks(g: GameView, a: Answer, q: QuestionView, index: nat)
    requires
        g.wf(),
    ensures
        g.score_matches_streaks() ==> g.after(a).score_matches_streaks(),
        g.score_matches_streaks() ==> g.resigned().score_matches_streaks(),
        g.score_matches_streaks() && g.judges(a) && !g.is_right(a) ==> g.after(a).question.score
            == g.question.score - g.current().round_score,
        q.score == 0 ==> g.round_started(q, index).score_matches_streaks(),
        q.score == 0 ==> GameView::fresh(q).score_matches_streaks(),
{
}

/// Streak clawback: a wrong answer of a team whose streak is `k` takes `k`
/// points, floored at zero, from the team's score and from the question's
/// score, clears the streak and puts the team out. The opponent is left as
/// it was and the judgement is counted.
pub proof fn law_streak_clawback(g: GameView, a: Answer)
    requires
        g.wf(),
        g.judges(a),
        !g.is_right(a),
    ensures
        ({
            let h = g.after(a);
            let t = g.current_team;
            let k = g.teams[t].round_score;
            &&& h.teams[t].score == floor_sub(g.teams[t].score, k)
            &&& h.question.score == floor_sub(g.question.score, k)
            &&& h.teams[t].round_score == 0
            &&& !h.teams[t].active
            &&& h.teams[other_team(t)] == g.teams[other_team(t)]
            &&& h.question.answered_count == g.question.answered_count + 1
        }),
{
}

/// A team that is out stays out under every answer and every resignation;
/// only the start of a round brings it back.
pub proof fn law_elimination_is_final(g: GameView, a: Answer, t: int)
    requires
        g.wf(),
        0 <= t < 2,
        !g.teams[t].active,
    ensures
        !g.after(a).teams[t].active,
        !g.resigned().teams[t].active,
        g.reactivated().teams[t].active,
{
}

/// The turn never passes to a team that is out: after any judged answer the
/// turn pointer names an active team, unless both teams are out.
pub proof fn law_turn_goes_to_active_team(g: GameView, a: Answer)
    requires
        g.wf(),
        g.judges(a),
    ensures
        g.after(a).turn_is_sound(),
{
}

/// A turn pointer that names an active team whenever one is active keeps
/// doing so under every transition; a new session and a new round start
/// that way, and a resignation always ends that way.
pub proof fn law_turn_soundness_is_kept(g: GameView, a: Answer, q: QuestionView, index: nat)
    requires
        g.wf(),
    ensures
        g.turn_is_sound() ==> g.after(a).turn_is_sound(),
        g.turn_is_sound() ==> g.with_question(q).turn_is_sound(),
        g.resigned().turn_is_sound(),
        g.reactivated().turn_is_sound(),
        g.round_started(q, index).turn_is_sound(),
        g.cursor_advanced().turn_is_sound(),
        GameView::fresh(q).turn_is_sound(),
{
}

/// Answering again an option or a reveal item that has a verdict changes
/// nothing, whatever is submitted. While the current team is active the
/// reply is the stored verdict; once it is out the answer is rejected.
pub proof fn law_replay_changes_nothing(g: GameView, a: Answer)
    requires
        g.wf(),
        a is YesNo || a is Reveal,
        g.stored_verdict(a).is_answered(),
    ensures
        g.after(a) == g,
        g.current().active ==> g.reply(a) == g.stored_verdict(a).was_correct(),
        !g.current().active ==> !g.reply(a),
{
}

/// Right after an option was judged, answering it again, with either
/// classification, gives the first verdict and changes nothing.
pub proof fn law_option_verdict_is_replayed(g: GameView, index: int, yes: bool, again: bool)
    requires
        g.wf(),
        g.judges(Answer::YesNo(index, yes)),
    ensures
        ({
            let h = g.after(Answer::YesNo(index, yes));
            &&& h.after(Answer::YesNo(index, again)) == h
            &&& h.reply(Answer::YesNo(index, again)) == g.reply(Answer::YesNo(index, yes))
            &&& h.question.option_verdict(index) == Verdict::of(g.reply(Answer::YesNo(index, yes)))
        }),
{
}

/// Right after a reveal item was judged, marking it again, with either
/// judgement, gives the first verdict and changes nothing.
pub proof fn law_reveal_verdict_is_replayed(g: GameView, index: int, correct: bool, again: bool)
    requires
        g.wf(),
        g.judges(Answer::Reveal(index, correct)),
    ensures
        ({
            let h = g.after(Answer::Reveal(index, correct));
            &&& h.after(Answer::Reveal(index, again)) == h
            &&& h.reply(Answer::Reveal(index, again)) == correct
            &&& h.question.reveal_verdict(index) == Verdict::of(correct)
        }),
{
}

/// A ranking item keeps the first position it was given: a second position
/// for the same item, equal or different, is rejected and changes nothing.
pub proof fn law_position_is_final(g: GameView, index: int, position: int)
    requires
        g.wf(),
        g.question.has_ranking_item(index),
        g.question.ranking_items()[index].user_position is Some,
    ensures
        g.after(Answer::Position(index, position)) == g,
        !g.reply(Answer::Position(index, position)),
{
}

/// Once a position has been accepted for an item, every later position for
/// it is rejected.
pub proof fn law_second_position_is_rejected(g: GameView, index: int, first: int, second: int)
    requires
        g.wf(),
        g.judges(Answer::Position(index, first)),
    ensures
        ({
            let h = g.after(Answer::Position(index, first));
            &&& h.question.ranking_user_position(index) == Some(first as nat)
            &&& h.after(Answer::Position(index, second)) == h
            &&& !h.reply(Answer::Position(index, second))
        }),
{
}

/// Completion of a yes/no or reveal question on which no more judgements
/// have been counted than it has items: it is complete exactly when the
/// count has reached the number of items or both teams are out.
pub proof fn law_completion_by_count(g: GameView)
    requires
        g.wf(),
        g.question.kind() != QuestionType::Ranking,
        g.question.answered_count <= g.question.item_count(),
    ensures
        g.is_completed() <==> g.question.answered_count == g.question.item_count() || g.both_out(),
{
}

/// A ranking question is complete exactly when both teams are out: neither
/// positions nor a submitted ranking end it, and a judged ranking leaves it
/// open as long as a team is active.
pub proof fn law_ranking_ends_with_elimination(g: GameView)
    requires
        g.wf(),
        g.question.kind() == QuestionType::Ranking,
    ensures
        g.is_completed() <==> g.both_out(),
        g.judges(Answer::Ranking) && g.is_right(Answer::Ranking) ==> !g.after(
            Answer::Ranking,
        ).is_completed(),
{
}

/// No more items satisfy a predicate than there are items.
proof fn lemma_count_is_bounded<T>(items: Seq<T>, p: spec_fn(T) -> bool)
    ensures
        count_where(items, p) <= items.len(),
    decreases items.len(),
{
    if items.len() > 0 {
        lemma_count_is_bounded(items.drop_last(), p);
    }
}

/// Replacing an item that does not satisfy a predicate by one that does
/// raises the count by one.
proof fn lemma_count_after_update<T>(items: Seq<T>, p: spec_fn(T) -> bool, i: int, item: T)
    requires
        0 <= i < items.len(),
        !p(items[i]),
        p(item),
    ensures
        count_where(items.update(i, item), p) == count_where(items, p) + 1,
    decreases items.len(),
{
    let updated = items.update(i, item);
    if i == items.len() - 1 {
        assert(updated.drop_last() =~= items.drop_last());
    } else {
        assert(updated.drop_last() =~= items.drop_last().update(i, item));
        lemma_count_after_update(items.drop_last(), p, i, item);
    }
}

/// An item that does not satisfy a predicate, appended to a list, leaves
/// the count as it was.
proof fn lemma_count_after_push<T>(items: Seq<T>, p: spec_fn(T) -> bool, item: T)
    requires
        !p(item),
    ensures
        count_where(items.push(item), p) == count_where(items, p),
{
    assert(items.push(item).drop_last() =~= items);
}

/// No more items carry a judgement than the question has.
pub proof fn law_judged_items_are_items(q: QuestionView)
    ensures
        q.judged_items() <= q.item_count(),
{
    match q.items {
        ItemsView::YesNo(options) => lemma_count_is_bounded(options, judged_option()),
        ItemsView::Ranking(items) => lemma_count_is_bounded(items, placed_item()),
        ItemsView::Reveal(items) => lemma_count_is_bounded(items, judged_reveal()),
    }
}

/// The count of judgements and the items that carry one move together: an
/// answer that is judged on an item raises both by one, and only a judged
/// whole ranking raises the count alone. No answer changes the number of items.
pub proof fn law_count_tracks_judged_items(g: GameView, a: Answer)
    requires
        g.wf(),
    ensures
        ({
            let h = g.after(a);
            let ranking_judged: int = if a is Ranking && g.judges(a) {
                1
            } else {
                0
            };
            &&& h.question.item_count() == g.question.item_count()
            &&& h.question.answered_count - h.question.judged_items() == g.question.answered_count
                - g.question.judged_items() + ranking_judged
        }),
{
    if g.judges(a) {
        match a {
            Answer::YesNo(index, _) => {
                let options = g.question.options();
                lemma_count_after_update(
                    options,
                    judged_option(),
                    index,
                    OptionView { verdict: Verdict::of(g.is_right(a)), ..options[index] },
                );
            },
            Answer::Position(index, position) => {
                let items = g.question.ranking_items();
                lemma_count_after_update(
                    items,
                    placed_item(),
                    index,
                    RankingItemView { user_position: Some(position as nat), ..items[index] },
                );
            },
            Answer::Ranking => {},
            Answer::Reveal(index, correct) => {
                let items = g.question.reveal_items();
                lemma_count_after_update(
                    items,
                    judged_reveal(),
                    index,
                    RevealItemView { verdict: Verdict::of(correct), ..items[index] },
                );
            },
        }
    }
}

/// As long as no whole ranking is judged, the count of judgements is the
/// number of items that carry one, and so never exceeds the number of items.
pub proof fn law_count_stays_within_items(g: GameView, a: Answer)
    requires
        g.wf(),
        g.question.answered_count == g.question.judged_items(),
        !(a is Ranking && g.judges(a)),
    ensures
        g.question.answered_count <= g.question.item_count(),
        g.after(a).question.answered_count == g.after(a).question.judged_items(),
        g.after(a).question.answered_count <= g.after(a).question.item_count(),
{
    law_count_tracks_judged_items(g, a);
    law_judged_items_are_items(g.question);
    law_judged_items_are_items(g.after(a).question);
}

/// An empty question has no judgement counted and none on an item, and a new
/// item brings none.
pub proof fn law_new_items_carry_no_judgement(
    q: QuestionView,
    kind: QuestionType,
    text: Seq<char>,
    answer: Seq<char>,
    is_yes: bool,
    position: nat,
)
    ensures
        QuestionView::empty(kind, text).answered_count == 0,
        QuestionView::empty(kind, text).judged_items() == 0,
        q.with_option(text, is_yes).judged_items() == q.judged_items(),
        q.with_ranking_item(text, position).judged_items() == q.judged_items(),
        q.with_reveal_item(text, answer).judged_items() == q.judged_items(),
{
    match q.items {
        ItemsView::YesNo(options) => lemma_count_after_push(
            options,
            judged_option(),
            OptionView::fresh(text, is_yes),
        ),
        ItemsView::Ranking(items) => lemma_count_after_push(
            items,
            placed_item(),
            RankingItemView::fresh(text, position),
        ),
        ItemsView::Reveal(items) => lemma_count_after_push(
            items,
            judged_reveal(),
            RevealItemView::fresh(text, answer),
        ),
    }
}

/// The index that selecting a set stores names a set of a bank that has
/// any, an index that names a set is stored as it is, and a lookup through
/// the stored index finds what a lookup through the given index finds.
pub proof fn law_selected_set_is_in_range(bank: BankView, set_index: nat, question_index: nat)
    ensures
        bank.sets.len() > 0 ==> bank.selected_set(set_index) < bank.sets.len(),
        set_index < bank.sets.len() ==> bank.selected_set(set_index) == set_index,
        bank.selected_set(bank.selected_set(set_index)) == bank.selected_set(set_index),
        bank.question_at(bank.selected_set(set_index), question_index) == bank.question_at(
            set_index,
            question_index,
        ),
{
    if bank.sets.len() > 0 {
        lemma_mod_pos_bound(set_index as int, bank.sets.len() as int);
        lemma_small_mod(bank.selected_set(set_index), bank.sets.len());
        if set_index < bank.sets.len() {
            lemma_small_mod(set_index, bank.sets.len());
        }
    }
}

/// Once the selected index names a set, it goes on doing so: loading a set
/// always stores such an index, the start-up state has one, and no other
/// command touches the selection or the bank.
pub proof fn law_selection_stays_in_range(
    s: SessionView,
    a: Answer,
    set_index: nat,
    kind: QuestionType,
    prompt: Seq<char>,
    q: QuestionView,
)
    ensures
        s.set_loaded(set_index).selection_in_range(),
        SessionView::with_bank(s.bank).selection_in_range(),
        s.selection_in_range() ==> {
            &&& s.after(a).selection_in_range()
            &&& s.resigned().selection_in_range()
            &&& s.round_started().selection_in_range()
            &&& s.emptied().selection_in_range()
            &&& s.question_loaded(kind, prompt).selection_in_range()
            &&& s.with_question(q).selection_in_range()
            &&& s.cursor_advanced().selection_in_range()
        },
{
    law_selected_set_is_in_range(s.bank, set_index, 0);
}

} // verus!
