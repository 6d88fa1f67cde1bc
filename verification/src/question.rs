//! The question model: the three question formats and the per-item state
//! that records how each item has been answered so far.
//!
//! Every executable type has a mathematical view (`@`); all contracts in the
//! crate are stated over these views.

use vstd::prelude::*;

verus! {

/// Smallest position a ranking item can be given.
pub const MIN_POSITION: usize = 1;

/// Largest position a ranking item can be given.
pub const MAX_POSITION: usize = 10;

/// `a - b`, floored at zero.
pub open spec fn floor_sub(a: nat, b: nat) -> nat {
    if a >= b {
        (a - b) as nat
    } else {
        0
    }
}

/// The three question formats.
#[derive(Clone, Copy, PartialEq, Eq, Debug, Structural)]
pub enum QuestionType {
    /// Each option is classified as "yes" or "no".
    YesNo,
    /// Each item is given a position in an order.
    Ranking,
    /// Each item is revealed and judged by the presenter.
    Reveal,
}

impl QuestionType {
    /// The numeric tag of a format: 0 for yes/no, 1 for ranking, 2 for reveal.
    pub open spec fn spec_tag(self) -> u8 {
        match self {
            QuestionType::YesNo => 0,
            QuestionType::Ranking => 1,
            QuestionType::Reveal => 2,
        }
    }

    /// Returns the numeric tag of this format.
    #[verifier::when_used_as_spec(spec_tag)]
    pub fn tag(self) -> (t: u8)
        ensures
            t == self.spec_tag(),
    {
        match self {
            QuestionType::YesNo => 0,
            QuestionType::Ranking => 1,
            QuestionType::Reveal => 2,
        }
    }
}

/// The recorded outcome of one item: not judged yet, judged wrong, or judged right.
#[derive(Clone, Copy, PartialEq, Eq, Debug, Structural)]
pub enum Verdict {
    Unanswered,
    Incorrect,
    Correct,
}

impl Verdict {
    /// The verdict that records a judgement.
    pub open spec fn of(correct: bool) -> Verdict {
        if correct {
            Verdict::Correct
        } else {
            Verdict::Incorrect
        }
    }

    /// Whether a judgement has been recorded.
    pub open spec fn spec_is_answered(self) -> bool {
        self != Verdict::Unanswered
    }

    /// Whether the recorded judgement is "correct". An unanswered item counts as not correct.
    pub open spec fn spec_was_correct(self) -> bool {
        self == Verdict::Correct
    }

    /// The number that an item's verdict is reported as: -1 while unanswered,
    /// 0 once judged wrong, 1 once judged right.
    pub open spec fn spec_code(self) -> int {
        match self {
            Verdict::Unanswered => -1,
            Verdict::Incorrect => 0,
            Verdict::Correct => 1,
        }
    }

    /// Builds the verdict that records a judgement.
    pub fn judged(correct: bool) -> (v: Verdict)
        ensures
            v == Verdict::of(correct),
    {
        if correct {
            Verdict::Correct
        } else {
            Verdict::Incorrect
        }
    }

    /// Returns whether a judgement has been recorded.
    #[verifier::when_used_as_spec(spec_is_answered)]
    pub fn is_answered(self) -> (b: bool)
        ensures
            b == self.spec_is_answered(),
    {
        match self {
            Verdict::Unanswered => false,
            Verdict::Incorrect => true,
            Verdict::Correct => true,
        }
    }

    /// Returns whether the recorded judgement is "correct".
    #[verifier::when_used_as_spec(spec_was_correct)]
    pub fn was_correct(self) -> (b: bool)
        ensures
            b == self.spec_was_correct(),
    {
        match self {
            Verdict::Unanswered => false,
            Verdict::Incorrect => false,
            Verdict::Correct => true,
        }
    }

    /// Returns the number that this verdict is reported as: -1, 0 or 1.
    pub fn code(self) -> (c: i32)
        ensures
            c == self.spec_code(),
    {
        match self {
            Verdict::Unanswered => -1,
            Verdict::Incorrect => 0,
            Verdict::Correct => 1,
        }
    }
}

/// Mathematical view of one yes/no option.
#[verifier::ext_equal]
pub struct OptionView {
    pub text: Seq<char>,
    /// Whether "yes" is the right answer.
    pub is_yes: bool,
    pub verdict: Verdict,
}

/// Mathematical view of one ranking item.
#[verifier::ext_equal]
pub struct RankingItemView {
    pub text: Seq<char>,
    pub correct_position: nat,
    /// The position a team has given this item, if any.
    pub user_position: Option<nat>,
}

/// Mathematical view of one reveal item.
#[verifier::ext_equal]
pub struct RevealItemView {
    pub text: Seq<char>,
    pub answer: Seq<char>,
    pub verdict: Verdict,
}

/// The items of a question, one list shape per format.
#[verifier::ext_equal]
pub enum ItemsView {
    YesNo(Seq<OptionView>),
    Ranking(Seq<RankingItemView>),
    Reveal(Seq<RevealItemView>),
}

/// Mathematical view of a question.
#[verifier::ext_equal]
pub struct QuestionView {
    pub prompt: Seq<char>,
    pub items: ItemsView,
    /// Net points earned on this question.
    pub score: nat,
    /// Number of judgements made on this question.
    pub answered_count: nat,
}

impl OptionView {
    /// An option as authored: not answered yet.
    pub open spec fn fresh(text: Seq<char>, is_yes: bool) -> OptionView {
        OptionView { text, is_yes, verdict: Verdict::Unanswered }
    }
}

impl RankingItemView {
    /// A ranking item as authored: no position given yet.
    pub open spec fn fresh(text: Seq<char>, correct_position: nat) -> RankingItemView {
        RankingItemView { text, correct_position, user_position: None }
    }

    /// Whether the item has been given its correct position.
    pub open spec fn well_placed(self) -> bool {
        self.user_position == Some(self.correct_position)
    }
}

impl RevealItemView {
    /// A reveal item as authored: not judged yet.
    pub open spec fn fresh(text: Seq<char>, answer: Seq<char>) -> RevealItemView {
        RevealItemView { text, answer, verdict: Verdict::Unanswered }
    }
}

impl ItemsView {
    /// The empty item list of a format.
    pub open spec fn empty(kind: QuestionType) -> ItemsView {
        match kind {
            QuestionType::YesNo => ItemsView::YesNo(Seq::empty()),
            QuestionType::Ranking => ItemsView::Ranking(Seq::empty()),
            QuestionType::Reveal => ItemsView::Reveal(Seq::empty()),
        }
    }
}

impl QuestionView {
    /// A question of the given format with no items and nothing scored.
    pub open spec fn empty(kind: QuestionType, prompt: Seq<char>) -> QuestionView {
        QuestionView { prompt, items: ItemsView::empty(kind), score: 0, answered_count: 0 }
    }

    /// The stand-in question used when no content is available: an empty yes/no question.
    pub open spec fn placeholder() -> QuestionView {
        QuestionView::empty(QuestionType::YesNo, Seq::empty())
    }

    /// The format of the question.
    pub open spec fn kind(self) -> QuestionType {
        match self.items {
            ItemsView::YesNo(_) => QuestionType::YesNo,
            ItemsView::Ranking(_) => QuestionType::Ranking,
            ItemsView::Reveal(_) => QuestionType::Reveal,
        }
    }

    /// The yes/no options; empty for the other formats.
    pub open spec fn options(self) -> Seq<OptionView> {
        match self.items {
            ItemsView::YesNo(options) => options,
            _ => Seq::empty(),
        }
    }

    /// The ranking items; empty for the other formats.
    pub open spec fn ranking_items(self) -> Seq<RankingItemView> {
        match self.items {
            ItemsView::Ranking(items) => items,
            _ => Seq::empty(),
        }
    }

    /// The reveal items; empty for the other formats.
    pub open spec fn reveal_items(self) -> Seq<RevealItemView> {
        match self.items {
            ItemsView::Reveal(items) => items,
            _ => Seq::empty(),
        }
    }

    /// Whether `index` names a yes/no option.
    pub open spec fn has_option(self, index: int) -> bool {
        0 <= index < self.options().len()
    }

    /// Whether `index` names a ranking item.
    pub open spec fn has_ranking_item(self, index: int) -> bool {
        0 <= index < self.ranking_items().len()
    }

    /// Whether `index` names a reveal item.
    pub open spec fn has_reveal_item(self, index: int) -> bool {
        0 <= index < self.reveal_items().len()
    }

    /// Text of option `index`; empty when there is no such option.
    pub open spec fn option_text(self, index: int) -> Seq<char> {
        if self.has_option(index) {
            self.options()[index].text
        } else {
            Seq::empty()
        }
    }

    /// Whether "yes" is right for option `index`; `false` when there is no such option.
    pub open spec fn option_is_yes(self, index: int) -> bool {
        self.has_option(index) && self.options()[index].is_yes
    }

    /// Verdict of option `index`; unanswered when there is no such option.
    pub open spec fn option_verdict(self, index: int) -> Verdict {
        if self.has_option(index) {
            self.options()[index].verdict
        } else {
            Verdict::Unanswered
        }
    }

    /// Text of ranking item `index`; empty when there is no such item.
    pub open spec fn ranking_item_text(self, index: int) -> Seq<char> {
        if self.has_ranking_item(index) {
            self.ranking_items()[index].text
        } else {
            Seq::empty()
        }
    }

    /// Correct position of ranking item `index`; 0 when there is no such item.
    pub open spec fn ranking_correct_position(self, index: int) -> nat {
        if self.has_ranking_item(index) {
            self.ranking_items()[index].correct_position
        } else {
            0
        }
    }

    /// Position given to ranking item `index`; `None` when there is no such item.
    pub open spec fn ranking_user_position(self, index: int) -> Option<nat> {
        if self.has_ranking_item(index) {
            self.ranking_items()[index].user_position
        } else {
            None
        }
    }

    /// Text of reveal item `index`; empty when there is no such item.
    pub open spec fn reveal_item_text(self, index: int) -> Seq<char> {
        if self.has_reveal_item(index) {
            self.reveal_items()[index].text
        } else {
            Seq::empty()
        }
    }

    /// Answer of reveal item `index`; empty when there is no such item.
    pub open spec fn reveal_item_answer(self, index: int) -> Seq<char> {
        if self.has_reveal_item(index) {
            self.reveal_items()[index].answer
        } else {
            Seq::empty()
        }
    }

    /// Verdict of reveal item `index`; unanswered when there is no such item.
    pub open spec fn reveal_verdict(self, index: int) -> Verdict {
        if self.has_reveal_item(index) {
            self.reveal_items()[index].verdict
        } else {
            Verdict::Unanswered
        }
    }

    /// Every ranking item has been given a position.
    pub open spec fn all_positioned(self) -> bool {
        forall|i: int|
            0 <= i < self.ranking_items().len() ==> (#[trigger] self.ranking_items()[i]).user_position is Some
    }

    /// Every ranking item has been given its correct position.
    pub open spec fn ranking_correct(self) -> bool {
        forall|i: int|
            0 <= i < self.ranking_items().len() ==> (#[trigger] self.ranking_items()[i]).well_placed()
    }

    /// The question with one more, unanswered, option. Unchanged unless the format is yes/no.
    pub open spec fn with_option(self, text: Seq<char>, is_yes: bool) -> QuestionView {
        match self.items {
            ItemsView::YesNo(options) => QuestionView {
                items: ItemsView::YesNo(options.push(OptionView::fresh(text, is_yes))),
                ..self
            },
            _ => self,
        }
    }

    /// The question with one more, unpositioned, ranking item. Unchanged unless the format is ranking.
    pub open spec fn with_ranking_item(self, text: Seq<char>, correct_position: nat) -> QuestionView {
        match self.items {
            ItemsView::Ranking(items) => QuestionView {
                items: ItemsView::Ranking(items.push(RankingItemView::fresh(text, correct_position))),
                ..self
            },
            _ => self,
        }
    }

    /// The question with one more, unjudged, reveal item. Unchanged unless the format is reveal.
    pub open spec fn with_reveal_item(self, text: Seq<char>, answer: Seq<char>) -> QuestionView {
        match self.items {
            ItemsView::Reveal(items) => QuestionView {
                items: ItemsView::Reveal(items.push(RevealItemView::fresh(text, answer))),
                ..self
            },
            _ => self,
        }
    }

    /// The question with `verdict` recorded on option `index`.
    pub open spec fn with_option_verdict(self, index: int, verdict: Verdict) -> QuestionView
        recommends
            self.has_option(index),
    {
        QuestionView {
            items: ItemsView::YesNo(
                self.options().update(index, OptionView { verdict, ..self.options()[index] }),
            ),
            ..self
        }
    }

    /// The question with `position` recorded on ranking item `index`.
    pub open spec fn with_position(self, index: int, position: nat) -> QuestionView
        recommends
            self.has_ranking_item(index),
    {
        QuestionView {
            items: ItemsView::Ranking(
                self.ranking_items().update(
                    index,
                    RankingItemView { user_position: Some(position), ..self.ranking_items()[index] },
                ),
            ),
            ..self
        }
    }

    /// The question with `verdict` recorded on reveal item `index`.
    pub open spec fn with_reveal_verdict(self, index: int, verdict: Verdict) -> QuestionView
        recommends
            self.has_reveal_item(index),
    {
        QuestionView {
            items: ItemsView::Reveal(
                self.reveal_items().update(index, RevealItemView { verdict, ..self.reveal_items()[index] }),
            ),
            ..self
        }
    }

    /// The question after one judgement by a team whose streak is `streak`:
    /// one more point when correct, the streak taken back (floored at zero)
    /// when not, and one more judgement counted either way.
    pub open spec fn scored(self, correct: bool, streak: nat) -> QuestionView {
        QuestionView {
            score: if correct {
                self.score + 1
            } else {
                floor_sub(self.score, streak)
            },
            answered_count: self.answered_count + 1,
            ..self
        }
    }

    /// Number of items of the question, whatever its format.
    pub open spec fn item_count(self) -> nat {
        match self.items {
            ItemsView::YesNo(options) => options.len(),
            ItemsView::Ranking(items) => items.len(),
            ItemsView::Reveal(items) => items.len(),
        }
    }

    /// Number of items that carry a judgement: options and reveal items with
    /// a verdict, ranking items with a position.
    pub open spec fn judged_items(self) -> nat {
        match self.items {
            ItemsView::YesNo(options) => count_where(options, judged_option()),
            ItemsView::Ranking(items) => count_where(items, placed_item()),
            ItemsView::Reveal(items) => count_where(items, judged_reveal()),
        }
    }
}

/// The options that carry a verdict.
pub open spec fn judged_option() -> spec_fn(OptionView) -> bool {
    |o: OptionView| o.verdict.is_answered()
}

/// The ranking items that have been given a position.
pub open spec fn placed_item() -> spec_fn(RankingItemView) -> bool {
    |r: RankingItemView| r.user_position is Some
}

/// The reveal items that carry a verdict.
pub open spec fn judged_reveal() -> spec_fn(RevealItemView) -> bool {
    |r: RevealItemView| r.verdict.is_answered()
}

/// Number of items of `items` that satisfy `p`.
pub open spec fn count_where<T>(items: Seq<T>, p: spec_fn(T) -> bool) -> nat
    decreases items.len(),
{
    if items.len() == 0 {
        0
    } else {
        count_where(items.drop_last(), p) + if p(items.last()) {
            1nat
        } else {
            0nat
        }
    }
}

/// One option of a yes/no question.
pub struct OptionItem {
    text: String,
    is_yes: bool,
    verdict: Verdict,
}

/// One item of a ranking question.
pub struct RankingItem {
    text: String,
    correct_position: usize,
    user_position: Option<usize>,
}

/// One item of a reveal question.
pub struct RevealItem {
    text: String,
    answer: String,
    verdict: Verdict,
}

enum Items {
    YesNo(Vec<OptionItem>),
    Ranking(Vec<RankingItem>),
    Reveal(Vec<RevealItem>),
}

/// One trivia question with its items, its score and its count of judgements.
pub struct Question {
    prompt: String,
    items: Items,
    score: usize,
    answered_count: usize,
}

impl View for OptionItem {
    type V = OptionView;

    closed spec fn view(&self) -> OptionView {
        OptionView { text: self.text@, is_yes: self.is_yes, verdict: self.verdict }
    }
}

impl View for RankingItem {
    type V = RankingItemView;

    closed spec fn view(&self) -> RankingItemView {
        RankingItemView {
            text: self.text@,
            correct_position: self.correct_position as nat,
            user_position: match self.user_position {
                Some(p) => Some(p as nat),
                None => None,
            },
        }
    }
}

impl View for RevealItem {
    type V = RevealItemView;

    closed spec fn view(&self) -> RevealItemView {
        RevealItemView { text: self.text@, answer: self.answer@, verdict: self.verdict }
    }
}

spec fn options_view(items: Seq<OptionItem>) -> Seq<OptionView> {
    Seq::new(items.len(), |i: int| items[i]@)
}

spec fn ranking_view(items: Seq<RankingItem>) -> Seq<RankingItemView> {
    Seq::new(items.len(), |i: int| items[i]@)
}

spec fn reveal_view(items: Seq<RevealItem>) -> Seq<RevealItemView> {
    Seq::new(items.len(), |i: int| items[i]@)
}

impl View for Items {
    type V = ItemsView;

    closed spec fn view(&self) -> ItemsView {
        match self {
            Items::YesNo(options) => ItemsView::YesNo(options_view(options@)),
            Items::Ranking(items) => ItemsView::Ranking(ranking_view(items@)),
            Items::Reveal(items) => ItemsView::Reveal(reveal_view(items@)),
        }
    }
}

impl View for Question {
    type V = QuestionView;

    closed spec fn view(&self) -> QuestionView {
        QuestionView {
            prompt: self.prompt@,
            items: self.items@,
            score: self.score as nat,
            answered_count: self.answered_count as nat,
        }
    }
}

impl OptionItem {
    /// Builds an unanswered option.
    pub fn new(text: String, is_yes: bool) -> (item: OptionItem)
        ensures
            item@ == OptionView::fresh(text@, is_yes),
    {
        OptionItem { text, is_yes, verdict: Verdict::Unanswered }
    }
}

impl Clone for OptionItem {
    fn clone(&self) -> (item: OptionItem)
        ensures
            item@ == self@,
    {
        OptionItem { text: self.text.clone(), is_yes: self.is_yes, verdict: self.verdict }
    }
}

impl RankingItem {
    /// Builds a ranking item that has no position yet.
    pub fn new(text: String, correct_position: usize) -> (item: RankingItem)
        ensures
            item@ == RankingItemView::fresh(text@, correct_position as nat),
    {
        RankingItem { text, correct_position, user_position: None }
    }
}

impl Clone for RankingItem {
    fn clone(&self) -> (item: RankingItem)
        ensures
            item@ == self@,
    {
        RankingItem {
            text: self.text.clone(),
            correct_position: self.correct_position,
            user_position: self.user_position,
        }
    }
}

impl RevealItem {
    /// Builds an unjudged reveal item.
    pub fn new(text: String, answer: String) -> (item: RevealItem)
        ensures
            item@ == RevealItemView::fresh(text@, answer@),
    {
        RevealItem { text, answer, verdict: Verdict::Unanswered }
    }
}

impl Clone for RevealItem {
    fn clone(&self) -> (item: RevealItem)
        ensures
            item@ == self@,
    {
        RevealItem { text: self.text.clone(), answer: self.answer.clone(), verdict: self.verdict }
    }
}

fn clone_options(items: &Vec<OptionItem>) -> (copy: Vec<OptionItem>)
    ensures
        options_view(copy@) == options_view(items@),
{
    let mut copy: Vec<OptionItem> = Vec::new();
    let mut i: usize = 0;
    while i < items.len()
        invariant
            i <= items.len(),
            copy.len() == i,
            forall|j: int| 0 <= j < i ==> copy[j]@ == items[j]@,
        decreases items.len() - i,
    {
        copy.push(items[i].clone());
        i += 1;
    }
    assert(options_view(copy@) =~= options_view(items@));
    copy
}

fn clone_ranking(items: &Vec<RankingItem>) -> (copy: Vec<RankingItem>)
    ensures
        ranking_view(copy@) == ranking_view(items@),
{
    let mut copy: Vec<RankingItem> = Vec::new();
    let mut i: usize = 0;
    while i < items.len()
        invariant
            i <= items.len(),
            copy.len() == i,
            forall|j: int| 0 <= j < i ==> copy[j]@ == items[j]@,
        decreases items.len() - i,
    {
        copy.push(items[i].clone());
        i += 1;
    }
    assert(ranking_view(copy@) =~= ranking_view(items@));
    copy
}

fn clone_reveal(items: &Vec<RevealItem>) -> (copy: Vec<RevealItem>)
    ensures
        reveal_view(copy@) == reveal_view(items@),
{
    let mut copy: Vec<RevealItem> = Vec::new();
    let mut i: usize = 0;
    while i < items.len()
        invariant
            i <= items.len(),
            copy.len() == i,
            forall|j: int| 0 <= j < i ==> copy[j]@ == items[j]@,
        decreases items.len() - i,
    {
        copy.push(items[i].clone());
        i += 1;
    }
    assert(reveal_view(copy@) =~= reveal_view(items@));
    copy
}

impl Clone for Question {
    /// Copies the question with everything recorded on it.
    fn clone(&self) -> (copy: Question)
        ensures
            copy@ == self@,
    {
        let items = match &self.items {
            Items::YesNo(options) => Items::YesNo(clone_options(options)),
            Items::Ranking(items) => Items::Ranking(clone_ranking(items)),
            Items::Reveal(items) => Items::Reveal(clone_reveal(items)),
        };
        Question {
            prompt: self.prompt.clone(),
            items,
            score: self.score,
            answered_count: self.answered_count,
        }
    }
}

impl Question {
    /// Builds a question of the given format with no items and nothing scored.
    pub fn new(kind: QuestionType, prompt: String) -> (question: Question)
        ensures
            question@ == QuestionView::empty(kind, prompt@),
    {
        let items = match kind {
            QuestionType::YesNo => Items::YesNo(Vec::new()),
            QuestionType::Ranking => Items::Ranking(Vec::new()),
            QuestionType::Reveal => Items::Reveal(Vec::new()),
        };
        let question = Question { prompt, items, score: 0, answered_count: 0 };
        assert(question@ =~~= QuestionView::empty(kind, prompt@));
        question
    }

    /// Builds the stand-in question used when no content is available.
    pub fn placeholder() -> (question: Question)
        ensures
            question@ == QuestionView::placeholder(),
    {
        Question::new(QuestionType::YesNo, String::new())
    }

    /// Appends an unanswered option. Does nothing unless the format is yes/no.
    pub fn push_option(&mut self, text: String, is_yes: bool)
        ensures
            final(self)@ == old(self)@.with_option(text@, is_yes),
    {
        match &mut self.items {
            Items::YesNo(options) => {
                options.push(OptionItem::new(text, is_yes));
            },
            _ => {},
        }
        assert(self@ =~~= old(self)@.with_option(text@, is_yes));
    }

    /// Appends an unpositioned ranking item. Does nothing unless the format is ranking.
    pub fn push_ranking_item(&mut self, text: String, correct_position: usize)
        ensures
            final(self)@ == old(self)@.with_ranking_item(text@, correct_position as nat),
    {
        match &mut self.items {
            Items::Ranking(items) => {
                items.push(RankingItem::new(text, correct_position));
            },
            _ => {},
        }
        assert(self@ =~~= old(self)@.with_ranking_item(text@, correct_position as nat));
    }

    /// Appends an unjudged reveal item. Does nothing unless the format is reveal.
    pub fn push_reveal_item(&mut self, text: String, answer: String)
        ensures
            final(self)@ == old(self)@.with_reveal_item(text@, answer@),
    {
        match &mut self.items {
            Items::Reveal(items) => {
                items.push(RevealItem::new(text, answer));
            },
            _ => {},
        }
        assert(self@ =~~= old(self)@.with_reveal_item(text@, answer@));
    }

    /// Returns the format of the question.
    pub fn kind(&self) -> (kind: QuestionType)
        ensures
            kind == self@.kind(),
    {
        match &self.items {
            Items::YesNo(_) => QuestionType::YesNo,
            Items::Ranking(_) => QuestionType::Ranking,
            Items::Reveal(_) => QuestionType::Reveal,
        }
    }

    /// Returns a copy of the prompt.
    pub fn prompt(&self) -> (prompt: String)
        ensures
            prompt@ == self@.prompt,
    {
        self.prompt.clone()
    }

    /// Returns the net points earned on this question.
    pub fn score(&self) -> (score: usize)
        ensures
            score == self@.score,
    {
        self.score
    }

    /// Returns the number of judgements made on this question.
    pub fn answered_count(&self) -> (count: usize)
        ensures
            count == self@.answered_count,
    {
        self.answered_count
    }

    /// Returns the number of yes/no options.
    pub fn options_len(&self) -> (len: usize)
        ensures
            len == self@.options().len(),
    {
        match &self.items {
            Items::YesNo(options) => options.len(),
            _ => 0,
        }
    }

    /// Returns the number of ranking items.
    pub fn ranking_items_len(&self) -> (len: usize)
        ensures
            len == self@.ranking_items().len(),
    {
        match &self.items {
            Items::Ranking(items) => items.len(),
            _ => 0,
        }
    }

    /// Returns the number of reveal items.
    pub fn reveal_items_len(&self) -> (len: usize)
        ensures
            len == self@.reveal_items().len(),
    {
        match &self.items {
            Items::Reveal(items) => items.len(),
            _ => 0,
        }
    }

    /// Returns the text of option `index`, or the empty string when there is no such option.
    pub fn option_text(&self, index: usize) -> (text: String)
        ensures
            text@ == self@.option_text(index as int),
    {
        match &self.items {
            Items::YesNo(options) => {
                if index < options.len() {
                    return options[index].text.clone();
                }
            },
            _ => {},
        }
        String::new()
    }

    /// Returns whether "yes" is right for option `index`; `false` when there is no such option.
    pub fn option_is_yes(&self, index: usize) -> (is_yes: bool)
        ensures
            is_yes == self@.option_is_yes(index as int),
    {
        match &self.items {
            Items::YesNo(options) => index < options.len() && options[index].is_yes,
            _ => false,
        }
    }

    /// Returns the verdict of option `index`; unanswered when there is no such option.
    pub fn option_verdict(&self, index: usize) -> (verdict: Verdict)
        ensures
            verdict == self@.option_verdict(index as int),
    {
        match &self.items {
            Items::YesNo(options) => {
                if index < options.len() {
                    return options[index].verdict;
                }
            },
            _ => {},
        }
        Verdict::Unanswered
    }

    /// Returns the text of ranking item `index`, or the empty string when there is no such item.
    pub fn ranking_item_text(&self, index: usize) -> (text: String)
        ensures
            text@ == self@.ranking_item_text(index as int),
    {
        match &self.items {
            Items::Ranking(items) => {
                if index < items.len() {
                    return items[index].text.clone();
                }
            },
            _ => {},
        }
        String::new()
    }

    /// Returns the correct position of ranking item `index`; 0 when there is no such item.
    pub fn ranking_correct_position(&self, index: usize) -> (position: usize)
        ensures
            position == self@.ranking_correct_position(index as int),
    {
        match &self.items {
            Items::Ranking(items) => {
                if index < items.len() {
                    return items[index].correct_position;
                }
            },
            _ => {},
        }
        0
    }

    /// Returns the position given to ranking item `index`; `None` when there is
    /// no such item or it has no position yet.
    pub fn ranking_user_position(&self, index: usize) -> (position: Option<usize>)
        ensures
            match position {
                Some(p) => self@.ranking_user_position(index as int) == Some(p as nat),
                None => self@.ranking_user_position(index as int) is None,
            },
    {
        match &self.items {
            Items::Ranking(items) => {
                if index < items.len() {
                    return items[index].user_position;
                }
            },
            _ => {},
        }
        None
    }

    /// Returns the text of reveal item `index`, or the empty string when there is no such item.
    pub fn reveal_item_text(&self, index: usize) -> (text: String)
        ensures
            text@ == self@.reveal_item_text(index as int),
    {
        match &self.items {
            Items::Reveal(items) => {
                if index < items.len() {
                    return items[index].text.clone();
                }
            },
            _ => {},
        }
        String::new()
    }

    /// Returns the answer of reveal item `index`, or the empty string when there is no such item.
    pub fn reveal_item_answer(&self, index: usize) -> (answer: String)
        ensures
            answer@ == self@.reveal_item_answer(index as int),
    {
        match &self.items {
            Items::Reveal(items) => {
                if index < items.len() {
                    return items[index].answer.clone();
                }
            },
            _ => {},
        }
        String::new()
    }

    /// Returns the verdict of reveal item `index`; unanswered when there is no such item.
    pub fn reveal_verdict(&self, index: usize) -> (verdict: Verdict)
        ensures
            verdict == self@.reveal_verdict(index as int),
    {
        match &self.items {
            Items::Reveal(items) => {
                if index < items.len() {
                    return items[index].verdict;
                }
            },
            _ => {},
        }
        Verdict::Unanswered
    }

    /// Returns whether every ranking item has been given a position.
    pub fn all_positioned(&self) -> (all: bool)
        ensures
            all == self@.all_positioned(),
    {
        match &self.items {
            Items::Ranking(items) => {
                let mut i: usize = 0;
                while i < items.len()
                    invariant
                        i <= items.len(),
                        self.items == Items::Ranking(*items),
                        forall|j: int| 0 <= j < i ==> (#[trigger] self@.ranking_items()[j]).user_position is Some,
                    decreases items.len() - i,
                {
                    if items[i].user_position.is_none() {
                        assert(self@.ranking_items()[i as int].user_position is None);
                        return false;
                    }
                    assert(self@.ranking_items()[i as int].user_position is Some);
                    i += 1;
                }
                true
            },
            _ => true,
        }
    }

    /// Returns whether every ranking item has been given its correct position.
    pub fn ranking_correct(&self) -> (all: bool)
        ensures
            all == self@.ranking_correct(),
    {
        match &self.items {
            Items::Ranking(items) => {
                let mut i: usize = 0;
                while i < items.len()
                    invariant
                        i <= items.len(),
                        self.items == Items::Ranking(*items),
                        forall|j: int| 0 <= j < i ==> (#[trigger] self@.ranking_items()[j]).well_placed(),
                    decreases items.len() - i,
                {
                    let placed: bool = match items[i].user_position {
                        Some(p) => p == items[i].correct_position,
                        None => false,
                    };
                    if !placed {
                        assert(!self@.ranking_items()[i as int].well_placed());
                        return false;
                    }
                    assert(self@.ranking_items()[i as int].well_placed());
                    i += 1;
                }
                true
            },
            _ => true,
        }
    }

    /// Records `verdict` on option `index`.
    pub fn record_option_verdict(&mut self, index: usize, verdict: Verdict)
        requires
            old(self)@.has_option(index as int),
        ensures
            final(self)@ == old(self)@.with_option_verdict(index as int, verdict),
    {
        match &mut self.items {
            Items::YesNo(options) => {
                options[index].verdict = verdict;
            },
            _ => {},
        }
        assert(self@ =~~= old(self)@.with_option_verdict(index as int, verdict));
    }

    /// Records `position` on ranking item `index`.
    pub fn record_position(&mut self, index: usize, position: usize)
        requires
            old(self)@.has_ranking_item(index as int),
        ensures
            final(self)@ == old(self)@.with_position(index as int, position as nat),
    {
        match &mut self.items {
            Items::Ranking(items) => {
                items[index].user_position = Some(position);
            },
            _ => {},
        }
        assert(self@ =~~= old(self)@.with_position(index as int, position as nat));
    }

    /// Records `verdict` on reveal item `index`.
    pub fn record_reveal_verdict(&mut self, index: usize, verdict: Verdict)
        requires
            old(self)@.has_reveal_item(index as int),
        ensures
            final(self)@ == old(self)@.with_reveal_verdict(index as int, verdict),
    {
        match &mut self.items {
            Items::Reveal(items) => {
                items[index].verdict = verdict;
            },
            _ => {},
        }
        assert(self@ =~~= old(self)@.with_reveal_verdict(index as int, verdict));
    }

    /// Counts one judgement made by a team whose streak is `streak`: one more
    /// point when correct, the streak taken back (floored at zero) when not.
    pub fn apply_score(&mut self, correct: bool, streak: usize)
        requires
            old(self)@.answered_count < usize::MAX,
            correct ==> old(self)@.score < usize::MAX,
        ensures
            final(self)@ == old(self)@.scored(correct, streak as nat),
    {
        if correct {
            self.score += 1;
        } else {
            self.score = self.score.saturating_sub(streak);
        }
        self.answered_count += 1;
    }
}

} // verus!
