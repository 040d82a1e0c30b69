//! The records of the board and their mathematical views.
//!
//! Coordinates of a vote or of a point in the plane are real numbers in the
//! wire format; the library never computes with them, it only stores and
//! hands them back, so it keeps each one as the 64-bit pattern of the IEEE
//! double (`f64::to_bits`). Equal patterns mean equal numbers.
use vstd::prelude::*;

verus! {

/// Whether a question is answered by placing a vote on a circle of fixed
/// answers (closed) or by free text (open).
#[derive(Clone, Copy, Debug, PartialEq, Eq, Structural)]
pub enum QuestionKind {
    Closed,
    Open,
}

impl Default for QuestionKind {
    fn default() -> (k: QuestionKind)
        ensures
            k == QuestionKind::Closed,
    {
        QuestionKind::Closed
    }
}

/// The avatar shapes a user may pick.
#[derive(Clone, Copy, Debug, PartialEq, Eq, Structural)]
pub enum Shape {
    Circle,
    Square,
    Triangle,
    Diamond,
    Star,
    Hexagon,
    Heart,
    Arrow,
    Lightning,
    Drop,
    Leaf,
    Cross,
}

/// A user's position on the circle of a closed question.
#[derive(Clone, Debug, PartialEq)]
pub struct Vote {
    pub user_name: String,
    /// Bit pattern of the horizontal coordinate.
    pub x: u64,
    /// Bit pattern of the vertical coordinate.
    pub y: u64,
}

/// A user's free-text answer to an open question.
#[derive(Clone, Debug, PartialEq)]
pub struct OpenAnswer {
    pub user_name: String,
    pub text: String,
}

/// A question of a topic.
#[derive(Clone, Debug, PartialEq)]
pub struct Question {
    pub id: String,
    pub topic_id: String,
    pub text: String,
    pub kind: QuestionKind,
    /// Closed question: fixed answer positions around a circle.
    pub answers: Vec<String>,
    /// Closed question: user vote positions on the circle.
    pub votes: Vec<Vote>,
    /// Open question: free-text answers.
    pub open_answers: Vec<OpenAnswer>,
    /// Custom projection axes: (negative_text, positive_text).
    pub x_axis: Option<(String, String)>,
    pub y_axis: Option<(String, String)>,
}

/// A topic, which groups questions.
#[derive(Clone, Debug, PartialEq)]
pub struct Topic {
    pub id: String,
    pub title: String,
}

/// A topic with the number of its questions.
#[derive(Clone, Debug, PartialEq)]
pub struct TopicWithCount {
    pub id: String,
    pub title: String,
    pub question_count: usize,
}

/// A participant and the avatar they show.
#[derive(Clone, Debug, PartialEq)]
pub struct User {
    pub name: String,
    pub shape: Shape,
    pub color: String,
}

/// Request body: create a topic.
#[derive(Clone, Debug, PartialEq)]
pub struct CreateTopic {
    pub title: String,
}

/// Request body: create a question.
#[derive(Clone, Debug, PartialEq)]
pub struct CreateQuestion {
    pub text: String,
    pub kind: QuestionKind,
}

/// Request body: insert an answer at a position of the circle.
#[derive(Clone, Debug, PartialEq)]
pub struct AddAnswer {
    pub text: String,
    pub index: usize,
}

/// Request body: replace the text of an answer.
#[derive(Clone, Debug, PartialEq)]
pub struct EditAnswer {
    pub index: usize,
    pub text: String,
}

/// Request body: remove an answer.
#[derive(Clone, Debug, PartialEq)]
pub struct DeleteAnswer {
    pub index: usize,
}

/// Request body: place or move a vote.
#[derive(Clone, Debug, PartialEq)]
pub struct CastVote {
    pub user_name: String,
    pub x: u64,
    pub y: u64,
}

/// Request body: give or replace a free-text answer.
#[derive(Clone, Debug, PartialEq)]
pub struct AddOpenAnswer {
    pub user_name: String,
    pub text: String,
}

/// Request body: set the custom projection axes.
#[derive(Clone, Debug, PartialEq)]
pub struct SetAxes {
    pub x_axis: Option<(String, String)>,
    pub y_axis: Option<(String, String)>,
}

/// One answer's position in the plane of an open question.
#[derive(Clone, Debug, PartialEq)]
pub struct PlanePoint {
    pub user_name: String,
    pub x: u64,
    pub y: u64,
}

/// 2D positions for open question answers.
#[derive(Clone, Debug, PartialEq)]
pub struct PlanePositions {
    pub points: Vec<PlanePoint>,
}

/// Messages exchanged over a question's live channel.
#[derive(Clone, Debug, PartialEq)]
pub enum WsMsg {
    /// Ephemeral position update during a drag (not persisted).
    VoteMoved { user_name: String, x: u64, y: u64 },
    /// Full question state after a persistent change.
    QuestionUpdated { question: Question },
}

// ── Views ───────────────────────────────────────────────────────────

pub struct VoteView {
    pub user_name: Seq<char>,
    pub x: u64,
    pub y: u64,
}

pub struct OpenAnswerView {
    pub user_name: Seq<char>,
    pub text: Seq<char>,
}

pub struct QuestionView {
    pub id: Seq<char>,
    pub topic_id: Seq<char>,
    pub text: Seq<char>,
    pub kind: QuestionKind,
    pub answers: Seq<Seq<char>>,
    pub votes: Seq<VoteView>,
    pub open_answers: Seq<OpenAnswerView>,
    pub x_axis: Option<(Seq<char>, Seq<char>)>,
    pub y_axis: Option<(Seq<char>, Seq<char>)>,
}

pub struct TopicView {
    pub id: Seq<char>,
    pub title: Seq<char>,
}

pub struct TopicWithCountView {
    pub id: Seq<char>,
    pub title: Seq<char>,
    pub question_count: nat,
}

pub struct UserView {
    pub name: Seq<char>,
    pub shape: Shape,
    pub color: Seq<char>,
}

impl View for Vote {
    type V = VoteView;

    open spec fn view(&self) -> VoteView {
        VoteView { user_name: self.user_name@, x: self.x, y: self.y }
    }
}

impl DeepView for Vote {
    type V = VoteView;

    open spec fn deep_view(&self) -> VoteView {
        self@
    }
}

impl View for OpenAnswer {
    type V = OpenAnswerView;

    open spec fn view(&self) -> OpenAnswerView {
        OpenAnswerView { user_name: self.user_name@, text: self.text@ }
    }
}

impl DeepView for OpenAnswer {
    type V = OpenAnswerView;

    open spec fn deep_view(&self) -> OpenAnswerView {
        self@
    }
}

impl View for Question {
    type V = QuestionView;

    open spec fn view(&self) -> QuestionView {
        QuestionView {
            id: self.id@,
            topic_id: self.topic_id@,
            text: self.text@,
            kind: self.kind,
            answers: self.answers.deep_view(),
            votes: self.votes.deep_view(),
            open_answers: self.open_answers.deep_view(),
            x_axis: self.x_axis.deep_view(),
            y_axis: self.y_axis.deep_view(),
        }
    }
}

impl DeepView for Question {
    type V = QuestionView;

    open spec fn deep_view(&self) -> QuestionView {
        self@
    }
}

impl View for Topic {
    type V = TopicView;

    open spec fn view(&self) -> TopicView {
        TopicView { id: self.id@, title: self.title@ }
    }
}

impl DeepView for Topic {
    type V = TopicView;

    open spec fn deep_view(&self) -> TopicView {
        self@
    }
}

impl View for TopicWithCount {
    type V = TopicWithCountView;

    open spec fn view(&self) -> TopicWithCountView {
        TopicWithCountView {
            id: self.id@,
            title: self.title@,
            question_count: self.question_count as nat,
        }
    }
}

impl DeepView for TopicWithCount {
    type V = TopicWithCountView;

    open spec fn deep_view(&self) -> TopicWithCountView {
        self@
    }
}

impl View for User {
    type V = UserView;

    open spec fn view(&self) -> UserView {
        UserView { name: self.name@, shape: self.shape, color: self.color@ }
    }
}

impl DeepView for User {
    type V = UserView;

    open spec fn deep_view(&self) -> UserView {
        self@
    }
}

// ── Copies ──────────────────────────────────────────────────────────

/// A copy of a list of strings.
pub fn copy_strings(v: &Vec<String>) -> (r: Vec<String>)
    ensures
        r.deep_view() == v.deep_view(),
{
    let mut r: Vec<String> = Vec::new();
    let mut i: usize = 0;
    while i < v.len()
        invariant
            i <= v.len(),
            r@.len() == i,
            forall|j: int| 0 <= j < i ==> r@[j]@ == v@[j]@,
        decreases v.len() - i,
    {
        r.push(v[i].clone());
        i = i + 1;
    }
    assert(r.deep_view() =~= v.deep_view());
    r
}

/// A copy of an optional pair of strings.
pub fn copy_axis(a: &Option<(String, String)>) -> (r: Option<(String, String)>)
    ensures
        r.deep_view() == a.deep_view(),
{
    match a {
        Some((n, p)) => Some((n.clone(), p.clone())),
        None => None,
    }
}

impl Vote {
    pub fn copy(&self) -> (r: Vote)
        ensures
            r@ == self@,
    {
        Vote { user_name: self.user_name.clone(), x: self.x, y: self.y }
    }
}

impl OpenAnswer {
    pub fn copy(&self) -> (r: OpenAnswer)
        ensures
            r@ == self@,
    {
        OpenAnswer { user_name: self.user_name.clone(), text: self.text.clone() }
    }
}

impl Topic {
    pub fn copy(&self) -> (r: Topic)
        ensures
            r@ == self@,
    {
        Topic { id: self.id.clone(), title: self.title.clone() }
    }
}

impl User {
    pub fn copy(&self) -> (r: User)
        ensures
            r@ == self@,
    {
        User { name: self.name.clone(), shape: self.shape, color: self.color.clone() }
    }
}

/// A copy of a list of votes.
pub fn copy_votes(v: &Vec<Vote>) -> (r: Vec<Vote>)
    ensures
        r.deep_view() == v.deep_view(),
{
    let mut r: Vec<Vote> = Vec::new();
    let mut i: usize = 0;
    while i < v.len()
        invariant
            i <= v.len(),
            r@.len() == i,
            forall|j: int| 0 <= j < i ==> r@[j]@ == v@[j]@,
        decreases v.len() - i,
    {
        r.push(v[i].copy());
        i = i + 1;
    }
    assert(r.deep_view() =~= v.deep_view());
    r
}

/// A copy of a list of open answers.
pub fn copy_open_answers(v: &Vec<OpenAnswer>) -> (r: Vec<OpenAnswer>)
    ensures
        r.deep_view() == v.deep_view(),
{
    let mut r: Vec<OpenAnswer> = Vec::new();
    let mut i: usize = 0;
    while i < v.len()
        invariant
            i <= v.len(),
            r@.len() == i,
            forall|j: int| 0 <= j < i ==> r@[j]@ == v@[j]@,
        decreases v.len() - i,
    {
        r.push(v[i].copy());
        i = i + 1;
    }
    assert(r.deep_view() =~= v.deep_view());
    r
}

/// A copy of a list of users.
pub fn copy_users(v: &Vec<User>) -> (r: Vec<User>)
    ensures
        r.deep_view() == v.deep_view(),
{
    let mut r: Vec<User> = Vec::new();
    let mut i: usize = 0;
    while i < v.len()
        invariant
            i <= v.len(),
            r@.len() == i,
            forall|j: int| 0 <= j < i ==> r@[j]@ == v@[j]@,
        decreases v.len() - i,
    {
        r.push(v[i].copy());
        i = i + 1;
    }
    assert(r.deep_view() =~= v.deep_view());
    r
}

impl Question {
    pub fn copy(&self) -> (r: Question)
        ensures
            r@ == self@,
    {
        Question {
            id: self.id.clone(),
            topic_id: self.topic_id.clone(),
            text: self.text.clone(),
            kind: self.kind,
            answers: copy_strings(&self.answers),
            votes: copy_votes(&self.votes),
            open_answers: copy_open_answers(&self.open_answers),
            x_axis: copy_axis(&self.x_axis),
            y_axis: copy_axis(&self.y_axis),
        }
    }
}

} // verus!
