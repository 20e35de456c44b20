use vstd::prelude::*;
use crate::invite::{opt_text, valid_invite_id, Invite, InviteId, InviteView};
use crate::query::{invite_param, query_invite_param};
use crate::storage::{FromBlobError, LoadError};

verus! {

/// An HTTP reply: a status and, for an HTML reply, its text; `None` is an empty body.
pub struct Reply {
    pub status: u16,
    pub html: Option<String>,
}

/// The contents of a [`Reply`].
pub struct ReplyView {
    pub status: u16,
    pub html: Option<Seq<char>>,
}

impl View for Reply {
    type V = ReplyView;

    open spec fn view(&self) -> ReplyView {
        ReplyView {
            status: self.status,
            html: opt_text(self.html),
        }
    }
}

/// The answer a guest sends about an invite.
pub enum Answer {
    /// The guests will come, with these numbers and notes.
    Attend { guests: u16, vegetarians: u16, notes: String },
    /// The guests will not come.
    Decline,
}

/// The contents of an [`Answer`].
pub enum AnswerView {
    Attend { guests: u16, vegetarians: u16, notes: Seq<char> },
    Decline,
}

impl View for Answer {
    type V = AnswerView;

    open spec fn view(&self) -> AnswerView {
        match self {
            Answer::Attend { guests, vegetarians, notes } => AnswerView::Attend {
                guests: *guests,
                vegetarians: *vegetarians,
                notes: notes@,
            },
            Answer::Decline => AnswerView::Decline,
        }
    }
}

/// What a request flow asks to be done next.
pub enum Effect {
    /// Load the invite with this identifier.
    Fetch(InviteId),
    /// Store this invite under this identifier.
    Store(InviteId, Invite),
    /// Send the notification mail about this invite.
    Notify(Invite),
    /// Reply with the page of this invite.
    Render(Invite),
    /// Reply with this.
    Respond(Reply),
    /// End the request with this error.
    Fail(String),
    /// Stop the request, giving up with this message.
    Abort(String),
}

/// The contents of an [`Effect`].
pub enum EffectView {
    Fetch(Seq<char>),
    Store(Seq<char>, InviteView),
    Notify(InviteView),
    Render(InviteView),
    Respond(ReplyView),
    Fail(Seq<char>),
    Abort(Seq<char>),
}

impl View for Effect {
    type V = EffectView;

    open spec fn view(&self) -> EffectView {
        match self {
            Effect::Fetch(id) => EffectView::Fetch(id@),
            Effect::Store(id, invite) => EffectView::Store(id@, invite@),
            Effect::Notify(invite) => EffectView::Notify(invite@),
            Effect::Render(invite) => EffectView::Render(invite@),
            Effect::Respond(reply) => EffectView::Respond(reply@),
            Effect::Fail(msg) => EffectView::Fail(msg@),
            Effect::Abort(msg) => EffectView::Abort(msg@),
        }
    }
}

/// How the last effect of a request flow turned out.
pub enum FlowEvent {
    /// The invite was loaded, or why it was not.
    Fetched(Result<Invite, FromBlobError>),
    /// The invite was stored, or the error storing it.
    Stored(Result<(), String>),
    /// The notification was sent, or the error sending it.
    Notified(Result<(), String>),
}

/// The contents of a [`FlowEvent`].
pub enum FlowInput {
    Fetched(Result<InviteView, LoadError>),
    Stored(Result<(), Seq<char>>),
    Notified(Result<(), Seq<char>>),
}

impl View for FlowEvent {
    type V = FlowInput;

    open spec fn view(&self) -> FlowInput {
        match self {
            FlowEvent::Fetched(Ok(invite)) => FlowInput::Fetched(Ok(invite@)),
            FlowEvent::Fetched(Err(e)) => FlowInput::Fetched(Err(e@)),
            FlowEvent::Stored(Ok(())) => FlowInput::Stored(Ok(())),
            FlowEvent::Stored(Err(msg)) => FlowInput::Stored(Err(msg@)),
            FlowEvent::Notified(Ok(())) => FlowInput::Notified(Ok(())),
            FlowEvent::Notified(Err(msg)) => FlowInput::Notified(Err(msg@)),
        }
    }
}

/// How far a request flow has come.
#[derive(Debug, Clone, Copy, PartialEq, Eq, Structural)]
pub enum FlowStage {
    /// Waiting for the invite to be loaded.
    Fetching,
    /// Waiting for the answered invite to be stored.
    Storing,
    /// Waiting for the notification to be sent.
    Notifying,
    /// The request is over.
    Finished,
}

/// A request about one invite: showing its page, or recording an answer to it.
pub struct RsvpFlow {
    answer: Option<Answer>,
    id: Option<InviteId>,
    invite: Option<Invite>,
    stage: FlowStage,
}

/// The state of an [`RsvpFlow`]: the answer being recorded (none for the
/// page), the invite's identifier, the answered invite, and the stage.
pub struct FlowState {
    pub answer: Option<AnswerView>,
    pub id: Option<Seq<char>>,
    pub invite: Option<InviteView>,
    pub stage: FlowStage,
}

impl View for RsvpFlow {
    type V = FlowState;

    closed spec fn view(&self) -> FlowState {
        FlowState {
            answer: match self.answer {
                Some(a) => Some(a@),
                None => None,
            },
            id: match self.id {
                Some(i) => Some(i@),
                None => None,
            },
            invite: match self.invite {
                Some(i) => Some(i@),
                None => None,
            },
            stage: self.stage,
        }
    }
}

/// The HTML reply with status 200 and the text `t`.
pub open spec fn html_ok(t: Seq<char>) -> EffectView {
    EffectView::Respond(ReplyView { status: 200, html: Some(t) })
}

/// The empty reply with status `status`.
pub open spec fn empty_reply(status: u16) -> EffectView {
    EffectView::Respond(ReplyView { status, html: None })
}

/// The flow that ended at once with `effect`.
pub open spec fn finished_with(answer: Option<AnswerView>, effect: EffectView) -> (
    FlowState,
    EffectView,
) {
    (FlowState { answer, id: None, invite: None, stage: FlowStage::Finished }, effect)
}

/// The flow that loads the invite `raw` when it is a valid identifier, and
/// otherwise replies "Incomplete url".
pub open spec fn fetch_or_incomplete(answer: Option<AnswerView>, raw: Seq<char>) -> (
    FlowState,
    EffectView,
) {
    if valid_invite_id(raw) {
        (
            FlowState { answer, id: Some(raw), invite: None, stage: FlowStage::Fetching },
            EffectView::Fetch(raw),
        )
    } else {
        finished_with(answer, html_ok("Incomplete url"@))
    }
}

/// How the page request with query string `query` starts: without an `_id`
/// parameter it replies "Invalid url", with a malformed one "Incomplete
/// url", and otherwise it loads the invite.
pub open spec fn page_begin(query: Option<Seq<char>>) -> (FlowState, EffectView) {
    match query_invite_param(query) {
        None => finished_with(None, html_ok("Invalid url"@)),
        Some(raw) => fetch_or_incomplete(None, raw),
    }
}

/// How an answer about the invite `raw` starts: a malformed identifier gets
/// "Incomplete url", a valid one has its invite loaded.
pub open spec fn answer_begin(answer: AnswerView, raw: Seq<char>) -> (FlowState, EffectView) {
    fetch_or_incomplete(Some(answer), raw)
}

/// Whether a flow in `stage` can take `event`.
pub open spec fn flow_accepts(stage: FlowStage, event: FlowInput) -> bool {
    match event {
        FlowInput::Fetched(_) => stage == FlowStage::Fetching,
        FlowInput::Stored(_) => stage == FlowStage::Storing,
        FlowInput::Notified(_) => stage == FlowStage::Notifying,
    }
}

/// The invite `invite` with `answer` recorded in it.
pub open spec fn answered(invite: InviteView, answer: AnswerView) -> InviteView {
    match answer {
        AnswerView::Attend { guests, vegetarians, notes } => invite.with_attendance(
            guests,
            vegetarians,
            notes,
        ),
        AnswerView::Decline => invite.with_decline(),
    }
}

/// How a flow goes on after `event`.
///
/// A loaded invite is shown for the page; for an attendance it is refused
/// with 400 "Already responded" when it was answered before, and otherwise
/// it is answered and stored; a decline is answered and stored whatever
/// was answered before. A missing invite gets an empty 404, a failed load
/// ends the request with its error. After storing, an attendance is
/// notified and a decline gets an empty 200; a failed store ends an
/// attendance with its error and stops a decline with "test". After
/// notifying, the reply is an empty 200; a failed notification ends the
/// request with its error.
pub open spec fn flow_next(s: FlowState, event: FlowInput) -> (FlowState, EffectView) {
    let done = FlowState { stage: FlowStage::Finished, ..s };
    match event {
        FlowInput::Fetched(Err(LoadError::NotFound)) => (done, empty_reply(404)),
        FlowInput::Fetched(Err(LoadError::Error(msg))) => (done, EffectView::Fail(msg)),
        FlowInput::Fetched(Ok(invite)) => match s.answer {
            None => (done, EffectView::Render(invite)),
            Some(a) => if (a is Attend) && invite.responded {
                (
                    done,
                    EffectView::Respond(ReplyView { status: 400, html: Some("Already responded"@) }),
                )
            } else {
                (
                    FlowState {
                        invite: Some(answered(invite, a)),
                        stage: FlowStage::Storing,
                        ..s
                    },
                    EffectView::Store(s.id.unwrap(), answered(invite, a)),
                )
            },
        },
        FlowInput::Stored(Ok(())) => if s.answer matches Some(AnswerView::Attend { .. }) {
            (
                FlowState { invite: None, stage: FlowStage::Notifying, ..s },
                EffectView::Notify(s.invite.unwrap()),
            )
        } else {
            (FlowState { invite: None, ..done }, empty_reply(200))
        },
        FlowInput::Stored(Err(msg)) => if s.answer matches Some(AnswerView::Attend { .. }) {
            (FlowState { invite: None, ..done }, EffectView::Fail(msg))
        } else {
            (FlowState { invite: None, ..done }, EffectView::Abort("test"@))
        },
        FlowInput::Notified(Ok(())) => (done, empty_reply(200)),
        FlowInput::Notified(Err(msg)) => (done, EffectView::Fail(msg)),
    }
}

/// The consistency of a flow's state: while loading, the identifier is
/// known; while storing, an answer is being recorded
/// and the invite is held with that answer recorded; while notifying, an
/// attendance is being recorded.
pub open spec fn flow_wf(s: FlowState) -> bool {
    &&& s.stage == FlowStage::Fetching ==> s.id is Some
    &&& s.stage == FlowStage::Storing ==> {
        &&& s.id is Some
        &&& s.answer is Some
        &&& s.invite is Some
        &&& s.invite.unwrap().responded
        &&& s.invite.unwrap().attending == Some(s.answer.unwrap() is Attend)
    }
    &&& s.stage == FlowStage::Notifying ==> (s.answer matches Some(AnswerView::Attend { .. }))
}

fn html_reply(status: u16, text: &str) -> (r: Effect)
    ensures
        r@ == EffectView::Respond(ReplyView { status, html: Some(text@) }),
{
    Effect::Respond(Reply { status, html: Some(String::from_str(text)) })
}

fn empty(status: u16) -> (r: Effect)
    ensures
        r@ == empty_reply(status),
{
    Effect::Respond(Reply { status, html: None })
}

impl RsvpFlow {
    /// The consistency of this flow's state.
    pub closed spec fn wf(&self) -> bool {
        flow_wf(self@)
    }

    fn fetch_or_incomplete(answer: Option<Answer>, raw: String) -> (res: (RsvpFlow, Effect))
        ensures
            res.0.wf(),
            (res.0@, res.1@) == fetch_or_incomplete(
                match answer {
                    Some(a) => Some(a@),
                    None => None,
                },
                raw@,
            ),
    {
        match InviteId::new(raw) {
            Ok(id) => {
                let fetch = Effect::Fetch(id.duplicate());
                (RsvpFlow { answer, id: Some(id), invite: None, stage: FlowStage::Fetching }, fetch)
            },
            Err(_) => (
                RsvpFlow { answer, id: None, invite: None, stage: FlowStage::Finished },
                html_reply(200, "Incomplete url"),
            ),
        }
    }

    /// Starts the request for the page of an invite, given the request's
    /// query string, if it has one.
    pub fn page(query: Option<&str>) -> (res: (RsvpFlow, Effect))
        ensures
            res.0.wf(),
            (res.0@, res.1@) == page_begin(
                match query {
                    Some(q) => Some(q@),
                    None => None,
                },
            ),
    {
        match invite_param(query) {
            None => (
                RsvpFlow { answer: None, id: None, invite: None, stage: FlowStage::Finished },
                html_reply(200, "Invalid url"),
            ),
            Some(raw) => RsvpFlow::fetch_or_incomplete(None, raw),
        }
    }

    /// Starts recording `answer` for the invite whose identifier is `raw_id`.
    pub fn answer(answer: Answer, raw_id: String) -> (res: (RsvpFlow, Effect))
        ensures
            res.0.wf(),
            (res.0@, res.1@) == answer_begin(answer@, raw_id@),
    {
        RsvpFlow::fetch_or_incomplete(Some(answer), raw_id)
    }

    /// Whether the flow can take `event` now.
    pub fn accepts(&self, event: &FlowEvent) -> (ok: bool)
        ensures
            ok == flow_accepts(self@.stage, event@),
    {
        match event {
            FlowEvent::Fetched(_) => self.stage == FlowStage::Fetching,
            FlowEvent::Stored(_) => self.stage == FlowStage::Storing,
            FlowEvent::Notified(_) => self.stage == FlowStage::Notifying,
        }
    }

    /// Whether the request is over.
    pub fn finished(&self) -> (done: bool)
        ensures
            done == (self@.stage == FlowStage::Finished),
    {
        self.stage == FlowStage::Finished
    }

    /// Takes how the last effect turned out and says what comes next.
    pub fn step(&mut self, event: FlowEvent) -> (next: Effect)
        requires
            old(self).wf(),
            flow_accepts(old(self)@.stage, event@),
        ensures
            final(self).wf(),
            (final(self)@, next@) == flow_next(old(self)@, event@),
    {
        match event {
            FlowEvent::Fetched(Err(FromBlobError::NotFound)) => {
                self.stage = FlowStage::Finished;
                empty(404)
            },
            FlowEvent::Fetched(Err(FromBlobError::Error(msg))) => {
                self.stage = FlowStage::Finished;
                Effect::Fail(msg)
            },
            FlowEvent::Fetched(Ok(mut invite)) => {
                let attending = match &self.answer {
                    None => {
                        self.stage = FlowStage::Finished;
                        return Effect::Render(invite);
                    },
                    Some(Answer::Attend { guests, vegetarians, notes }) => {
                        match invite.accept(*guests, *vegetarians, notes.clone()) {
                            Ok(()) => {},
                            Err(_) => {
                                self.stage = FlowStage::Finished;
                                return html_reply(400, "Already responded");
                            },
                        }
                        true
                    },
                    Some(Answer::Decline) => {
                        invite.decline();
                        false
                    },
                };
                let id = match &self.id {
                    Some(id) => id.duplicate(),
                    None => vstd::pervasive::unreached(),
                };
                let stored = invite.duplicate();
                self.invite = Some(invite);
                self.stage = FlowStage::Storing;
                Effect::Store(id, stored)
            },
            FlowEvent::Stored(Ok(())) => {
                let invite = self.invite.take();
                match &self.answer {
                    Some(Answer::Attend { .. }) => {
                        self.stage = FlowStage::Notifying;
                        match invite {
                            Some(i) => Effect::Notify(i),
                            None => vstd::pervasive::unreached(),
                        }
                    },
                    _ => {
                        self.stage = FlowStage::Finished;
                        empty(200)
                    },
                }
            },
            FlowEvent::Stored(Err(msg)) => {
                self.invite = None;
                self.stage = FlowStage::Finished;
                match &self.answer {
                    Some(Answer::Attend { .. }) => Effect::Fail(msg),
                    _ => Effect::Abort(String::from_str("test")),
                }
            },
            FlowEvent::Notified(Ok(())) => {
                self.stage = FlowStage::Finished;
                empty(200)
            },
            FlowEvent::Notified(Err(msg)) => {
                self.stage = FlowStage::Finished;
                Effect::Fail(msg)
            },
        }
    }
}


/// A request flow stays consistent through every step it takes.
pub proof fn lemma_flow_stays_consistent(s: FlowState, e: FlowInput)
    requires
        flow_wf(s),
        flow_accepts(s.stage, e),
    ensures
        flow_wf(flow_next(s, e).0),
{
}

/// Every flow starts consistent.
pub proof fn lemma_flow_begins_consistent(query: Option<Seq<char>>, answer: AnswerView, raw: Seq<char>)
    ensures
        flow_wf(page_begin(query).0),
        flow_wf(answer_begin(answer, raw).0),
{
}

/// Only an answered invite is ever stored, under the identifier the request
/// named, right after it was loaded: it is the loaded invite with the answer
/// recorded, marked answered, attending exactly when the answer is an attendance.
pub proof fn lemma_only_answered_invites_are_stored(s: FlowState, e: FlowInput)
    requires
        flow_wf(s),
        flow_accepts(s.stage, e),
    ensures
        flow_next(s, e).1 matches EffectView::Store(id, stored) ==> {
            &&& s.answer is Some
            &&& Some(id) == s.id
            &&& e matches FlowInput::Fetched(Ok(loaded))
            &&& stored == answered(loaded, s.answer.unwrap())
            &&& stored.responded
            &&& stored.attending == Some(s.answer.unwrap() is Attend)
        },
{
}

/// An attendance never overwrites an earlier answer: when the loaded
/// invite was already answered, the request ends with 400 "Already
/// responded" and nothing is stored or sent.
pub proof fn lemma_attendance_is_given_once(s: FlowState, loaded: InviteView)
    requires
        s.answer matches Some(AnswerView::Attend { .. }),
        loaded.responded,
    ensures
        flow_next(s, FlowInput::Fetched(Ok(loaded))).1 == EffectView::Respond(
            ReplyView { status: 400, html: Some("Already responded"@) },
        ),
        flow_next(s, FlowInput::Fetched(Ok(loaded))).0.stage == FlowStage::Finished,
{
}

/// The notification is sent only for an attendance, only after its invite
/// was stored, and it is about the invite that was stored, which is
/// answered and attending (so its mail is the "YES RSVP" one).
pub proof fn lemma_notification_follows_store(s: FlowState, e: FlowInput)
    requires
        flow_wf(s),
        flow_accepts(s.stage, e),
    ensures
        flow_next(s, e).1 matches EffectView::Notify(invite) ==> {
            &&& s.stage == FlowStage::Storing
            &&& e matches FlowInput::Stored(Ok(_))
            &&& s.answer matches Some(AnswerView::Attend { .. })
            &&& Some(invite) == s.invite
            &&& invite.responded
            &&& invite.attending == Some(true)
        },
{
}

/// Showing a page changes nothing: a page request never stores or notifies.
pub proof fn lemma_page_changes_nothing(s: FlowState, e: FlowInput)
    requires
        s.answer is None,
        flow_accepts(s.stage, e),
    ensures
        !(flow_next(s, e).1 is Store),
        !(flow_next(s, e).1 is Notify),
{
}

/// The page of an invite shows the invite exactly as it was loaded, with
/// whatever answer it holds, and ends the request.
pub proof fn lemma_page_shows_loaded_invite(s: FlowState, loaded: InviteView)
    requires
        s.answer is None,
    ensures
        flow_next(s, FlowInput::Fetched(Ok(loaded))).1 == EffectView::Render(loaded),
        flow_next(s, FlowInput::Fetched(Ok(loaded))).0.stage == FlowStage::Finished,
{
}

/// A page request loads the invite named by the last `_id` parameter of its
/// query when that names a valid identifier; without such a parameter it
/// replies "Invalid url", with a malformed one "Incomplete url", and in
/// those two cases loads nothing.
pub proof fn lemma_page_request_start(query: Option<Seq<char>>)
    ensures
        match query_invite_param(query) {
            None => page_begin(query).1 == html_ok("Invalid url"@),
            Some(raw) => if valid_invite_id(raw) {
                page_begin(query).1 == EffectView::Fetch(raw)
            } else {
                page_begin(query).1 == html_ok("Incomplete url"@)
            },
        },
        !(page_begin(query).1 is Fetch) ==> page_begin(query).0.stage == FlowStage::Finished,
{
}

/// A request whose invite is missing gets an empty 404, and one whose load
/// failed ends with that failure, whatever it was about.
pub proof fn lemma_load_failures(s: FlowState, msg: Seq<char>)
    ensures
        flow_next(s, FlowInput::Fetched(Err(LoadError::NotFound))).1 == EffectView::Respond(
            ReplyView { status: 404, html: None },
        ),
        flow_next(s, FlowInput::Fetched(Err(LoadError::NotFound))).0.stage == FlowStage::Finished,
        flow_next(s, FlowInput::Fetched(Err(LoadError::Error(msg)))).1 == EffectView::Fail(msg),
        flow_next(s, FlowInput::Fetched(Err(LoadError::Error(msg)))).0.stage
            == FlowStage::Finished,
{
}

/// A failed store ends an attendance with its error and stops a decline;
/// a failed mail ends the request with its error; a sent mail ends it with
/// an empty 200.
pub proof fn lemma_late_failures(s: FlowState, msg: Seq<char>)
    ensures
        (s.answer matches Some(AnswerView::Attend { .. })) ==> flow_next(
            s,
            FlowInput::Stored(Err(msg)),
        ).1 == EffectView::Fail(msg),
        s.answer == Some(AnswerView::Decline) ==> flow_next(s, FlowInput::Stored(Err(msg))).1
            == EffectView::Abort("test"@),
        flow_next(s, FlowInput::Notified(Err(msg))).1 == EffectView::Fail(msg),
        flow_next(s, FlowInput::Notified(Ok(()))).1 == EffectView::Respond(
            ReplyView { status: 200, html: None },
        ),
{
}

/// A finished request takes nothing more.
pub proof fn lemma_finished_is_final(s: FlowState, e: FlowInput)
    requires
        s.stage == FlowStage::Finished,
    ensures
        !flow_accepts(s.stage, e),
{
}


/// An attendance for a valid identifier whose invite has not been answered
/// goes all the way: the invite is loaded, stored with the answer, the
/// answered invite is notified, and the reply is an empty 200.
pub proof fn lemma_attendance_round(
    raw: Seq<char>,
    guests: u16,
    vegetarians: u16,
    notes: Seq<char>,
    loaded: InviteView,
)
    requires
        valid_invite_id(raw),
        !loaded.responded,
    ensures
        ({
            let a = AnswerView::Attend { guests, vegetarians, notes };
            let stored = loaded.with_attendance(guests, vegetarians, notes);
            let (s0, e0) = answer_begin(a, raw);
            let (s1, e1) = flow_next(s0, FlowInput::Fetched(Ok(loaded)));
            let (s2, e2) = flow_next(s1, FlowInput::Stored(Ok(())));
            let (s3, e3) = flow_next(s2, FlowInput::Notified(Ok(())));
            &&& e0 == EffectView::Fetch(raw)
            &&& flow_accepts(s0.stage, FlowInput::Fetched(Ok(loaded)))
            &&& e1 == EffectView::Store(raw, stored)
            &&& flow_accepts(s1.stage, FlowInput::Stored(Ok(())))
            &&& e2 == EffectView::Notify(stored)
            &&& flow_accepts(s2.stage, FlowInput::Notified(Ok(())))
            &&& e3 == empty_reply(200)
            &&& s3.stage == FlowStage::Finished
        }),
{
}

/// A decline for a valid identifier whose invite exists is stored, marked
/// answered and not attending, and the reply is an empty 200.
pub proof fn lemma_decline_round(raw: Seq<char>, loaded: InviteView)
    requires
        valid_invite_id(raw),
    ensures
        ({
            let (s0, e0) = answer_begin(AnswerView::Decline, raw);
            let (s1, e1) = flow_next(s0, FlowInput::Fetched(Ok(loaded)));
            let (s2, e2) = flow_next(s1, FlowInput::Stored(Ok(())));
            &&& e0 == EffectView::Fetch(raw)
            &&& e1 == EffectView::Store(raw, loaded.with_decline())
            &&& flow_accepts(s1.stage, FlowInput::Stored(Ok(())))
            &&& e2 == empty_reply(200)
            &&& s2.stage == FlowStage::Finished
        }),
{
}

} // verus!
