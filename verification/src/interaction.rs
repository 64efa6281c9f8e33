//! Host interactions for task information.

use vstd::prelude::*;

use crate::error::{conflict_error, outcome_view, RuntimeError, RuntimeErrorView};
use crate::fingerprint::{group_absorb, lemma_concat_assoc, Encoded, FingerprintHasher};
use crate::ids::{InteractionRequestId, QuestionId, SessionId, ToolCallId, TurnId};
use crate::json::Json;
use crate::record::Record;

verus! {

/// How the content of an interaction is to be handled.
#[derive(Debug, Clone, Copy, PartialEq, Eq, Structural)]
pub enum InteractionSensitivity {
    /// Like other content.
    Ordinary,
    /// Kept out of ordinary surfaces.
    Sensitive,
}

impl DeepView for InteractionSensitivity {
    type V = InteractionSensitivity;

    open spec fn deep_view(&self) -> InteractionSensitivity {
        *self
    }
}

impl Record for InteractionSensitivity {
    fn same(&self, other: &Self) -> (r: bool) {
        *self == *other
    }

    fn copied(&self) -> (r: Self) {
        *self
    }
}

impl Encoded for InteractionSensitivity {
    open spec fn fields(view: InteractionSensitivity) -> Seq<Seq<char>> {
        seq![
            match view {
                InteractionSensitivity::Ordinary => "ordinary"@,
                InteractionSensitivity::Sensitive => "sensitive"@,
            },
        ]
    }

    fn encode(&self, hasher: &mut FingerprintHasher) {
        broadcast use group_absorb;

        hasher.field(
            match self {
                InteractionSensitivity::Ordinary => "ordinary",
                InteractionSensitivity::Sensitive => "sensitive",
            },
        );
    }

    proof fn lemma_decodable(
        a: InteractionSensitivity,
        b: InteractionSensitivity,
        x: Seq<Seq<char>>,
        y: Seq<Seq<char>>,
    ) {
        reveal_strlit("ordinary");
        assert("ordinary"@.len() == 8);
        reveal_strlit("sensitive");
        assert("sensitive"@.len() == 9);
        String::lemma_decodable(Self::fields(a)[0], Self::fields(b)[0], x, y);
        assert(Self::fields(a)[0] == Self::fields(b)[0]);
    }
}

/// How a host interaction ended.
#[derive(Debug, Clone, Copy, PartialEq, Eq, Structural)]
pub enum InteractionOutcomeKind {
    /// The host answered.
    Answered,
    /// The host declined to answer.
    Declined,
    /// The host did not answer in time.
    TimedOut,
    /// The interaction was cancelled.
    Cancelled,
    /// The host cannot surface interactions.
    Unavailable,
}

impl DeepView for InteractionOutcomeKind {
    type V = InteractionOutcomeKind;

    open spec fn deep_view(&self) -> InteractionOutcomeKind {
        *self
    }
}

impl Record for InteractionOutcomeKind {
    fn same(&self, other: &Self) -> (r: bool) {
        *self == *other
    }

    fn copied(&self) -> (r: Self) {
        *self
    }
}

impl Encoded for InteractionOutcomeKind {
    open spec fn fields(view: InteractionOutcomeKind) -> Seq<Seq<char>> {
        seq![
            match view {
                InteractionOutcomeKind::Answered => "answered"@,
                InteractionOutcomeKind::Declined => "declined"@,
                InteractionOutcomeKind::TimedOut => "timed_out"@,
                InteractionOutcomeKind::Cancelled => "cancelled"@,
                InteractionOutcomeKind::Unavailable => "unavailable"@,
            },
        ]
    }

    fn encode(&self, hasher: &mut FingerprintHasher) {
        broadcast use group_absorb;

        hasher.field(
            match self {
                InteractionOutcomeKind::Answered => "answered",
                InteractionOutcomeKind::Declined => "declined",
                InteractionOutcomeKind::TimedOut => "timed_out",
                InteractionOutcomeKind::Cancelled => "cancelled",
                InteractionOutcomeKind::Unavailable => "unavailable",
            },
        );
    }

    proof fn lemma_decodable(
        a: InteractionOutcomeKind,
        b: InteractionOutcomeKind,
        x: Seq<Seq<char>>,
        y: Seq<Seq<char>>,
    ) {
        reveal_strlit("answered");
        assert("answered"@.len() == 8);
        reveal_strlit("declined");
        assert("declined"@.len() == 8);
        reveal_strlit("timed_out");
        assert("timed_out"@.len() == 9);
        reveal_strlit("cancelled");
        assert("cancelled"@.len() == 9);
        reveal_strlit("unavailable");
        assert("unavailable"@.len() == 11);
        assert("answered"@[0] != "declined"@[0]);
        assert("timed_out"@[0] != "cancelled"@[0]);
        String::lemma_decodable(Self::fields(a)[0], Self::fields(b)[0], x, y);
        assert(Self::fields(a)[0] == Self::fields(b)[0]);
    }
}

/// Where an interaction comes from.
#[derive(Debug, PartialEq, Eq)]
pub struct InteractionOrigin {
    /// The owning session.
    pub session: SessionId,
    /// The owning turn.
    pub turn: TurnId,
    /// The tool call that asks.
    pub call: ToolCallId,
}

/// What a [`InteractionOrigin`] holds.
pub struct InteractionOriginView {
    pub session: Seq<char>,
    pub turn: Seq<char>,
    pub call: Seq<char>,
}

impl DeepView for InteractionOrigin {
    type V = InteractionOriginView;

    open spec fn deep_view(&self) -> InteractionOriginView {
        InteractionOriginView {
            session: self.session.deep_view(),
            turn: self.turn.deep_view(),
            call: self.call.deep_view(),
        }
    }
}

impl View for InteractionOrigin {
    type V = InteractionOriginView;

    open spec fn view(&self) -> InteractionOriginView {
        self.deep_view()
    }
}

impl Record for InteractionOrigin {
    fn same(&self, other: &Self) -> (r: bool) {
        self.session.same(&other.session)
            && self.turn.same(&other.turn)
            && self.call.same(&other.call)
    }

    fn copied(&self) -> (r: Self) {
        InteractionOrigin {
            session: self.session.copied(),
            turn: self.turn.copied(),
            call: self.call.copied(),
        }
    }
}

impl Clone for InteractionOrigin {
    fn clone(&self) -> (r: Self)
        ensures
            r@ == self@,
    {
        self.copied()
    }
}

impl Encoded for InteractionOrigin {
    open spec fn fields(view: InteractionOriginView) -> Seq<Seq<char>> {
        <SessionId as Encoded>::fields(view.session)
            + <TurnId as Encoded>::fields(view.turn)
            + <ToolCallId as Encoded>::fields(view.call)
    }

    fn encode(&self, hasher: &mut FingerprintHasher) {
        broadcast use group_absorb;

        self.session.encode(hasher);
        self.turn.encode(hasher);
        self.call.encode(hasher);
    }

    proof fn lemma_decodable(
        a: InteractionOriginView,
        b: InteractionOriginView,
        x: Seq<Seq<char>>,
        y: Seq<Seq<char>>,
    ) {
        broadcast use lemma_concat_assoc;

        let x2 = ToolCallId::fields(a.call) + x;
        let y2 = ToolCallId::fields(b.call) + y;
        let x1 = TurnId::fields(a.turn) + x2;
        let y1 = TurnId::fields(b.turn) + y2;
        SessionId::lemma_decodable(a.session, b.session, x1, y1);
        TurnId::lemma_decodable(a.turn, b.turn, x2, y2);
        ToolCallId::lemma_decodable(a.call, b.call, x, y);
    }
}

impl InteractionOrigin {
    /// The owning session.
    pub fn session(&self) -> (r: &SessionId)
        ensures
            r@ == self@.session,
    {
        &self.session
    }

    /// The owning turn.
    pub fn turn(&self) -> (r: &TurnId)
        ensures
            r@ == self@.turn,
    {
        &self.turn
    }

    /// The tool call that asks.
    pub fn call(&self) -> (r: &ToolCallId)
        ensures
            r@ == self@.call,
    {
        &self.call
    }
}

/// A request for task information from the host.
#[derive(Debug, PartialEq, Eq)]
pub struct InteractionRequest {
    /// Exact request identity.
    pub id: InteractionRequestId,
    /// Where the request comes from.
    pub origin: InteractionOrigin,
    /// The questions, in order.
    pub questions: Vec<QuestionId>,
    /// How its content is to be handled.
    pub sensitivity: InteractionSensitivity,
    /// What the component that built the value found wrong with it, if anything.
    pub defect: Option<RuntimeError>,
}

/// What a [`InteractionRequest`] holds.
pub struct InteractionRequestView {
    pub id: Seq<char>,
    pub origin: InteractionOriginView,
    pub questions: Seq<Seq<char>>,
    pub sensitivity: InteractionSensitivity,
    pub defect: Option<RuntimeErrorView>,
}

impl DeepView for InteractionRequest {
    type V = InteractionRequestView;

    open spec fn deep_view(&self) -> InteractionRequestView {
        InteractionRequestView {
            id: self.id.deep_view(),
            origin: self.origin.deep_view(),
            questions: self.questions.deep_view(),
            sensitivity: self.sensitivity.deep_view(),
            defect: self.defect.deep_view(),
        }
    }
}

impl View for InteractionRequest {
    type V = InteractionRequestView;

    open spec fn view(&self) -> InteractionRequestView {
        self.deep_view()
    }
}

impl Record for InteractionRequest {
    fn same(&self, other: &Self) -> (r: bool) {
        self.id.same(&other.id)
            && self.origin.same(&other.origin)
            && self.questions.same(&other.questions)
            && self.sensitivity.same(&other.sensitivity)
            && self.defect.same(&other.defect)
    }

    fn copied(&self) -> (r: Self) {
        InteractionRequest {
            id: self.id.copied(),
            origin: self.origin.copied(),
            questions: self.questions.copied(),
            sensitivity: self.sensitivity.copied(),
            defect: self.defect.copied(),
        }
    }
}

impl Clone for InteractionRequest {
    fn clone(&self) -> (r: Self)
        ensures
            r@ == self@,
    {
        self.copied()
    }
}

impl Encoded for InteractionRequest {
    open spec fn fields(view: InteractionRequestView) -> Seq<Seq<char>> {
        <InteractionRequestId as Encoded>::fields(view.id)
            + <InteractionOrigin as Encoded>::fields(view.origin)
            + <Vec<QuestionId> as Encoded>::fields(view.questions)
            + <InteractionSensitivity as Encoded>::fields(view.sensitivity)
            + <Option<RuntimeError> as Encoded>::fields(view.defect)
    }

    fn encode(&self, hasher: &mut FingerprintHasher) {
        broadcast use group_absorb;

        self.id.encode(hasher);
        self.origin.encode(hasher);
        self.questions.encode(hasher);
        self.sensitivity.encode(hasher);
        self.defect.encode(hasher);
    }

    proof fn lemma_decodable(
        a: InteractionRequestView,
        b: InteractionRequestView,
        x: Seq<Seq<char>>,
        y: Seq<Seq<char>>,
    ) {
        broadcast use lemma_concat_assoc;

        let x4 = Option::<RuntimeError>::fields(a.defect) + x;
        let y4 = Option::<RuntimeError>::fields(b.defect) + y;
        let x3 = InteractionSensitivity::fields(a.sensitivity) + x4;
        let y3 = InteractionSensitivity::fields(b.sensitivity) + y4;
        let x2 = Vec::<QuestionId>::fields(a.questions) + x3;
        let y2 = Vec::<QuestionId>::fields(b.questions) + y3;
        let x1 = InteractionOrigin::fields(a.origin) + x2;
        let y1 = InteractionOrigin::fields(b.origin) + y2;
        InteractionRequestId::lemma_decodable(a.id, b.id, x1, y1);
        InteractionOrigin::lemma_decodable(a.origin, b.origin, x2, y2);
        Vec::<QuestionId>::lemma_decodable(a.questions, b.questions, x3, y3);
        InteractionSensitivity::lemma_decodable(a.sensitivity, b.sensitivity, x4, y4);
        Option::<RuntimeError>::lemma_decodable(a.defect, b.defect, x, y);
    }
}

impl InteractionRequestView {
    /// What validation of the request gives.
    pub open spec fn validity(self) -> Result<(), RuntimeErrorView> {
        match self.defect {
            Some(e) => Err(e),
            None => Ok(()),
        }
    }
}

impl InteractionRequest {
    /// Where the request comes from.
    pub fn origin(&self) -> (r: &InteractionOrigin)
        ensures
            r@ == self@.origin,
    {
        &self.origin
    }

    /// Reports the request's defect, if it has one.
    pub fn validate(&self) -> (r: Result<(), RuntimeError>)
        ensures
            outcome_view(r) == self@.validity(),
    {
        match &self.defect {
            Some(e) => Err(e.copied()),
            None => Ok(()),
        }
    }
}

/// The accepted outcome of a host interaction.
#[derive(Debug, PartialEq, Eq)]
pub struct InteractionResponse {
    /// The request that it answers.
    pub request: InteractionRequestId,
    /// How the interaction ended.
    pub outcome: InteractionOutcomeKind,
    /// The answers.
    pub answers: Json,
    /// What the component that built the value found wrong with it, if anything.
    pub defect: Option<RuntimeError>,
}

/// What a [`InteractionResponse`] holds.
pub struct InteractionResponseView {
    pub request: Seq<char>,
    pub outcome: InteractionOutcomeKind,
    pub answers: Seq<char>,
    pub defect: Option<RuntimeErrorView>,
}

impl DeepView for InteractionResponse {
    type V = InteractionResponseView;

    open spec fn deep_view(&self) -> InteractionResponseView {
        InteractionResponseView {
            request: self.request.deep_view(),
            outcome: self.outcome.deep_view(),
            answers: self.answers.deep_view(),
            defect: self.defect.deep_view(),
        }
    }
}

impl View for InteractionResponse {
    type V = InteractionResponseView;

    open spec fn view(&self) -> InteractionResponseView {
        self.deep_view()
    }
}

impl Record for InteractionResponse {
    fn same(&self, other: &Self) -> (r: bool) {
        self.request.same(&other.request)
            && self.outcome.same(&other.outcome)
            && self.answers.same(&other.answers)
            && self.defect.same(&other.defect)
    }

    fn copied(&self) -> (r: Self) {
        InteractionResponse {
            request: self.request.copied(),
            outcome: self.outcome.copied(),
            answers: self.answers.copied(),
            defect: self.defect.copied(),
        }
    }
}

impl Clone for InteractionResponse {
    fn clone(&self) -> (r: Self)
        ensures
            r@ == self@,
    {
        self.copied()
    }
}

impl Encoded for InteractionResponse {
    open spec fn fields(view: InteractionResponseView) -> Seq<Seq<char>> {
        <InteractionRequestId as Encoded>::fields(view.request)
            + <InteractionOutcomeKind as Encoded>::fields(view.outcome)
            + <Json as Encoded>::fields(view.answers)
            + <Option<RuntimeError> as Encoded>::fields(view.defect)
    }

    fn encode(&self, hasher: &mut FingerprintHasher) {
        broadcast use group_absorb;

        self.request.encode(hasher);
        self.outcome.encode(hasher);
        self.answers.encode(hasher);
        self.defect.encode(hasher);
    }

    proof fn lemma_decodable(
        a: InteractionResponseView,
        b: InteractionResponseView,
        x: Seq<Seq<char>>,
        y: Seq<Seq<char>>,
    ) {
        broadcast use lemma_concat_assoc;

        let x3 = Option::<RuntimeError>::fields(a.defect) + x;
        let y3 = Option::<RuntimeError>::fields(b.defect) + y;
        let x2 = Json::fields(a.answers) + x3;
        let y2 = Json::fields(b.answers) + y3;
        let x1 = InteractionOutcomeKind::fields(a.outcome) + x2;
        let y1 = InteractionOutcomeKind::fields(b.outcome) + y2;
        InteractionRequestId::lemma_decodable(a.request, b.request, x1, y1);
        InteractionOutcomeKind::lemma_decodable(a.outcome, b.outcome, x2, y2);
        Json::lemma_decodable(a.answers, b.answers, x3, y3);
        Option::<RuntimeError>::lemma_decodable(a.defect, b.defect, x, y);
    }
}

impl InteractionResponseView {
    /// What validation of the response against `request` gives.
    pub open spec fn validity_for(self, request: InteractionRequestView) -> Result<
        (),
        RuntimeErrorView,
    > {
        if self.request != request.id {
            Err(conflict_error("interaction response answers another request"@))
        } else {
            match self.defect {
                Some(e) => Err(e),
                None => Ok(()),
            }
        }
    }
}

impl InteractionResponse {
    /// Whether the response answers `request` and has no defect.
    pub fn validate_for(&self, request: &InteractionRequest) -> (r: Result<(), RuntimeError>)
        ensures
            outcome_view(r) == self@.validity_for(request@),
    {
        if !self.request.same(&request.id) {
            return Err(RuntimeError::conflict("interaction response answers another request"));
        }
        match &self.defect {
            Some(e) => Err(e.copied()),
            None => Ok(()),
        }
    }
}

/// A request is valid exactly when it has no defect. A response answers exactly the request that
/// it names, and only without a defect.
pub proof fn a_response_answers_the_request_that_it_names(
    request: InteractionRequest,
    response: InteractionResponse,
    asked: Result<(), RuntimeError>,
    answered: Result<(), RuntimeError>,
)
    requires
        call_ensures(InteractionRequest::validate, (&request,), asked),
        call_ensures(InteractionResponse::validate_for, (&response, &request), answered),
    ensures
        asked is Ok <==> request@.defect is None,
        asked matches Err(e) ==> request@.defect == Some(e@),
        answered is Ok <==> response@.request == request@.id && response@.defect is None,
        response@.request == request@.id ==> (answered matches Err(e) ==> response@.defect == Some(
            e@,
        )),
{
}

} // verus!
