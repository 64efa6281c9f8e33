//! Identifiers.

use vstd::prelude::*;

use crate::fingerprint::{group_absorb, Encoded, FingerprintHasher};
use crate::record::Record;

verus! {

/// Identifies a session.
#[derive(Debug, PartialEq, Eq, PartialOrd, Ord, Hash)]
pub struct SessionId {
    text: String,
}

impl DeepView for SessionId {
    type V = Seq<char>;

    closed spec fn deep_view(&self) -> Seq<char> {
        self.text@
    }
}

impl View for SessionId {
    type V = Seq<char>;

    open spec fn view(&self) -> Seq<char> {
        self.deep_view()
    }
}

impl Record for SessionId {
    fn same(&self, other: &Self) -> (r: bool) {
        self.text.same(&other.text)
    }

    fn copied(&self) -> (r: Self) {
        SessionId { text: self.text.copied() }
    }
}

impl Clone for SessionId {
    fn clone(&self) -> (r: Self)
        ensures
            r@ == self@,
    {
        self.copied()
    }
}

impl SessionId {
    /// Wraps the text.
    pub fn new(text: &str) -> (r: SessionId)
        ensures
            r@ == text@,
    {
        SessionId { text: text.to_owned() }
    }

    /// The wrapped text.
    pub fn as_str(&self) -> (r: &str)
        ensures
            r@ == self@,
    {
        self.text.as_str()
    }
}

impl Encoded for SessionId {
    open spec fn fields(view: Seq<char>) -> Seq<Seq<char>> {
        seq![view]
    }

    fn encode(&self, hasher: &mut FingerprintHasher) {
        broadcast use group_absorb;

        hasher.field(self.as_str());
    }

    proof fn lemma_decodable(a: Seq<char>, b: Seq<char>, x: Seq<Seq<char>>, y: Seq<Seq<char>>) {
        String::lemma_decodable(a, b, x, y);
    }
}

/// Identifies one turn of a session.
#[derive(Debug, PartialEq, Eq, PartialOrd, Ord, Hash)]
pub struct TurnId {
    text: String,
}

impl DeepView for TurnId {
    type V = Seq<char>;

    closed spec fn deep_view(&self) -> Seq<char> {
        self.text@
    }
}

impl View for TurnId {
    type V = Seq<char>;

    open spec fn view(&self) -> Seq<char> {
        self.deep_view()
    }
}

impl Record for TurnId {
    fn same(&self, other: &Self) -> (r: bool) {
        self.text.same(&other.text)
    }

    fn copied(&self) -> (r: Self) {
        TurnId { text: self.text.copied() }
    }
}

impl Clone for TurnId {
    fn clone(&self) -> (r: Self)
        ensures
            r@ == self@,
    {
        self.copied()
    }
}

impl TurnId {
    /// Wraps the text.
    pub fn new(text: &str) -> (r: TurnId)
        ensures
            r@ == text@,
    {
        TurnId { text: text.to_owned() }
    }

    /// The wrapped text.
    pub fn as_str(&self) -> (r: &str)
        ensures
            r@ == self@,
    {
        self.text.as_str()
    }
}

impl Encoded for TurnId {
    open spec fn fields(view: Seq<char>) -> Seq<Seq<char>> {
        seq![view]
    }

    fn encode(&self, hasher: &mut FingerprintHasher) {
        broadcast use group_absorb;

        hasher.field(self.as_str());
    }

    proof fn lemma_decodable(a: Seq<char>, b: Seq<char>, x: Seq<Seq<char>>, y: Seq<Seq<char>>) {
        String::lemma_decodable(a, b, x, y);
    }
}

/// Identifies a logical provider request.
#[derive(Debug, PartialEq, Eq, PartialOrd, Ord, Hash)]
pub struct RequestId {
    text: String,
}

impl DeepView for RequestId {
    type V = Seq<char>;

    closed spec fn deep_view(&self) -> Seq<char> {
        self.text@
    }
}

impl View for RequestId {
    type V = Seq<char>;

    open spec fn view(&self) -> Seq<char> {
        self.deep_view()
    }
}

impl Record for RequestId {
    fn same(&self, other: &Self) -> (r: bool) {
        self.text.same(&other.text)
    }

    fn copied(&self) -> (r: Self) {
        RequestId { text: self.text.copied() }
    }
}

impl Clone for RequestId {
    fn clone(&self) -> (r: Self)
        ensures
            r@ == self@,
    {
        self.copied()
    }
}

impl RequestId {
    /// Wraps the text.
    pub fn new(text: &str) -> (r: RequestId)
        ensures
            r@ == text@,
    {
        RequestId { text: text.to_owned() }
    }

    /// The wrapped text.
    pub fn as_str(&self) -> (r: &str)
        ensures
            r@ == self@,
    {
        self.text.as_str()
    }
}

impl Encoded for RequestId {
    open spec fn fields(view: Seq<char>) -> Seq<Seq<char>> {
        seq![view]
    }

    fn encode(&self, hasher: &mut FingerprintHasher) {
        broadcast use group_absorb;

        hasher.field(self.as_str());
    }

    proof fn lemma_decodable(a: Seq<char>, b: Seq<char>, x: Seq<Seq<char>>, y: Seq<Seq<char>>) {
        String::lemma_decodable(a, b, x, y);
    }
}

/// Identifies one provider attempt of a request.
#[derive(Debug, PartialEq, Eq, PartialOrd, Ord, Hash)]
pub struct AttemptId {
    text: String,
}

impl DeepView for AttemptId {
    type V = Seq<char>;

    closed spec fn deep_view(&self) -> Seq<char> {
        self.text@
    }
}

impl View for AttemptId {
    type V = Seq<char>;

    open spec fn view(&self) -> Seq<char> {
        self.deep_view()
    }
}

impl Record for AttemptId {
    fn same(&self, other: &Self) -> (r: bool) {
        self.text.same(&other.text)
    }

    fn copied(&self) -> (r: Self) {
        AttemptId { text: self.text.copied() }
    }
}

impl Clone for AttemptId {
    fn clone(&self) -> (r: Self)
        ensures
            r@ == self@,
    {
        self.copied()
    }
}

impl AttemptId {
    /// Wraps the text.
    pub fn new(text: &str) -> (r: AttemptId)
        ensures
            r@ == text@,
    {
        AttemptId { text: text.to_owned() }
    }

    /// The wrapped text.
    pub fn as_str(&self) -> (r: &str)
        ensures
            r@ == self@,
    {
        self.text.as_str()
    }
}

impl Encoded for AttemptId {
    open spec fn fields(view: Seq<char>) -> Seq<Seq<char>> {
        seq![view]
    }

    fn encode(&self, hasher: &mut FingerprintHasher) {
        broadcast use group_absorb;

        hasher.field(self.as_str());
    }

    proof fn lemma_decodable(a: Seq<char>, b: Seq<char>, x: Seq<Seq<char>>, y: Seq<Seq<char>>) {
        String::lemma_decodable(a, b, x, y);
    }
}

/// Identifies a tool call and its result.
#[derive(Debug, PartialEq, Eq, PartialOrd, Ord, Hash)]
pub struct ToolCallId {
    text: String,
}

impl DeepView for ToolCallId {
    type V = Seq<char>;

    closed spec fn deep_view(&self) -> Seq<char> {
        self.text@
    }
}

impl View for ToolCallId {
    type V = Seq<char>;

    open spec fn view(&self) -> Seq<char> {
        self.deep_view()
    }
}

impl Record for ToolCallId {
    fn same(&self, other: &Self) -> (r: bool) {
        self.text.same(&other.text)
    }

    fn copied(&self) -> (r: Self) {
        ToolCallId { text: self.text.copied() }
    }
}

impl Clone for ToolCallId {
    fn clone(&self) -> (r: Self)
        ensures
            r@ == self@,
    {
        self.copied()
    }
}

impl ToolCallId {
    /// Wraps the text.
    pub fn new(text: &str) -> (r: ToolCallId)
        ensures
            r@ == text@,
    {
        ToolCallId { text: text.to_owned() }
    }

    /// The wrapped text.
    pub fn as_str(&self) -> (r: &str)
        ensures
            r@ == self@,
    {
        self.text.as_str()
    }
}

impl Encoded for ToolCallId {
    open spec fn fields(view: Seq<char>) -> Seq<Seq<char>> {
        seq![view]
    }

    fn encode(&self, hasher: &mut FingerprintHasher) {
        broadcast use group_absorb;

        hasher.field(self.as_str());
    }

    proof fn lemma_decodable(a: Seq<char>, b: Seq<char>, x: Seq<Seq<char>>, y: Seq<Seq<char>>) {
        String::lemma_decodable(a, b, x, y);
    }
}

/// Identifies a tenant.
#[derive(Debug, PartialEq, Eq, PartialOrd, Ord, Hash)]
pub struct TenantId {
    text: String,
}

impl DeepView for TenantId {
    type V = Seq<char>;

    closed spec fn deep_view(&self) -> Seq<char> {
        self.text@
    }
}

impl View for TenantId {
    type V = Seq<char>;

    open spec fn view(&self) -> Seq<char> {
        self.deep_view()
    }
}

impl Record for TenantId {
    fn same(&self, other: &Self) -> (r: bool) {
        self.text.same(&other.text)
    }

    fn copied(&self) -> (r: Self) {
        TenantId { text: self.text.copied() }
    }
}

impl Clone for TenantId {
    fn clone(&self) -> (r: Self)
        ensures
            r@ == self@,
    {
        self.copied()
    }
}

impl TenantId {
    /// Wraps the text.
    pub fn new(text: &str) -> (r: TenantId)
        ensures
            r@ == text@,
    {
        TenantId { text: text.to_owned() }
    }

    /// The wrapped text.
    pub fn as_str(&self) -> (r: &str)
        ensures
            r@ == self@,
    {
        self.text.as_str()
    }
}

impl Encoded for TenantId {
    open spec fn fields(view: Seq<char>) -> Seq<Seq<char>> {
        seq![view]
    }

    fn encode(&self, hasher: &mut FingerprintHasher) {
        broadcast use group_absorb;

        hasher.field(self.as_str());
    }

    proof fn lemma_decodable(a: Seq<char>, b: Seq<char>, x: Seq<Seq<char>>, y: Seq<Seq<char>>) {
        String::lemma_decodable(a, b, x, y);
    }
}

/// Identifies an emitted event.
#[derive(Debug, PartialEq, Eq, PartialOrd, Ord, Hash)]
pub struct EventId {
    text: String,
}

impl DeepView for EventId {
    type V = Seq<char>;

    closed spec fn deep_view(&self) -> Seq<char> {
        self.text@
    }
}

impl View for EventId {
    type V = Seq<char>;

    open spec fn view(&self) -> Seq<char> {
        self.deep_view()
    }
}

impl Record for EventId {
    fn same(&self, other: &Self) -> (r: bool) {
        self.text.same(&other.text)
    }

    fn copied(&self) -> (r: Self) {
        EventId { text: self.text.copied() }
    }
}

impl Clone for EventId {
    fn clone(&self) -> (r: Self)
        ensures
            r@ == self@,
    {
        self.copied()
    }
}

impl EventId {
    /// Wraps the text.
    pub fn new(text: &str) -> (r: EventId)
        ensures
            r@ == text@,
    {
        EventId { text: text.to_owned() }
    }

    /// The wrapped text.
    pub fn as_str(&self) -> (r: &str)
        ensures
            r@ == self@,
    {
        self.text.as_str()
    }
}

impl Encoded for EventId {
    open spec fn fields(view: Seq<char>) -> Seq<Seq<char>> {
        seq![view]
    }

    fn encode(&self, hasher: &mut FingerprintHasher) {
        broadcast use group_absorb;

        hasher.field(self.as_str());
    }

    proof fn lemma_decodable(a: Seq<char>, b: Seq<char>, x: Seq<Seq<char>>, y: Seq<Seq<char>>) {
        String::lemma_decodable(a, b, x, y);
    }
}

/// Identifies a delegated child.
#[derive(Debug, PartialEq, Eq, PartialOrd, Ord, Hash)]
pub struct ChildId {
    text: String,
}

impl DeepView for ChildId {
    type V = Seq<char>;

    closed spec fn deep_view(&self) -> Seq<char> {
        self.text@
    }
}

impl View for ChildId {
    type V = Seq<char>;

    open spec fn view(&self) -> Seq<char> {
        self.deep_view()
    }
}

impl Record for ChildId {
    fn same(&self, other: &Self) -> (r: bool) {
        self.text.same(&other.text)
    }

    fn copied(&self) -> (r: Self) {
        ChildId { text: self.text.copied() }
    }
}

impl Clone for ChildId {
    fn clone(&self) -> (r: Self)
        ensures
            r@ == self@,
    {
        self.copied()
    }
}

impl ChildId {
    /// Wraps the text.
    pub fn new(text: &str) -> (r: ChildId)
        ensures
            r@ == text@,
    {
        ChildId { text: text.to_owned() }
    }

    /// The wrapped text.
    pub fn as_str(&self) -> (r: &str)
        ensures
            r@ == self@,
    {
        self.text.as_str()
    }
}

impl Encoded for ChildId {
    open spec fn fields(view: Seq<char>) -> Seq<Seq<char>> {
        seq![view]
    }

    fn encode(&self, hasher: &mut FingerprintHasher) {
        broadcast use group_absorb;

        hasher.field(self.as_str());
    }

    proof fn lemma_decodable(a: Seq<char>, b: Seq<char>, x: Seq<Seq<char>>, y: Seq<Seq<char>>) {
        String::lemma_decodable(a, b, x, y);
    }
}

/// Identifies an accepted steering input.
#[derive(Debug, PartialEq, Eq, PartialOrd, Ord, Hash)]
pub struct SteerId {
    text: String,
}

impl DeepView for SteerId {
    type V = Seq<char>;

    closed spec fn deep_view(&self) -> Seq<char> {
        self.text@
    }
}

impl View for SteerId {
    type V = Seq<char>;

    open spec fn view(&self) -> Seq<char> {
        self.deep_view()
    }
}

impl Record for SteerId {
    fn same(&self, other: &Self) -> (r: bool) {
        self.text.same(&other.text)
    }

    fn copied(&self) -> (r: Self) {
        SteerId { text: self.text.copied() }
    }
}

impl Clone for SteerId {
    fn clone(&self) -> (r: Self)
        ensures
            r@ == self@,
    {
        self.copied()
    }
}

impl SteerId {
    /// Wraps the text.
    pub fn new(text: &str) -> (r: SteerId)
        ensures
            r@ == text@,
    {
        SteerId { text: text.to_owned() }
    }

    /// The wrapped text.
    pub fn as_str(&self) -> (r: &str)
        ensures
            r@ == self@,
    {
        self.text.as_str()
    }
}

impl Encoded for SteerId {
    open spec fn fields(view: Seq<char>) -> Seq<Seq<char>> {
        seq![view]
    }

    fn encode(&self, hasher: &mut FingerprintHasher) {
        broadcast use group_absorb;

        hasher.field(self.as_str());
    }

    proof fn lemma_decodable(a: Seq<char>, b: Seq<char>, x: Seq<Seq<char>>, y: Seq<Seq<char>>) {
        String::lemma_decodable(a, b, x, y);
    }
}

/// Identifies a host interaction.
#[derive(Debug, PartialEq, Eq, PartialOrd, Ord, Hash)]
pub struct InteractionRequestId {
    text: String,
}

impl DeepView for InteractionRequestId {
    type V = Seq<char>;

    closed spec fn deep_view(&self) -> Seq<char> {
        self.text@
    }
}

impl View for InteractionRequestId {
    type V = Seq<char>;

    open spec fn view(&self) -> Seq<char> {
        self.deep_view()
    }
}

impl Record for InteractionRequestId {
    fn same(&self, other: &Self) -> (r: bool) {
        self.text.same(&other.text)
    }

    fn copied(&self) -> (r: Self) {
        InteractionRequestId { text: self.text.copied() }
    }
}

impl Clone for InteractionRequestId {
    fn clone(&self) -> (r: Self)
        ensures
            r@ == self@,
    {
        self.copied()
    }
}

impl InteractionRequestId {
    /// Wraps the text.
    pub fn new(text: &str) -> (r: InteractionRequestId)
        ensures
            r@ == text@,
    {
        InteractionRequestId { text: text.to_owned() }
    }

    /// The wrapped text.
    pub fn as_str(&self) -> (r: &str)
        ensures
            r@ == self@,
    {
        self.text.as_str()
    }
}

impl Encoded for InteractionRequestId {
    open spec fn fields(view: Seq<char>) -> Seq<Seq<char>> {
        seq![view]
    }

    fn encode(&self, hasher: &mut FingerprintHasher) {
        broadcast use group_absorb;

        hasher.field(self.as_str());
    }

    proof fn lemma_decodable(a: Seq<char>, b: Seq<char>, x: Seq<Seq<char>>, y: Seq<Seq<char>>) {
        String::lemma_decodable(a, b, x, y);
    }
}

/// Identifies one question of a host interaction.
#[derive(Debug, PartialEq, Eq, PartialOrd, Ord, Hash)]
pub struct QuestionId {
    text: String,
}

impl DeepView for QuestionId {
    type V = Seq<char>;

    closed spec fn deep_view(&self) -> Seq<char> {
        self.text@
    }
}

impl View for QuestionId {
    type V = Seq<char>;

    open spec fn view(&self) -> Seq<char> {
        self.deep_view()
    }
}

impl Record for QuestionId {
    fn same(&self, other: &Self) -> (r: bool) {
        self.text.same(&other.text)
    }

    fn copied(&self) -> (r: Self) {
        QuestionId { text: self.text.copied() }
    }
}

impl Clone for QuestionId {
    fn clone(&self) -> (r: Self)
        ensures
            r@ == self@,
    {
        self.copied()
    }
}

impl QuestionId {
    /// Wraps the text.
    pub fn new(text: &str) -> (r: QuestionId)
        ensures
            r@ == text@,
    {
        QuestionId { text: text.to_owned() }
    }

    /// The wrapped text.
    pub fn as_str(&self) -> (r: &str)
        ensures
            r@ == self@,
    {
        self.text.as_str()
    }
}

impl Encoded for QuestionId {
    open spec fn fields(view: Seq<char>) -> Seq<Seq<char>> {
        seq![view]
    }

    fn encode(&self, hasher: &mut FingerprintHasher) {
        broadcast use group_absorb;

        hasher.field(self.as_str());
    }

    proof fn lemma_decodable(a: Seq<char>, b: Seq<char>, x: Seq<Seq<char>>, y: Seq<Seq<char>>) {
        String::lemma_decodable(a, b, x, y);
    }
}

/// Identifies a provider-cache operation.
#[derive(Debug, PartialEq, Eq, PartialOrd, Ord, Hash)]
pub struct CacheOperationId {
    text: String,
}

impl DeepView for CacheOperationId {
    type V = Seq<char>;

    closed spec fn deep_view(&self) -> Seq<char> {
        self.text@
    }
}

impl View for CacheOperationId {
    type V = Seq<char>;

    open spec fn view(&self) -> Seq<char> {
        self.deep_view()
    }
}

impl Record for CacheOperationId {
    fn same(&self, other: &Self) -> (r: bool) {
        self.text.same(&other.text)
    }

    fn copied(&self) -> (r: Self) {
        CacheOperationId { text: self.text.copied() }
    }
}

impl Clone for CacheOperationId {
    fn clone(&self) -> (r: Self)
        ensures
            r@ == self@,
    {
        self.copied()
    }
}

impl CacheOperationId {
    /// Wraps the text.
    pub fn new(text: &str) -> (r: CacheOperationId)
        ensures
            r@ == text@,
    {
        CacheOperationId { text: text.to_owned() }
    }

    /// The wrapped text.
    pub fn as_str(&self) -> (r: &str)
        ensures
            r@ == self@,
    {
        self.text.as_str()
    }
}

impl Encoded for CacheOperationId {
    open spec fn fields(view: Seq<char>) -> Seq<Seq<char>> {
        seq![view]
    }

    fn encode(&self, hasher: &mut FingerprintHasher) {
        broadcast use group_absorb;

        hasher.field(self.as_str());
    }

    proof fn lemma_decodable(a: Seq<char>, b: Seq<char>, x: Seq<Seq<char>>, y: Seq<Seq<char>>) {
        String::lemma_decodable(a, b, x, y);
    }
}

/// Identifies a persistent goal.
#[derive(Debug, PartialEq, Eq, PartialOrd, Ord, Hash)]
pub struct GoalId {
    text: String,
}

impl DeepView for GoalId {
    type V = Seq<char>;

    closed spec fn deep_view(&self) -> Seq<char> {
        self.text@
    }
}

impl View for GoalId {
    type V = Seq<char>;

    open spec fn view(&self) -> Seq<char> {
        self.deep_view()
    }
}

impl Record for GoalId {
    fn same(&self, other: &Self) -> (r: bool) {
        self.text.same(&other.text)
    }

    fn copied(&self) -> (r: Self) {
        GoalId { text: self.text.copied() }
    }
}

impl Clone for GoalId {
    fn clone(&self) -> (r: Self)
        ensures
            r@ == self@,
    {
        self.copied()
    }
}

impl GoalId {
    /// Wraps the text.
    pub fn new(text: &str) -> (r: GoalId)
        ensures
            r@ == text@,
    {
        GoalId { text: text.to_owned() }
    }

    /// The wrapped text.
    pub fn as_str(&self) -> (r: &str)
        ensures
            r@ == self@,
    {
        self.text.as_str()
    }
}

impl Encoded for GoalId {
    open spec fn fields(view: Seq<char>) -> Seq<Seq<char>> {
        seq![view]
    }

    fn encode(&self, hasher: &mut FingerprintHasher) {
        broadcast use group_absorb;

        hasher.field(self.as_str());
    }

    proof fn lemma_decodable(a: Seq<char>, b: Seq<char>, x: Seq<Seq<char>>, y: Seq<Seq<char>>) {
        String::lemma_decodable(a, b, x, y);
    }
}

} // verus!
