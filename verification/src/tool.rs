//! Prepared tool invocations and their effects.

use vstd::prelude::*;

use crate::content::{ContentPart, ContentPartView};
use crate::fingerprint::{
    absorb_all, fingerprint_of, group_absorb, lemma_concat_assoc, Encoded, Fingerprint,
    FingerprintHasher,
};
use crate::ids::ToolCallId;
use crate::json::Json;
use crate::record::Record;
use crate::security::{
    permission_sequence, Permission, PermissionSet, PermissionView, SecurityResource,
    SecurityResourceView,
};

verus! {

/// A location that a tool invocation may write to.
#[derive(Debug, PartialEq, Eq, PartialOrd, Ord, Hash)]
pub struct WriteScope {
    text: String,
}

impl DeepView for WriteScope {
    type V = Seq<char>;

    closed spec fn deep_view(&self) -> Seq<char> {
        self.text@
    }
}

impl View for WriteScope {
    type V = Seq<char>;

    open spec fn view(&self) -> Seq<char> {
        self.deep_view()
    }
}

impl Record for WriteScope {
    fn same(&self, other: &Self) -> (r: bool) {
        self.text.same(&other.text)
    }

    fn copied(&self) -> (r: Self) {
        WriteScope { text: self.text.copied() }
    }
}

impl Clone for WriteScope {
    fn clone(&self) -> (r: Self)
        ensures
            r@ == self@,
    {
        self.copied()
    }
}

impl WriteScope {
    /// Wraps the text.
    pub fn new(text: &str) -> (r: WriteScope)
        ensures
            r@ == text@,
    {
        WriteScope { text: text.to_owned() }
    }

    /// The wrapped text.
    pub fn as_str(&self) -> (r: &str)
        ensures
            r@ == self@,
    {
        self.text.as_str()
    }
}

impl Encoded for WriteScope {
    open spec fn fields(view: Seq<char>) -> Seq<Seq<char>> {
        seq![view]
    }

    fn encode(&self, hasher: &mut FingerprintHasher) {
        broadcast use group_absorb;

        hasher.field(self.as_str());
    }

    proof fn lemma_decodable(a: Seq<char>, b: Seq<char>, x: Seq<Seq<char>>, y: Seq<Seq<char>>) {
        String::lemma_decodable(a, b, x, y);
    }
}

/// The effects that a tool invocation declares.
#[derive(Debug, PartialEq, Eq)]
pub struct ToolEffects {
    writes: Vec<WriteScope>,
    spawns: bool,
}

/// What [`ToolEffects`] hold: the locations written to, and whether a process
/// is spawned.
pub struct ToolEffectsView {
    pub writes: Seq<Seq<char>>,
    pub spawns: bool,
}

impl DeepView for ToolEffects {
    type V = ToolEffectsView;

    closed spec fn deep_view(&self) -> ToolEffectsView {
        ToolEffectsView { writes: self.writes.deep_view(), spawns: self.spawns }
    }
}

impl View for ToolEffects {
    type V = ToolEffectsView;

    open spec fn view(&self) -> ToolEffectsView {
        self.deep_view()
    }
}

impl Record for ToolEffects {
    fn same(&self, other: &Self) -> (r: bool) {
        self.writes.same(&other.writes) && self.spawns == other.spawns
    }

    fn copied(&self) -> (r: Self) {
        ToolEffects { writes: self.writes.copied(), spawns: self.spawns }
    }
}

impl Clone for ToolEffects {
    fn clone(&self) -> (r: Self)
        ensures
            r@ == self@,
    {
        self.copied()
    }
}

impl Encoded for ToolEffects {
    open spec fn fields(view: ToolEffectsView) -> Seq<Seq<char>> {
        <Vec<WriteScope> as Encoded>::fields(view.writes) + <bool as Encoded>::fields(view.spawns)
    }

    fn encode(&self, hasher: &mut FingerprintHasher) {
        broadcast use group_absorb;

        self.writes.encode(hasher);
        self.spawns.encode(hasher);
    }

    proof fn lemma_decodable(
        a: ToolEffectsView,
        b: ToolEffectsView,
        x: Seq<Seq<char>>,
        y: Seq<Seq<char>>,
    ) {
        broadcast use lemma_concat_assoc;

        let x1 = bool::fields(a.spawns) + x;
        let y1 = bool::fields(b.spawns) + y;
        Vec::<WriteScope>::lemma_decodable(a.writes, b.writes, x1, y1);
        bool::lemma_decodable(a.spawns, b.spawns, x, y);
    }
}

impl ToolEffects {
    /// Writes to the given locations, and nothing else.
    pub fn new(writes: Vec<WriteScope>) -> (r: ToolEffects)
        ensures
            r@ == (ToolEffectsView { writes: writes.deep_view(), spawns: false }),
    {
        ToolEffects { writes, spawns: false }
    }

    /// No effects.
    pub fn read_only() -> (r: ToolEffects)
        ensures
            r@ == (ToolEffectsView { writes: Seq::empty(), spawns: false }),
    {
        let writes: Vec<WriteScope> = Vec::new();
        assert(writes.deep_view() =~= Seq::<Seq<char>>::empty());
        ToolEffects { writes, spawns: false }
    }

    /// The same effects, and a write to `scope`.
    pub fn with_write(self, scope: &str) -> (r: ToolEffects)
        ensures
            r@ == (ToolEffectsView { writes: self@.writes.push(scope@), ..self@ }),
    {
        let mut writes = self.writes;
        let ghost before = writes.deep_view();
        writes.push(WriteScope::new(scope));
        assert(writes.deep_view() =~= before.push(scope@));
        ToolEffects { writes, spawns: self.spawns }
    }

    /// The same effects, and a spawned process.
    pub fn with_spawn(self) -> (r: ToolEffects)
        ensures
            r@ == (ToolEffectsView { spawns: true, ..self@ }),
    {
        ToolEffects { writes: self.writes, spawns: true }
    }

    /// The locations written to.
    pub fn write_scopes(&self) -> (r: &Vec<WriteScope>)
        ensures
            r.deep_view() == self@.writes,
    {
        &self.writes
    }

    /// Whether a process is spawned.
    pub fn spawns_process(&self) -> (r: bool)
        ensures
            r == self@.spawns,
    {
        self.spawns
    }

    /// Whether there are no effects at all.
    pub fn is_empty(&self) -> (r: bool)
        ensures
            r == (self@.writes.len() == 0 && !self@.spawns),
    {
        self.writes.len() == 0 && !self.spawns
    }
}

impl Default for ToolEffects {
    fn default() -> (r: ToolEffects)
        ensures
            r@ == (ToolEffectsView { writes: Seq::empty(), spawns: false }),
    {
        ToolEffects::read_only()
    }
}

/// How a host shows a tool call.
#[derive(Debug, PartialEq, Eq, PartialOrd, Ord, Hash)]
pub struct ToolCallDisplay {
    text: String,
}

impl DeepView for ToolCallDisplay {
    type V = Seq<char>;

    closed spec fn deep_view(&self) -> Seq<char> {
        self.text@
    }
}

impl View for ToolCallDisplay {
    type V = Seq<char>;

    open spec fn view(&self) -> Seq<char> {
        self.deep_view()
    }
}

impl Record for ToolCallDisplay {
    fn same(&self, other: &Self) -> (r: bool) {
        self.text.same(&other.text)
    }

    fn copied(&self) -> (r: Self) {
        ToolCallDisplay { text: self.text.copied() }
    }
}

impl Clone for ToolCallDisplay {
    fn clone(&self) -> (r: Self)
        ensures
            r@ == self@,
    {
        self.copied()
    }
}

impl ToolCallDisplay {
    /// Wraps the text.
    pub fn new(text: &str) -> (r: ToolCallDisplay)
        ensures
            r@ == text@,
    {
        ToolCallDisplay { text: text.to_owned() }
    }

    /// The wrapped text.
    pub fn as_str(&self) -> (r: &str)
        ensures
            r@ == self@,
    {
        self.text.as_str()
    }
}

impl Encoded for ToolCallDisplay {
    open spec fn fields(view: Seq<char>) -> Seq<Seq<char>> {
        seq![view]
    }

    fn encode(&self, hasher: &mut FingerprintHasher) {
        broadcast use group_absorb;

        hasher.field(self.as_str());
    }

    proof fn lemma_decodable(a: Seq<char>, b: Seq<char>, x: Seq<Seq<char>>, y: Seq<Seq<char>>) {
        String::lemma_decodable(a, b, x, y);
    }
}

/// An exact, validated tool invocation that has not run yet.
#[derive(Debug, PartialEq, Eq)]
pub struct PreparedToolCall {
    call_id: ToolCallId,
    tool: String,
    arguments: Json,
    required_permissions: PermissionSet,
    resource: SecurityResource,
    effects: ToolEffects,
    display: ToolCallDisplay,
    fingerprint: Fingerprint,
}

/// What a [`PreparedToolCall`] holds.
pub struct PreparedToolCallView {
    pub call_id: Seq<char>,
    pub tool: Seq<char>,
    pub arguments: Seq<char>,
    pub required_permissions: Seq<PermissionView>,
    pub resource: SecurityResourceView,
    pub effects: ToolEffectsView,
    pub display: Seq<char>,
    pub fingerprint: Seq<char>,
}

impl PreparedToolCallView {
    /// The fields that the fingerprint of a prepared call covers.
    pub open spec fn content_fields(self) -> Seq<Seq<char>> {
        seq![self.call_id] + seq![self.tool] + seq![self.arguments] + <Vec<
            Permission,
        > as Encoded>::fields(self.required_permissions) + <SecurityResource as Encoded>::fields(
            self.resource,
        ) + <ToolEffects as Encoded>::fields(self.effects) + seq![self.display]
    }

    /// Whether the fingerprint is that of the content.
    pub open spec fn is_intact(self) -> bool {
        self.fingerprint == fingerprint_of(self.content_fields())
    }
}

impl DeepView for PreparedToolCall {
    type V = PreparedToolCallView;

    closed spec fn deep_view(&self) -> PreparedToolCallView {
        PreparedToolCallView {
            call_id: self.call_id@,
            tool: self.tool@,
            arguments: self.arguments@,
            required_permissions: permission_sequence(self.required_permissions@),
            resource: self.resource@,
            effects: self.effects@,
            display: self.display@,
            fingerprint: self.fingerprint@,
        }
    }
}

impl View for PreparedToolCall {
    type V = PreparedToolCallView;

    open spec fn view(&self) -> PreparedToolCallView {
        self.deep_view()
    }
}

impl Record for PreparedToolCall {
    fn same(&self, other: &Self) -> (r: bool) {
        let (_none, _other_none): (bool, bool) = (
            self.required_permissions.is_empty(),
            other.required_permissions.is_empty(),
        );
        self.call_id.same(&other.call_id) && self.tool.same(&other.tool) && self.arguments.same(
            &other.arguments,
        ) && self.required_permissions.same(&other.required_permissions) && self.resource.same(
            &other.resource,
        ) && self.effects.same(&other.effects) && self.display.same(&other.display)
            && self.fingerprint.same(&other.fingerprint)
    }

    fn copied(&self) -> (r: Self) {
        PreparedToolCall {
            call_id: self.call_id.copied(),
            tool: self.tool.copied(),
            arguments: self.arguments.copied(),
            required_permissions: self.required_permissions.copied(),
            resource: self.resource.copied(),
            effects: self.effects.copied(),
            display: self.display.copied(),
            fingerprint: self.fingerprint.copied(),
        }
    }
}

impl Clone for PreparedToolCall {
    fn clone(&self) -> (r: Self)
        ensures
            r@ == self@,
    {
        self.copied()
    }
}

impl Encoded for PreparedToolCall {
    open spec fn fields(view: PreparedToolCallView) -> Seq<Seq<char>> {
        view.content_fields() + seq![view.fingerprint]
    }

    fn encode(&self, hasher: &mut FingerprintHasher) {
        broadcast use group_absorb;

        self.encode_content(hasher);
        hasher.nested(&self.fingerprint);
    }

    proof fn lemma_decodable(
        a: PreparedToolCallView,
        b: PreparedToolCallView,
        x: Seq<Seq<char>>,
        y: Seq<Seq<char>>,
    ) {
        broadcast use lemma_concat_assoc;

        let x7 = String::fields(a.fingerprint) + x;
        let y7 = String::fields(b.fingerprint) + y;
        let x6 = String::fields(a.display) + x7;
        let y6 = String::fields(b.display) + y7;
        let x5 = ToolEffects::fields(a.effects) + x6;
        let y5 = ToolEffects::fields(b.effects) + y6;
        let x4 = SecurityResource::fields(a.resource) + x5;
        let y4 = SecurityResource::fields(b.resource) + y5;
        let x3 = Vec::<Permission>::fields(a.required_permissions) + x4;
        let y3 = Vec::<Permission>::fields(b.required_permissions) + y4;
        let x2 = String::fields(a.arguments) + x3;
        let y2 = String::fields(b.arguments) + y3;
        let x1 = String::fields(a.tool) + x2;
        let y1 = String::fields(b.tool) + y2;
        String::lemma_decodable(a.call_id, b.call_id, x1, y1);
        String::lemma_decodable(a.tool, b.tool, x2, y2);
        String::lemma_decodable(a.arguments, b.arguments, x3, y3);
        Vec::<Permission>::lemma_decodable(a.required_permissions, b.required_permissions, x4, y4);
        SecurityResource::lemma_decodable(a.resource, b.resource, x5, y5);
        ToolEffects::lemma_decodable(a.effects, b.effects, x6, y6);
        String::lemma_decodable(a.display, b.display, x7, y7);
        String::lemma_decodable(a.fingerprint, b.fingerprint, x, y);
    }
}

impl PreparedToolCall {
    /// Prepares a call.
    pub fn new(
        call_id: ToolCallId,
        tool: &str,
        arguments: Json,
        required_permissions: PermissionSet,
        resource: SecurityResource,
        effects: ToolEffects,
        display: ToolCallDisplay,
    ) -> (r: PreparedToolCall)
        ensures
            r@ == (PreparedToolCallView {
                call_id: call_id@,
                tool: tool@,
                arguments: arguments@,
                required_permissions: permission_sequence(required_permissions@),
                resource: resource@,
                effects: effects@,
                display: display@,
                fingerprint: fingerprint_of(r@.content_fields()),
            }),
            r@.is_intact(),
    {
        let draft = PreparedToolCall {
            call_id,
            tool: tool.to_owned(),
            arguments,
            required_permissions,
            resource,
            effects,
            display,
            fingerprint: Fingerprint::of(""),
        };
        let fingerprint = draft.content_fingerprint();
        PreparedToolCall { fingerprint, ..draft }
    }

    /// A call as it was stored, with the fingerprint stored beside it.
    pub fn restore(
        call_id: ToolCallId,
        tool: &str,
        arguments: Json,
        required_permissions: PermissionSet,
        resource: SecurityResource,
        effects: ToolEffects,
        display: ToolCallDisplay,
        fingerprint: Fingerprint,
    ) -> (r: PreparedToolCall)
        ensures
            r@ == (PreparedToolCallView {
                call_id: call_id@,
                tool: tool@,
                arguments: arguments@,
                required_permissions: permission_sequence(required_permissions@),
                resource: resource@,
                effects: effects@,
                display: display@,
                fingerprint: fingerprint@,
            }),
    {
        PreparedToolCall {
            call_id,
            tool: tool.to_owned(),
            arguments,
            required_permissions,
            resource,
            effects,
            display,
            fingerprint,
        }
    }

    fn encode_content(&self, hasher: &mut FingerprintHasher)
        ensures
            final(hasher)@ == absorb_all(old(hasher)@, self@.content_fields()),
    {
        broadcast use group_absorb;

        hasher.field(self.call_id.as_str());
        hasher.field(self.tool.as_str());
        hasher.field(self.arguments.as_str());
        self.required_permissions.to_list().encode(hasher);
        self.resource.encode(hasher);
        self.effects.encode(hasher);
        hasher.field(self.display.as_str());
    }

    fn content_fingerprint(&self) -> (r: Fingerprint)
        ensures
            r@ == fingerprint_of(self@.content_fields()),
    {
        let mut hasher = FingerprintHasher::new();
        self.encode_content(&mut hasher);
        hasher.finish()
    }

    /// The call that was prepared.
    pub fn call_id(&self) -> (r: &ToolCallId)
        ensures
            r@ == self@.call_id,
    {
        &self.call_id
    }

    /// The tool to invoke.
    pub fn tool(&self) -> (r: &str)
        ensures
            r@ == self@.tool,
    {
        self.tool.as_str()
    }

    /// The validated arguments.
    pub fn arguments(&self) -> (r: &Json)
        ensures
            r@ == self@.arguments,
    {
        &self.arguments
    }

    /// The permissions that the invocation needs.
    pub fn required_permissions(&self) -> (r: &PermissionSet)
        ensures
            permission_sequence(r@) == self@.required_permissions,
            r@ == self@.required_permissions.to_set(),
    {
        let _none: bool = self.required_permissions.is_empty();
        &self.required_permissions
    }

    /// Whether the invocation needs any permission.
    pub fn needs_permission(&self) -> (r: bool)
        ensures
            r == (self@.required_permissions.len() > 0),
    {
        let none = self.required_permissions.is_empty();
        proof {
            let permissions = self@.required_permissions;
            if permissions.len() > 0 {
                assert(permissions.to_set().contains(permissions[0]));
            } else {
                assert(permissions.to_set() =~= Set::<PermissionView>::empty());
            }
        }
        !none
    }

    /// What the invocation acts on.
    pub fn resource(&self) -> (r: &SecurityResource)
        ensures
            r@ == self@.resource,
    {
        &self.resource
    }

    /// The declared effects.
    pub fn effects(&self) -> (r: &ToolEffects)
        ensures
            r@ == self@.effects,
    {
        &self.effects
    }

    /// How a host shows the call.
    pub fn display(&self) -> (r: &ToolCallDisplay)
        ensures
            r@ == self@.display,
    {
        &self.display
    }

    /// The fingerprint that the call carries.
    pub fn fingerprint(&self) -> (r: &Fingerprint)
        ensures
            r@ == self@.fingerprint,
    {
        &self.fingerprint
    }

    /// Whether the call's fingerprint is that of its content.
    pub fn verify_fingerprint(&self) -> (r: bool)
        ensures
            r == self@.is_intact(),
    {
        self.fingerprint.same(&self.content_fingerprint())
    }
}

/// The raw outcome of a tool invocation.
#[derive(Debug, PartialEq, Eq)]
pub struct ToolOutcome {
    /// What the tool returned.
    pub content: Vec<ContentPart>,
    /// Whether the tool reported an error.
    pub is_error: bool,
}

/// What a [`ToolOutcome`] holds.
pub struct ToolOutcomeView {
    pub content: Seq<ContentPartView>,
    pub is_error: bool,
}

impl DeepView for ToolOutcome {
    type V = ToolOutcomeView;

    open spec fn deep_view(&self) -> ToolOutcomeView {
        ToolOutcomeView {
            content: self.content.deep_view(),
            is_error: self.is_error.deep_view(),
        }
    }
}

impl View for ToolOutcome {
    type V = ToolOutcomeView;

    open spec fn view(&self) -> ToolOutcomeView {
        self.deep_view()
    }
}

impl Record for ToolOutcome {
    fn same(&self, other: &Self) -> (r: bool) {
        self.content.same(&other.content)
            && self.is_error.same(&other.is_error)
    }

    fn copied(&self) -> (r: Self) {
        ToolOutcome {
            content: self.content.copied(),
            is_error: self.is_error.copied(),
        }
    }
}

impl Clone for ToolOutcome {
    fn clone(&self) -> (r: Self)
        ensures
            r@ == self@,
    {
        self.copied()
    }
}

impl Encoded for ToolOutcome {
    open spec fn fields(view: ToolOutcomeView) -> Seq<Seq<char>> {
        <Vec<ContentPart> as Encoded>::fields(view.content)
            + <bool as Encoded>::fields(view.is_error)
    }

    fn encode(&self, hasher: &mut FingerprintHasher) {
        broadcast use group_absorb;

        self.content.encode(hasher);
        self.is_error.encode(hasher);
    }

    proof fn lemma_decodable(
        a: ToolOutcomeView,
        b: ToolOutcomeView,
        x: Seq<Seq<char>>,
        y: Seq<Seq<char>>,
    ) {
        broadcast use lemma_concat_assoc;

        let x1 = bool::fields(a.is_error) + x;
        let y1 = bool::fields(b.is_error) + y;
        Vec::<ContentPart>::lemma_decodable(a.content, b.content, x1, y1);
        bool::lemma_decodable(a.is_error, b.is_error, x, y);
    }
}

/// The fields that the fingerprint of a prepared call covers are those of one
/// content only: calls with the same fields differ in nothing but the fingerprints
/// that they carry.
pub proof fn content_fields_determine_the_call(a: PreparedToolCallView, b: PreparedToolCallView)
    requires
        a.content_fields() == b.content_fields(),
    ensures
        a == (PreparedToolCallView { fingerprint: a.fingerprint, ..b }),
{
    let c = PreparedToolCallView { fingerprint: a.fingerprint, ..b };
    let none = Seq::<Seq<char>>::empty();
    assert(c.content_fields() == b.content_fields());
    PreparedToolCall::lemma_decodable(a, c, none, none);
}

/// A call that was just prepared holds what it was prepared of, and its fingerprint verifies.
/// A stored one verifies exactly when the stored fingerprint is that one.
pub proof fn only_the_own_fingerprint_verifies(
    call_id: ToolCallId,
    tool: &str,
    arguments: Json,
    required_permissions: PermissionSet,
    resource: SecurityResource,
    effects: ToolEffects,
    display: ToolCallDisplay,
    fingerprint: Fingerprint,
    made: PreparedToolCall,
    stored: PreparedToolCall,
    made_verifies: bool,
    stored_verifies: bool,
)
    requires
        call_ensures(
            PreparedToolCall::new,
            (call_id, tool, arguments, required_permissions, resource, effects, display),
            made,
        ),
        call_ensures(
            PreparedToolCall::restore,
            (
                call_id,
                tool,
                arguments,
                required_permissions,
                resource,
                effects,
                display,
                fingerprint,
            ),
            stored,
        ),
        call_ensures(PreparedToolCall::verify_fingerprint, (&made,), made_verifies),
        call_ensures(PreparedToolCall::verify_fingerprint, (&stored,), stored_verifies),
    ensures
        made_verifies,
        stored_verifies <==> fingerprint@ == made@.fingerprint,
        stored@ == (PreparedToolCallView { fingerprint: fingerprint@, ..made@ }),
        made@.call_id == call_id@,
        made@.tool == tool@,
        made@.arguments == arguments@,
        made@.required_permissions == permission_sequence(required_permissions@),
        made@.resource == resource@,
        made@.effects == effects@,
        made@.display == display@,
{
    assert(made@.content_fields() == stored@.content_fields());
}

/// Effects that read only have none. A write adds its scope behind those that there are, and a
/// spawn adds a process; with either, the effects are not empty.
pub proof fn effects_add_up(
    scope: &str,
    effects: ToolEffects,
    none: ToolEffects,
    writing: ToolEffects,
    spawning: ToolEffects,
    a: bool,
    b: bool,
    c: bool,
)
    requires
        call_ensures(ToolEffects::read_only, (), none),
        call_ensures(ToolEffects::with_write, (effects, scope), writing),
        call_ensures(ToolEffects::with_spawn, (effects,), spawning),
        call_ensures(ToolEffects::is_empty, (&none,), a),
        call_ensures(ToolEffects::is_empty, (&writing,), b),
        call_ensures(ToolEffects::is_empty, (&spawning,), c),
    ensures
        a,
        !b,
        !c,
        writing@.writes.len() == effects@.writes.len() + 1,
        writing@.writes.last() == scope@,
        writing@.writes.drop_last() == effects@.writes,
        writing@.spawns == effects@.spawns,
        spawning@.writes == effects@.writes,
        spawning@.spawns,
{
    assert(writing@.writes.drop_last() =~= effects@.writes);
}

/// A prepared call needs permission exactly when it asks for any.
pub proof fn a_call_needs_what_it_asks_for(call: PreparedToolCall, r: bool)
    requires
        call_ensures(PreparedToolCall::needs_permission, (&call,), r),
    ensures
        r <==> exists|p: PermissionView| #[trigger] call@.required_permissions.contains(p),
{
    if call@.required_permissions.len() > 0 {
        assert(call@.required_permissions.contains(call@.required_permissions[0]));
    }
}

} // verus!
