//! Neutral messages and content.
//!
//! The canonical conversation history is a list of [`Message`]s. Tool calls and
//! tool results are first-class [`ContentPart`]s.

use vstd::prelude::*;

use vstd::string::StringExecFns;

use crate::error::{outcome_view, RuntimeError, RuntimeErrorView};
use crate::fingerprint::{
    absorb_all, group_absorb, lemma_absorb_concat, lemma_absorb_one, lemma_concat_assoc, Encoded,
    FingerprintHasher,
};
use crate::ids::ToolCallId;
use crate::json::Json;
use crate::record::Record;

verus! {

/// Who authored a message.
#[derive(Debug, Clone, Copy, PartialEq, Eq, Structural)]
pub enum Role {
    /// System / developer instructions supplied by the host.
    System,
    /// End-user input.
    User,
    /// Model output.
    Assistant,
    /// A tool result fed back to the model.
    Tool,
}

impl DeepView for Role {
    type V = Role;

    open spec fn deep_view(&self) -> Role {
        *self
    }
}

impl Record for Role {
    fn same(&self, other: &Self) -> (r: bool) {
        *self == *other
    }

    fn copied(&self) -> (r: Self) {
        *self
    }
}

impl Encoded for Role {
    open spec fn fields(view: Role) -> Seq<Seq<char>> {
        seq![
            match view {
                Role::System => "system"@,
                Role::User => "user"@,
                Role::Assistant => "assistant"@,
                Role::Tool => "tool"@,
            },
        ]
    }

    fn encode(&self, hasher: &mut FingerprintHasher) {
        broadcast use group_absorb;

        hasher.field(
            match self {
                Role::System => "system",
                Role::User => "user",
                Role::Assistant => "assistant",
                Role::Tool => "tool",
            },
        );
    }

    proof fn lemma_decodable(a: Role, b: Role, x: Seq<Seq<char>>, y: Seq<Seq<char>>) {
        reveal_strlit("system");
        assert("system"@.len() == 6);
        reveal_strlit("user");
        assert("user"@.len() == 4);
        reveal_strlit("assistant");
        assert("assistant"@.len() == 9);
        reveal_strlit("tool");
        assert("tool"@.len() == 4);
        assert("user"@[0] != "tool"@[0]);
        String::lemma_decodable(Self::fields(a)[0], Self::fields(b)[0], x, y);
        assert(Self::fields(a)[0] == Self::fields(b)[0]);
    }
}

/// A validated tool call assembled from a provider stream.
#[derive(Debug, PartialEq, Eq)]
pub struct ToolCall {
    /// Stable id correlating this call to its result.
    pub id: ToolCallId,
    /// The tool name the model asked to invoke.
    pub name: String,
    /// The parsed JSON arguments.
    pub arguments: Json,
}

/// What a [`ToolCall`] holds.
pub struct ToolCallView {
    pub id: Seq<char>,
    pub name: Seq<char>,
    pub arguments: Seq<char>,
}

impl DeepView for ToolCall {
    type V = ToolCallView;

    open spec fn deep_view(&self) -> ToolCallView {
        ToolCallView {
            id: self.id.deep_view(),
            name: self.name.deep_view(),
            arguments: self.arguments.deep_view(),
        }
    }
}

impl View for ToolCall {
    type V = ToolCallView;

    open spec fn view(&self) -> ToolCallView {
        self.deep_view()
    }
}

impl Record for ToolCall {
    fn same(&self, other: &Self) -> (r: bool) {
        self.id.same(&other.id)
            && self.name.same(&other.name)
            && self.arguments.same(&other.arguments)
    }

    fn copied(&self) -> (r: Self) {
        ToolCall {
            id: self.id.copied(),
            name: self.name.copied(),
            arguments: self.arguments.copied(),
        }
    }
}

impl Clone for ToolCall {
    fn clone(&self) -> (r: Self)
        ensures
            r@ == self@,
    {
        self.copied()
    }
}

impl Encoded for ToolCall {
    open spec fn fields(view: ToolCallView) -> Seq<Seq<char>> {
        <ToolCallId as Encoded>::fields(view.id)
            + <String as Encoded>::fields(view.name)
            + <Json as Encoded>::fields(view.arguments)
    }

    fn encode(&self, hasher: &mut FingerprintHasher) {
        broadcast use group_absorb;

        self.id.encode(hasher);
        self.name.encode(hasher);
        self.arguments.encode(hasher);
    }

    proof fn lemma_decodable(
        a: ToolCallView,
        b: ToolCallView,
        x: Seq<Seq<char>>,
        y: Seq<Seq<char>>,
    ) {
        broadcast use lemma_concat_assoc;

        let x2 = Json::fields(a.arguments) + x;
        let y2 = Json::fields(b.arguments) + y;
        let x1 = String::fields(a.name) + x2;
        let y1 = String::fields(b.name) + y2;
        ToolCallId::lemma_decodable(a.id, b.id, x1, y1);
        String::lemma_decodable(a.name, b.name, x2, y2);
        Json::lemma_decodable(a.arguments, b.arguments, x, y);
    }
}

/// A single piece of message content.
#[derive(Debug, PartialEq, Eq)]
pub enum ContentPart {
    /// Plain text.
    Text {
        /// The text.
        text: String,
    },
    /// Model reasoning / thinking. `redacted` marks provider-encrypted or
    /// policy-hidden reasoning whose text must not be surfaced verbatim.
    Reasoning {
        /// The reasoning text (already redacted when `redacted` is set).
        text: String,
        /// Whether the reasoning content is redacted.
        redacted: bool,
        /// A provider-issued integrity signature for the reasoning, kept so
        /// that it can be sent back verbatim. Absent for providers that do not
        /// sign.
        signature: Option<String>,
    },
    /// An image reference.
    Image {
        /// A URL or data URI.
        url: String,
        /// Optional provider-specific detail hint (e.g. `"high"`).
        detail: Option<String>,
    },
    /// A tool call requested by the model.
    ToolCall(ToolCall),
    /// The canonical result of a tool call, appended to history by the runtime.
    ToolResult(ToolResultBlock),
}

/// The canonical, model-facing result of a tool call.
#[derive(Debug, PartialEq, Eq)]
pub struct ToolResultBlock {
    /// The id of the [`ToolCall`] this result answers.
    pub call_id: ToolCallId,
    /// The tool name (for host presentation and auditing).
    pub name: String,
    /// The rendered, model-facing content of the result.
    pub content: Vec<ContentPart>,
    /// Whether the tool reported an error (the model still sees the content).
    pub is_error: bool,
}

/// What a [`ContentPart`] holds.
pub enum ContentPartView {
    Text { text: Seq<char> },
    Reasoning { text: Seq<char>, redacted: bool, signature: Option<Seq<char>> },
    Image { url: Seq<char>, detail: Option<Seq<char>> },
    ToolCall(ToolCallView),
    ToolResult(ToolResultBlockView),
}

/// What a [`ToolResultBlock`] holds.
pub struct ToolResultBlockView {
    pub call_id: Seq<char>,
    pub name: Seq<char>,
    pub content: Seq<ContentPartView>,
    pub is_error: bool,
}

/// What the part holds.
pub open spec fn part_view(part: ContentPart) -> ContentPartView
    decreases part,
{
    match part {
        ContentPart::Text { text } => ContentPartView::Text { text: text@ },
        ContentPart::Reasoning { text, redacted, signature } => ContentPartView::Reasoning {
            text: text@,
            redacted,
            signature: signature.deep_view(),
        },
        ContentPart::Image { url, detail } => ContentPartView::Image {
            url: url@,
            detail: detail.deep_view(),
        },
        ContentPart::ToolCall(call) => ContentPartView::ToolCall(call@),
        ContentPart::ToolResult(block) => ContentPartView::ToolResult(
            ToolResultBlockView {
                call_id: block.call_id@,
                name: block.name@,
                content: parts_view(block.content@),
                is_error: block.is_error,
            },
        ),
    }
}

/// What the parts hold.
pub open spec fn parts_view(parts: Seq<ContentPart>) -> Seq<ContentPartView>
    decreases parts,
{
    if parts.len() == 0 {
        Seq::empty()
    } else {
        parts_view(parts.drop_last()).push(part_view(parts.last()))
    }
}

/// The view of a list of parts is that of its parts, one by one.
pub proof fn lemma_parts_view(parts: Seq<ContentPart>)
    ensures
        parts_view(parts).len() == parts.len(),
        forall|i: int|
            0 <= i < parts.len() ==> #[trigger] parts_view(parts)[i] == part_view(parts[i]),
    decreases parts.len(),
{
    if parts.len() > 0 {
        lemma_parts_view(parts.drop_last());
        assert forall|i: int| 0 <= i < parts.len() implies #[trigger] parts_view(parts)[i]
            == part_view(parts[i]) by {
            if i < parts.len() - 1 {
                assert(parts.drop_last()[i] == parts[i]);
            }
        }
    }
}

impl DeepView for ContentPart {
    type V = ContentPartView;

    open spec fn deep_view(&self) -> ContentPartView {
        part_view(*self)
    }
}

impl View for ContentPart {
    type V = ContentPartView;

    open spec fn view(&self) -> ContentPartView {
        self.deep_view()
    }
}

impl DeepView for ToolResultBlock {
    type V = ToolResultBlockView;

    open spec fn deep_view(&self) -> ToolResultBlockView {
        ToolResultBlockView {
            call_id: self.call_id@,
            name: self.name@,
            content: parts_view(self.content@),
            is_error: self.is_error,
        }
    }
}

impl View for ToolResultBlock {
    type V = ToolResultBlockView;

    open spec fn view(&self) -> ToolResultBlockView {
        self.deep_view()
    }
}

fn part_same(a: &ContentPart, b: &ContentPart) -> (r: bool)
    ensures
        r == (part_view(*a) == part_view(*b)),
    decreases a,
{
    match (a, b) {
        (ContentPart::Text { text }, ContentPart::Text { text: text_b }) => text.same(text_b),
        (
            ContentPart::Reasoning { text, redacted, signature },
            ContentPart::Reasoning { text: text_b, redacted: redacted_b, signature: signature_b },
        ) => text.same(text_b) && *redacted == *redacted_b && signature.same(signature_b),
        (
            ContentPart::Image { url, detail },
            ContentPart::Image { url: url_b, detail: detail_b },
        ) => url.same(url_b) && detail.same(detail_b),
        (ContentPart::ToolCall(call), ContentPart::ToolCall(call_b)) => call.same(call_b),
        (ContentPart::ToolResult(block), ContentPart::ToolResult(block_b)) => {
            block.call_id.same(&block_b.call_id) && block.name.same(&block_b.name)
                && block.is_error == block_b.is_error && parts_same(
                &block.content,
                &block_b.content,
            )
        },
        _ => false,
    }
}

fn parts_same(a: &Vec<ContentPart>, b: &Vec<ContentPart>) -> (r: bool)
    ensures
        r == (parts_view(a@) == parts_view(b@)),
    decreases a,
{
    proof {
        lemma_parts_view(a@);
        lemma_parts_view(b@);
    }
    if a.len() != b.len() {
        return false;
    }
    let mut i: usize = 0;
    while i < a.len()
        invariant
            i <= a.len(),
            a.len() == b.len(),
            parts_view(a@).len() == a.len(),
            parts_view(b@).len() == b.len(),
            forall|j: int| 0 <= j < a.len() ==> #[trigger] parts_view(a@)[j] == part_view(a@[j]),
            forall|j: int| 0 <= j < b.len() ==> #[trigger] parts_view(b@)[j] == part_view(b@[j]),
            forall|j: int| 0 <= j < i ==> parts_view(a@)[j] == #[trigger] parts_view(b@)[j],
        decreases a.len() - i,
    {
        proof {
            assert(decreases_to!(a => a@));
            assert(decreases_to!(a@ => a@[i as int]));
        }
        if !part_same(&a[i], &b[i]) {
            assert(parts_view(a@)[i as int] != parts_view(b@)[i as int]);
            return false;
        }
        i = i + 1;
    }
    assert(parts_view(a@) =~= parts_view(b@));
    true
}

fn part_copied(part: &ContentPart) -> (r: ContentPart)
    ensures
        part_view(r) == part_view(*part),
    decreases part,
{
    match part {
        ContentPart::Text { text } => ContentPart::Text { text: text.copied() },
        ContentPart::Reasoning { text, redacted, signature } => ContentPart::Reasoning {
            text: text.copied(),
            redacted: *redacted,
            signature: signature.copied(),
        },
        ContentPart::Image { url, detail } => ContentPart::Image {
            url: url.copied(),
            detail: detail.copied(),
        },
        ContentPart::ToolCall(call) => ContentPart::ToolCall(call.copied()),
        ContentPart::ToolResult(block) => ContentPart::ToolResult(
            ToolResultBlock {
                call_id: block.call_id.copied(),
                name: block.name.copied(),
                content: parts_copied(&block.content),
                is_error: block.is_error,
            },
        ),
    }
}

fn parts_copied(parts: &Vec<ContentPart>) -> (r: Vec<ContentPart>)
    ensures
        parts_view(r@) == parts_view(parts@),
    decreases parts,
{
    let mut out: Vec<ContentPart> = Vec::new();
    let mut i: usize = 0;
    while i < parts.len()
        invariant
            i <= parts.len(),
            out.len() == i,
            forall|j: int| 0 <= j < i ==> part_view(#[trigger] out@[j]) == part_view(parts@[j]),
        decreases parts.len() - i,
    {
        proof {
            assert(decreases_to!(parts => parts@));
            assert(decreases_to!(parts@ => parts@[i as int]));
        }
        out.push(part_copied(&parts[i]));
        i = i + 1;
    }
    proof {
        lemma_parts_view(out@);
        lemma_parts_view(parts@);
        assert(parts_view(out@) =~= parts_view(parts@));
    }
    out
}

impl Record for ContentPart {
    fn same(&self, other: &Self) -> (r: bool) {
        part_same(self, other)
    }

    fn copied(&self) -> (r: Self) {
        part_copied(self)
    }
}

impl Record for ToolResultBlock {
    fn same(&self, other: &Self) -> (r: bool) {
        self.call_id.same(&other.call_id) && self.name.same(&other.name) && self.is_error
            == other.is_error && parts_same(&self.content, &other.content)
    }

    fn copied(&self) -> (r: Self) {
        ToolResultBlock {
            call_id: self.call_id.copied(),
            name: self.name.copied(),
            content: parts_copied(&self.content),
            is_error: self.is_error,
        }
    }
}

impl Clone for ContentPart {
    fn clone(&self) -> (r: Self)
        ensures
            r@ == self@,
    {
        self.copied()
    }
}

impl Clone for ToolResultBlock {
    fn clone(&self) -> (r: Self)
        ensures
            r@ == self@,
    {
        self.copied()
    }
}

/// The canonical fields of a part.
pub open spec fn part_fields(view: ContentPartView) -> Seq<Seq<char>>
    decreases view,
{
    match view {
        ContentPartView::Text { text } => seq!["text"@, text],
        ContentPartView::Reasoning { text, redacted, signature } => seq!["reasoning"@, text]
            + <bool as Encoded>::fields(redacted) + <Option<String> as Encoded>::fields(signature),
        ContentPartView::Image { url, detail } => seq!["image"@, url] + <Option<
            String,
        > as Encoded>::fields(detail),
        ContentPartView::ToolCall(call) => seq!["tool_call"@] + <ToolCall as Encoded>::fields(call),
        ContentPartView::ToolResult(block) => seq!["tool_result"@, block.call_id, block.name]
            + <bool as Encoded>::fields(block.is_error) + seq![
            crate::text::decimal(block.content.len()),
        ] + parts_fields(block.content),
    }
}

/// The canonical fields of the parts, in order.
pub open spec fn parts_fields(views: Seq<ContentPartView>) -> Seq<Seq<char>>
    decreases views,
{
    if views.len() == 0 {
        Seq::empty()
    } else {
        parts_fields(views.drop_last()) + part_fields(views.last())
    }
}

fn part_encode(part: &ContentPart, hasher: &mut FingerprintHasher)
    ensures
        final(hasher)@ == absorb_all(old(hasher)@, part_fields(part_view(*part))),
    decreases part,
{
    broadcast use group_absorb;

    match part {
        ContentPart::Text { text } => {
            hasher.pair("text", text.as_str());
        },
        ContentPart::Reasoning { text, redacted, signature } => {
            hasher.pair("reasoning", text.as_str());
            redacted.encode(hasher);
            signature.encode(hasher);
        },
        ContentPart::Image { url, detail } => {
            hasher.pair("image", url.as_str());
            detail.encode(hasher);
        },
        ContentPart::ToolCall(call) => {
            hasher.field("tool_call");
            call.encode(hasher);
        },
        ContentPart::ToolResult(block) => {
            block_encode(block, hasher);
        },
    }
}

/// The canonical fields of a tool result.
pub open spec fn block_fields(block: ToolResultBlockView) -> Seq<Seq<char>> {
    seq!["tool_result"@, block.call_id, block.name] + <bool as Encoded>::fields(block.is_error)
        + seq![crate::text::decimal(block.content.len())] + parts_fields(block.content)
}

fn block_encode(block: &ToolResultBlock, hasher: &mut FingerprintHasher)
    ensures
        final(hasher)@ == absorb_all(old(hasher)@, block_fields(block@)),
    decreases block,
{
    broadcast use group_absorb;

    assert(seq!["tool_result"@, block.call_id@, block.name@] =~= seq![
        "tool_result"@,
        block.call_id@,
    ] + seq![block.name@]);
    hasher.pair("tool_result", block.call_id.as_str());
    hasher.field(block.name.as_str());
    block.is_error.encode(hasher);
    proof {
        lemma_parts_view(block.content@);
    }
    hasher.field(crate::text::decimal_text(block.content.len() as u64).as_str());
    let ghost start = hasher@;
    let ghost views = parts_view(block.content@);
    let mut i: usize = 0;
    assert(views.subrange(0, 0) =~= Seq::<ContentPartView>::empty());
    while i < block.content.len()
        invariant
            i <= block.content.len(),
            views == parts_view(block.content@),
            views.len() == block.content.len(),
            forall|j: int|
                0 <= j < views.len() ==> #[trigger] views[j] == part_view(block.content@[j]),
            hasher@ == absorb_all(start, parts_fields(views.subrange(0, i as int))),
        decreases block.content.len() - i,
    {
        broadcast use group_absorb;

        proof {
            let items = views.subrange(0, i + 1);
            assert(items.drop_last() =~= views.subrange(0, i as int));
            assert(items.last() == views[i as int]);
            assert(decreases_to!(block => block.content));
            assert(decreases_to!(block.content => block.content@));
            assert(decreases_to!(block.content@ => block.content@[i as int]));
        }
        part_encode(&block.content[i], hasher);
        i = i + 1;
    }
    assert(views.subrange(0, views.len() as int) =~= views);
}

proof fn lemma_part_decodable(
    a: ContentPartView,
    b: ContentPartView,
    x: Seq<Seq<char>>,
    y: Seq<Seq<char>>,
)
    requires
        part_fields(a) + x == part_fields(b) + y,
    ensures
        a == b,
        x == y,
    decreases a,
{
    broadcast use lemma_concat_assoc;

    reveal_strlit("text");
    assert("text"@.len() == 4);
    reveal_strlit("reasoning");
    assert("reasoning"@.len() == 9);
    reveal_strlit("image");
    assert("image"@.len() == 5);
    reveal_strlit("tool_call");
    assert("tool_call"@.len() == 9);
    reveal_strlit("tool_result");
    assert("tool_result"@.len() == 11);
    assert("reasoning"@[0] != "tool_call"@[0]);
    assert((part_fields(a) + x)[0] == part_fields(a)[0]);
    assert((part_fields(b) + y)[0] == part_fields(b)[0]);
    match (a, b) {
        (ContentPartView::Text { text }, ContentPartView::Text { text: other_text }) => {
            assert(part_fields(a) =~= seq!["text"@] + seq![text]);
            assert(part_fields(b) =~= seq!["text"@] + seq![other_text]);
            String::lemma_decodable("text"@, "text"@, seq![text] + x, seq![other_text] + y);
            String::lemma_decodable(text, other_text, x, y);
        },
        (
            ContentPartView::Reasoning { text, redacted, signature },
            ContentPartView::Reasoning {
                text: other_text,
                redacted: other_redacted,
                signature: other_signature,
            },
        ) => {
            assert(seq!["reasoning"@, text] =~= seq!["reasoning"@] + seq![text]);
            assert(seq!["reasoning"@, other_text] =~= seq!["reasoning"@] + seq![other_text]);
            let x2 = Option::<String>::fields(signature) + x;
            let y2 = Option::<String>::fields(other_signature) + y;
            let x1 = bool::fields(redacted) + x2;
            let y1 = bool::fields(other_redacted) + y2;
            String::lemma_decodable(
                "reasoning"@,
                "reasoning"@,
                seq![text] + x1,
                seq![other_text] + y1,
            );
            String::lemma_decodable(text, other_text, x1, y1);
            bool::lemma_decodable(redacted, other_redacted, x2, y2);
            Option::<String>::lemma_decodable(signature, other_signature, x, y);
        },
        (
            ContentPartView::Image { url, detail },
            ContentPartView::Image { url: other_url, detail: other_detail },
        ) => {
            assert(seq!["image"@, url] =~= seq!["image"@] + seq![url]);
            assert(seq!["image"@, other_url] =~= seq!["image"@] + seq![other_url]);
            let x1 = Option::<String>::fields(detail) + x;
            let y1 = Option::<String>::fields(other_detail) + y;
            String::lemma_decodable("image"@, "image"@, seq![url] + x1, seq![other_url] + y1);
            String::lemma_decodable(url, other_url, x1, y1);
            Option::<String>::lemma_decodable(detail, other_detail, x, y);
        },
        (ContentPartView::ToolCall(call), ContentPartView::ToolCall(other_call)) => {
            let x1 = ToolCall::fields(call) + x;
            let y1 = ToolCall::fields(other_call) + y;
            String::lemma_decodable("tool_call"@, "tool_call"@, x1, y1);
            ToolCall::lemma_decodable(call, other_call, x, y);
        },
        (ContentPartView::ToolResult(block), ContentPartView::ToolResult(other_block)) => {
            lemma_block_decodable(block, other_block, x, y);
        },
        _ => {},
    }
}

proof fn lemma_block_decodable(
    a: ToolResultBlockView,
    b: ToolResultBlockView,
    x: Seq<Seq<char>>,
    y: Seq<Seq<char>>,
)
    requires
        block_fields(a) + x == block_fields(b) + y,
    ensures
        a == b,
        x == y,
    decreases a,
{
    broadcast use lemma_concat_assoc;

    let tag = "tool_result"@;
    assert(seq![tag, a.call_id, a.name] =~= seq![tag] + seq![a.call_id] + seq![a.name]);
    assert(seq![tag, b.call_id, b.name] =~= seq![tag] + seq![b.call_id] + seq![b.name]);
    let (m, n) = (crate::text::decimal(a.content.len()), crate::text::decimal(b.content.len()));
    let x4 = parts_fields(a.content) + x;
    let y4 = parts_fields(b.content) + y;
    let x3 = seq![m] + x4;
    let y3 = seq![n] + y4;
    let x2 = bool::fields(a.is_error) + x3;
    let y2 = bool::fields(b.is_error) + y3;
    let x1 = seq![a.name] + x2;
    let y1 = seq![b.name] + y2;
    String::lemma_decodable(tag, tag, seq![a.call_id] + x1, seq![b.call_id] + y1);
    String::lemma_decodable(a.call_id, b.call_id, x1, y1);
    String::lemma_decodable(a.name, b.name, x2, y2);
    bool::lemma_decodable(a.is_error, b.is_error, x3, y3);
    String::lemma_decodable(m, n, x4, y4);
    crate::text::lemma_decimal_determines(a.content.len(), b.content.len());
    lemma_parts_decodable(a.content, b.content, x, y);
}

proof fn lemma_parts_decodable(
    a: Seq<ContentPartView>,
    b: Seq<ContentPartView>,
    x: Seq<Seq<char>>,
    y: Seq<Seq<char>>,
)
    requires
        a.len() == b.len(),
        parts_fields(a) + x == parts_fields(b) + y,
    ensures
        a == b,
        x == y,
    decreases a,
{
    broadcast use lemma_concat_assoc;

    if a.len() == 0 {
        assert(a =~= b);
        assert(parts_fields(a) + x =~= x);
        assert(parts_fields(b) + y =~= y);
    } else {
        let (p, q) = (part_fields(a.last()) + x, part_fields(b.last()) + y);
        lemma_parts_decodable(a.drop_last(), b.drop_last(), p, q);
        lemma_part_decodable(a.last(), b.last(), x, y);
        assert(a =~= a.drop_last().push(a.last()));
        assert(b =~= b.drop_last().push(b.last()));
    }
}

impl Encoded for ContentPart {
    open spec fn fields(view: ContentPartView) -> Seq<Seq<char>> {
        part_fields(view)
    }

    fn encode(&self, hasher: &mut FingerprintHasher) {
        part_encode(self, hasher);
    }

    proof fn lemma_decodable(
        a: ContentPartView,
        b: ContentPartView,
        x: Seq<Seq<char>>,
        y: Seq<Seq<char>>,
    ) {
        lemma_part_decodable(a, b, x, y);
    }
}

impl Encoded for ToolResultBlock {
    open spec fn fields(view: ToolResultBlockView) -> Seq<Seq<char>> {
        block_fields(view)
    }

    fn encode(&self, hasher: &mut FingerprintHasher) {
        block_encode(self, hasher);
    }

    proof fn lemma_decodable(
        a: ToolResultBlockView,
        b: ToolResultBlockView,
        x: Seq<Seq<char>>,
        y: Seq<Seq<char>>,
    ) {
        lemma_block_decodable(a, b, x, y);
    }
}

impl ContentPart {
    /// Convenience constructor for a text part.
    pub fn text(text: &str) -> (r: ContentPart)
        ensures
            r@ == (ContentPartView::Text { text: text@ }),
    {
        ContentPart::Text { text: text.to_owned() }
    }

    /// The text, if this part is a [`ContentPart::Text`].
    pub fn as_text(&self) -> (r: Option<&str>)
        ensures
            match r {
                Some(text) => self@ == (ContentPartView::Text { text: text@ }),
                None => !(self@ is Text),
            },
    {
        match self {
            ContentPart::Text { text } => Some(text.as_str()),
            _ => None,
        }
    }
}

/// One message in the canonical history.
#[derive(Debug, PartialEq, Eq)]
pub struct Message {
    /// The author.
    pub role: Role,
    /// Ordered content parts.
    pub content: Vec<ContentPart>,
}

/// What a [`Message`] holds.
pub struct MessageView {
    pub role: Role,
    pub content: Seq<ContentPartView>,
}

impl DeepView for Message {
    type V = MessageView;

    open spec fn deep_view(&self) -> MessageView {
        MessageView {
            role: self.role.deep_view(),
            content: self.content.deep_view(),
        }
    }
}

impl View for Message {
    type V = MessageView;

    open spec fn view(&self) -> MessageView {
        self.deep_view()
    }
}

impl Record for Message {
    fn same(&self, other: &Self) -> (r: bool) {
        self.role.same(&other.role)
            && self.content.same(&other.content)
    }

    fn copied(&self) -> (r: Self) {
        Message {
            role: self.role.copied(),
            content: self.content.copied(),
        }
    }
}

impl Clone for Message {
    fn clone(&self) -> (r: Self)
        ensures
            r@ == self@,
    {
        self.copied()
    }
}

impl Encoded for Message {
    open spec fn fields(view: MessageView) -> Seq<Seq<char>> {
        <Role as Encoded>::fields(view.role)
            + <Vec<ContentPart> as Encoded>::fields(view.content)
    }

    fn encode(&self, hasher: &mut FingerprintHasher) {
        broadcast use group_absorb;

        self.role.encode(hasher);
        self.content.encode(hasher);
    }

    proof fn lemma_decodable(a: MessageView, b: MessageView, x: Seq<Seq<char>>, y: Seq<Seq<char>>) {
        broadcast use lemma_concat_assoc;

        let x1 = Vec::<ContentPart>::fields(a.content) + x;
        let y1 = Vec::<ContentPart>::fields(b.content) + y;
        Role::lemma_decodable(a.role, b.role, x1, y1);
        Vec::<ContentPart>::lemma_decodable(a.content, b.content, x, y);
    }
}

/// A message with a single text part.
pub open spec fn text_message(role: Role, text: Seq<char>) -> MessageView {
    MessageView { role, content: seq![ContentPartView::Text { text }] }
}

/// The tool calls among `parts`, in order.
pub open spec fn calls_among(parts: Seq<ContentPartView>) -> Seq<ToolCallView>
    decreases parts.len(),
{
    if parts.len() == 0 {
        Seq::empty()
    } else {
        let before = calls_among(parts.drop_last());
        match parts.last() {
            ContentPartView::ToolCall(call) => before.push(call),
            _ => before,
        }
    }
}

/// The texts among `parts`, in order, each after the first non-empty line on
/// a line of its own.
pub open spec fn texts_joined(parts: Seq<ContentPartView>) -> Seq<char>
    decreases parts.len(),
{
    if parts.len() == 0 {
        Seq::empty()
    } else {
        let before = texts_joined(parts.drop_last());
        match parts.last() {
            ContentPartView::Text { text } => if before.len() == 0 {
                text
            } else {
                before + "\n"@ + text
            },
            _ => before,
        }
    }
}

impl Message {
    /// Builds a message with a single text part.
    pub fn text(role: Role, text: &str) -> (r: Message)
        ensures
            r@ == text_message(role, text@),
    {
        let content = vec![ContentPart::text(text)];
        assert(content.deep_view() =~= seq![ContentPartView::Text { text: text@ }]);
        Message { role, content }
    }

    /// A system message with the given text.
    pub fn system(text: &str) -> (r: Message)
        ensures
            r@ == text_message(Role::System, text@),
    {
        Message::text(Role::System, text)
    }

    /// A user message with the given text.
    pub fn user(text: &str) -> (r: Message)
        ensures
            r@ == text_message(Role::User, text@),
    {
        Message::text(Role::User, text)
    }

    /// An assistant message with arbitrary content (text and/or tool calls).
    pub fn assistant(content: Vec<ContentPart>) -> (r: Message)
        ensures
            r@ == (MessageView { role: Role::Assistant, content: content.deep_view() }),
    {
        Message { role: Role::Assistant, content }
    }

    /// A tool-role message wrapping one canonical tool result.
    pub fn tool_result(block: ToolResultBlock) -> (r: Message)
        ensures
            r@ == (MessageView {
                role: Role::Tool,
                content: seq![ContentPartView::ToolResult(block@)],
            }),
    {
        let ghost view = block@;
        let content = vec![ContentPart::ToolResult(block)];
        assert(content.deep_view() =~= seq![ContentPartView::ToolResult(view)]);
        Message { role: Role::Tool, content }
    }

    /// The tool calls contained in this message, in order.
    pub fn tool_calls(&self) -> (r: Vec<&ToolCall>)
        ensures
            r.deep_view() == calls_among(self@.content),
    {
        let mut out: Vec<&ToolCall> = Vec::new();
        let mut i: usize = 0;
        let ghost parts = self@.content;
        assert(parts.subrange(0, 0) =~= Seq::<ContentPartView>::empty());
        assert(out.deep_view() =~= Seq::<ToolCallView>::empty());
        while i < self.content.len()
            invariant
                i <= self.content.len(),
                parts == self.content.deep_view(),
                out.deep_view() == calls_among(parts.subrange(0, i as int)),
            decreases self.content.len() - i,
        {
            let ghost items = parts.subrange(0, i + 1);
            let ghost before = out.deep_view();
            assert(items.drop_last() =~= parts.subrange(0, i as int));
            assert(items.last() == self.content@[i as int].deep_view());
            match &self.content[i] {
                ContentPart::ToolCall(call) => {
                    out.push(call);
                    assert(out.deep_view() =~= before.push(call@));
                },
                _ => {},
            }
            i = i + 1;
        }
        assert(parts.subrange(0, parts.len() as int) =~= parts);
        out
    }

    /// Concatenates the text parts of this message, each on a line of its own.
    pub fn joined_text(&self) -> (r: String)
        ensures
            r@ == texts_joined(self@.content),
    {
        let mut out = String::new();
        let mut i: usize = 0;
        let ghost parts = self@.content;
        assert(parts.subrange(0, 0) =~= Seq::<ContentPartView>::empty());
        while i < self.content.len()
            invariant
                i <= self.content.len(),
                parts == self.content.deep_view(),
                out@ == texts_joined(parts.subrange(0, i as int)),
            decreases self.content.len() - i,
        {
            let ghost items = parts.subrange(0, i + 1);
            assert(items.drop_last() =~= parts.subrange(0, i as int));
            assert(items.last() == self.content@[i as int].deep_view());
            if let Some(text) = self.content[i].as_text() {
                if !out.as_str().is_empty() {
                    out.append("\n");
                } else {
                    assert(out@ + text@ =~= text@);
                }
                out.append(text);
            }
            i = i + 1;
        }
        assert(parts.subrange(0, parts.len() as int) =~= parts);
        out
    }
}

/// Host-supplied input that starts or continues a turn.
#[derive(Debug, PartialEq, Eq)]
pub struct UserInput {
    /// The content parts of the input.
    pub parts: Vec<ContentPart>,
}

/// What a [`UserInput`] holds.
pub struct UserInputView {
    pub parts: Seq<ContentPartView>,
}

impl DeepView for UserInput {
    type V = UserInputView;

    open spec fn deep_view(&self) -> UserInputView {
        UserInputView {
            parts: self.parts.deep_view(),
        }
    }
}

impl View for UserInput {
    type V = UserInputView;

    open spec fn view(&self) -> UserInputView {
        self.deep_view()
    }
}

impl Record for UserInput {
    fn same(&self, other: &Self) -> (r: bool) {
        self.parts.same(&other.parts)
    }

    fn copied(&self) -> (r: Self) {
        UserInput {
            parts: self.parts.copied(),
        }
    }
}

impl Clone for UserInput {
    fn clone(&self) -> (r: Self)
        ensures
            r@ == self@,
    {
        self.copied()
    }
}

impl Encoded for UserInput {
    open spec fn fields(view: UserInputView) -> Seq<Seq<char>> {
        <Vec<ContentPart> as Encoded>::fields(view.parts)
    }

    fn encode(&self, hasher: &mut FingerprintHasher) {
        broadcast use group_absorb;

        self.parts.encode(hasher);
    }

    proof fn lemma_decodable(
        a: UserInputView,
        b: UserInputView,
        x: Seq<Seq<char>>,
        y: Seq<Seq<char>>,
    ) {
        Vec::<ContentPart>::lemma_decodable(a.parts, b.parts, x, y);
    }
}

/// The canonical user message for an input.
pub open spec fn input_message(input: UserInputView) -> MessageView {
    MessageView { role: Role::User, content: input.parts }
}

impl UserInput {
    /// A text-only user input.
    pub fn text(text: &str) -> (r: UserInput)
        ensures
            r@ == (UserInputView { parts: seq![ContentPartView::Text { text: text@ }] }),
    {
        let parts = vec![ContentPart::text(text)];
        assert(parts.deep_view() =~= seq![ContentPartView::Text { text: text@ }]);
        UserInput { parts }
    }

    /// Converts this input into a canonical user [`Message`].
    pub fn into_message(self) -> (r: Message)
        ensures
            r@ == input_message(self@),
    {
        Message { role: Role::User, content: self.parts }
    }
}

/// Who caused an internal turn.
#[derive(Debug, PartialEq, Eq)]
pub enum InternalTurnSource {
    /// A persistent goal continues.
    Goal {
        /// The goal.
        goal: String,
    },
    /// A delegated child reports.
    Delegation {
        /// The child.
        child: String,
    },
    /// The host asked for it.
    Host {
        /// A host-defined label.
        label: String,
    },
}

/// What a [`InternalTurnSource`] holds.
pub enum InternalTurnSourceView {
    Goal { goal: Seq<char> },
    Delegation { child: Seq<char> },
    Host { label: Seq<char> },
}

impl DeepView for InternalTurnSource {
    type V = InternalTurnSourceView;

    open spec fn deep_view(&self) -> InternalTurnSourceView {
        match self {
            InternalTurnSource::Goal { goal } => InternalTurnSourceView::Goal {
                goal: goal.deep_view(),
            },
            InternalTurnSource::Delegation { child } => InternalTurnSourceView::Delegation {
                child: child.deep_view(),
            },
            InternalTurnSource::Host { label } => InternalTurnSourceView::Host {
                label: label.deep_view(),
            },
        }
    }
}

impl View for InternalTurnSource {
    type V = InternalTurnSourceView;

    open spec fn view(&self) -> InternalTurnSourceView {
        self.deep_view()
    }
}

impl Record for InternalTurnSource {
    fn same(&self, other: &Self) -> (r: bool) {
        match (self, other) {
            (InternalTurnSource::Goal { goal }, InternalTurnSource::Goal { goal: goal_b }) => {
                goal.same(goal_b)
            },
            (
                InternalTurnSource::Delegation { child },
                InternalTurnSource::Delegation { child: child_b },
            ) => child.same(child_b),
            (InternalTurnSource::Host { label }, InternalTurnSource::Host { label: label_b }) => {
                label.same(label_b)
            },
            _ => false,
        }
    }

    fn copied(&self) -> (r: Self) {
        match self {
            InternalTurnSource::Goal { goal } => InternalTurnSource::Goal { goal: goal.copied() },
            InternalTurnSource::Delegation { child } => InternalTurnSource::Delegation {
                child: child.copied(),
            },
            InternalTurnSource::Host { label } => InternalTurnSource::Host {
                label: label.copied(),
            },
        }
    }
}

impl Clone for InternalTurnSource {
    fn clone(&self) -> (r: Self)
        ensures
            r@ == self@,
    {
        self.copied()
    }
}

impl Encoded for InternalTurnSource {
    open spec fn fields(view: InternalTurnSourceView) -> Seq<Seq<char>> {
        match view {
            InternalTurnSourceView::Goal { goal } => seq!["goal"@]
                + <String as Encoded>::fields(goal),
            InternalTurnSourceView::Delegation { child } => seq!["delegation"@]
                + <String as Encoded>::fields(child),
            InternalTurnSourceView::Host { label } => seq!["host"@]
                + <String as Encoded>::fields(label),
        }
    }

    fn encode(&self, hasher: &mut FingerprintHasher) {
        let ghost start = hasher@;
        match self {
            InternalTurnSource::Goal { goal } => {
                hasher.field("goal");
                goal.encode(hasher);
                proof {
                    lemma_absorb_one(start, "goal"@);
                    let f_goal = <String as Encoded>::fields(goal.deep_view());
                    lemma_absorb_concat(start, seq!["goal"@], f_goal);
                }
            },
            InternalTurnSource::Delegation { child } => {
                hasher.field("delegation");
                child.encode(hasher);
                proof {
                    lemma_absorb_one(start, "delegation"@);
                    let f_child = <String as Encoded>::fields(child.deep_view());
                    lemma_absorb_concat(start, seq!["delegation"@], f_child);
                }
            },
            InternalTurnSource::Host { label } => {
                hasher.field("host");
                label.encode(hasher);
                proof {
                    lemma_absorb_one(start, "host"@);
                    let f_label = <String as Encoded>::fields(label.deep_view());
                    lemma_absorb_concat(start, seq!["host"@], f_label);
                }
            },
        }
    }

    proof fn lemma_decodable(
        a: InternalTurnSourceView,
        b: InternalTurnSourceView,
        x: Seq<Seq<char>>,
        y: Seq<Seq<char>>,
    ) {
        broadcast use lemma_concat_assoc;

        reveal_strlit("goal");
        assert("goal"@.len() == 4);
        reveal_strlit("delegation");
        assert("delegation"@.len() == 10);
        reveal_strlit("host");
        assert("host"@.len() == 4);
        assert("goal"@[0] != "host"@[0]);
        assert((Self::fields(a) + x)[0] == Self::fields(a)[0]);
        assert((Self::fields(b) + y)[0] == Self::fields(b)[0]);
        match (a, b) {
            (
                InternalTurnSourceView::Goal { goal },
                InternalTurnSourceView::Goal { goal: other_goal },
            ) => {
                let x1 = String::fields(goal) + x;
                let y1 = String::fields(other_goal) + y;
                String::lemma_decodable("goal"@, "goal"@, x1, y1);
                String::lemma_decodable(goal, other_goal, x, y);
            },
            (
                InternalTurnSourceView::Delegation { child },
                InternalTurnSourceView::Delegation { child: other_child },
            ) => {
                let x1 = String::fields(child) + x;
                let y1 = String::fields(other_child) + y;
                String::lemma_decodable("delegation"@, "delegation"@, x1, y1);
                String::lemma_decodable(child, other_child, x, y);
            },
            (
                InternalTurnSourceView::Host { label },
                InternalTurnSourceView::Host { label: other_label },
            ) => {
                let x1 = String::fields(label) + x;
                let y1 = String::fields(other_label) + y;
                String::lemma_decodable("host"@, "host"@, x1, y1);
                String::lemma_decodable(label, other_label, x, y);
            },
            _ => {},
        }
    }
}

/// Attributed input that starts a turn without a user-role message.
#[derive(Debug, PartialEq, Eq)]
pub struct InternalTurnInput {
    /// Who caused the turn.
    pub source: InternalTurnSource,
    /// The content parts of the input.
    pub parts: Vec<ContentPart>,
    /// What the component that built the value found wrong with it, if anything.
    pub defect: Option<RuntimeError>,
}

/// What a [`InternalTurnInput`] holds.
pub struct InternalTurnInputView {
    pub source: InternalTurnSourceView,
    pub parts: Seq<ContentPartView>,
    pub defect: Option<RuntimeErrorView>,
}

impl DeepView for InternalTurnInput {
    type V = InternalTurnInputView;

    open spec fn deep_view(&self) -> InternalTurnInputView {
        InternalTurnInputView {
            source: self.source.deep_view(),
            parts: self.parts.deep_view(),
            defect: self.defect.deep_view(),
        }
    }
}

impl View for InternalTurnInput {
    type V = InternalTurnInputView;

    open spec fn view(&self) -> InternalTurnInputView {
        self.deep_view()
    }
}

impl Record for InternalTurnInput {
    fn same(&self, other: &Self) -> (r: bool) {
        self.source.same(&other.source)
            && self.parts.same(&other.parts)
            && self.defect.same(&other.defect)
    }

    fn copied(&self) -> (r: Self) {
        InternalTurnInput {
            source: self.source.copied(),
            parts: self.parts.copied(),
            defect: self.defect.copied(),
        }
    }
}

impl Clone for InternalTurnInput {
    fn clone(&self) -> (r: Self)
        ensures
            r@ == self@,
    {
        self.copied()
    }
}

impl Encoded for InternalTurnInput {
    open spec fn fields(view: InternalTurnInputView) -> Seq<Seq<char>> {
        <InternalTurnSource as Encoded>::fields(view.source)
            + <Vec<ContentPart> as Encoded>::fields(view.parts)
            + <Option<RuntimeError> as Encoded>::fields(view.defect)
    }

    fn encode(&self, hasher: &mut FingerprintHasher) {
        broadcast use group_absorb;

        self.source.encode(hasher);
        self.parts.encode(hasher);
        self.defect.encode(hasher);
    }

    proof fn lemma_decodable(
        a: InternalTurnInputView,
        b: InternalTurnInputView,
        x: Seq<Seq<char>>,
        y: Seq<Seq<char>>,
    ) {
        broadcast use lemma_concat_assoc;

        let x2 = Option::<RuntimeError>::fields(a.defect) + x;
        let y2 = Option::<RuntimeError>::fields(b.defect) + y;
        let x1 = Vec::<ContentPart>::fields(a.parts) + x2;
        let y1 = Vec::<ContentPart>::fields(b.parts) + y2;
        InternalTurnSource::lemma_decodable(a.source, b.source, x1, y1);
        Vec::<ContentPart>::lemma_decodable(a.parts, b.parts, x2, y2);
        Option::<RuntimeError>::lemma_decodable(a.defect, b.defect, x, y);
    }
}

impl InternalTurnInputView {
    /// What validation of the input gives.
    pub open spec fn validity(self) -> Result<(), RuntimeErrorView> {
        match self.defect {
            Some(e) => Err(e),
            None => Ok(()),
        }
    }
}

impl InternalTurnInput {
    /// Reports the input's defect, if it has one.
    pub fn validate(&self) -> (r: Result<(), RuntimeError>)
        ensures
            outcome_view(r) == self@.validity(),
    {
        match &self.defect {
            Some(e) => Err(e.copied()),
            None => Ok(()),
        }
    }
}

/// A message of a text has that role and just that text.
pub proof fn a_text_message_holds_one_text(role: Role, text: Seq<char>)
    ensures
        text_message(role, text).role == role,
        text_message(role, text).content.len() == 1,
        text_message(role, text).content[0] == (ContentPartView::Text { text }),
        texts_joined(text_message(role, text).content) == text,
        calls_among(text_message(role, text).content).len() == 0,
{
    reveal_with_fuel(texts_joined, 2);
    reveal_with_fuel(calls_among, 2);
    let parts = text_message(role, text).content;
    assert(parts.drop_last().len() == 0);
    assert(texts_joined(parts.drop_last()).len() == 0);
}

/// An input becomes a message of the user with the very parts of the input.
pub proof fn an_input_becomes_a_message_of_the_user(input: UserInputView)
    ensures
        input_message(input).role == Role::User,
        input_message(input).content == input.parts,
{
}

/// The calls among parts are those of the first ones and then those of the others; a
/// single part has a call exactly when it is one.
pub proof fn calls_among_parts_are_in_order(
    first: Seq<ContentPartView>,
    others: Seq<ContentPartView>,
    part: ContentPartView,
)
    ensures
        calls_among(first + others) == calls_among(first) + calls_among(others),
        calls_among(seq![part]) == (match part {
            ContentPartView::ToolCall(call) => seq![call],
            _ => Seq::empty(),
        }),
    decreases others.len(),
{
    reveal_with_fuel(calls_among, 2);
    assert(seq![part].drop_last() =~= Seq::empty());
    assert(calls_among(seq![part]) =~= (match part {
        ContentPartView::ToolCall(call) => seq![call],
        _ => Seq::empty(),
    }));
    if others.len() == 0 {
        assert(first + others =~= first);
        assert(calls_among(first) + calls_among(others) =~= calls_among(first));
    } else {
        calls_among_parts_are_in_order(first, others.drop_last(), part);
        assert((first + others).drop_last() =~= first + others.drop_last());
        assert((first + others).last() == others.last());
        assert(calls_among(first + others) =~= calls_among(first) + calls_among(others));
    }
}

/// A part that is no text adds nothing to the joined text. A text goes on a line of its
/// own behind what is there, and stands alone where nothing is.
pub proof fn a_text_goes_on_a_line_of_its_own(before: Seq<ContentPartView>, part: ContentPartView)
    ensures
        !(part is Text) ==> texts_joined(before.push(part)) == texts_joined(before),
        part matches ContentPartView::Text { text } ==> {
            let joined = texts_joined(before.push(part));
            let had = texts_joined(before);
            &&& had.len() == 0 ==> joined == text
            &&& had.len() > 0 ==> {
                &&& joined.len() == had.len() + 1 + text.len()
                &&& joined.subrange(0, had.len() as int) == had
                &&& joined[had.len() as int] == '\n'
                &&& joined.subrange(1 + had.len() as int, joined.len() as int) == text
            }
        },
        texts_joined(Seq::empty()).len() == 0,
{
    assert(before.push(part).drop_last() =~= before);
    reveal_strlit("\n");
    if let ContentPartView::Text { text } = part {
        let had = texts_joined(before);
        if had.len() > 0 {
            let joined = texts_joined(before.push(part));
            assert(joined == had + "\n"@ + text);
            assert(joined.subrange(0, had.len() as int) =~= had);
            assert(joined.subrange(1 + had.len() as int, joined.len() as int) =~= text);
        }
    }
}

/// A message is of the role that it was made for and holds just what it was made of.
pub proof fn a_message_holds_what_it_was_made_of(
    text: &str,
    content: Vec<ContentPart>,
    block: ToolResultBlock,
    system: Message,
    user: Message,
    assistant: Message,
    result: Message,
)
    requires
        call_ensures(Message::system, (text,), system),
        call_ensures(Message::user, (text,), user),
        call_ensures(Message::assistant, (content,), assistant),
        call_ensures(Message::tool_result, (block,), result),
    ensures
        system@.role == Role::System,
        system@.content == seq![ContentPartView::Text { text: text@ }],
        user@.role == Role::User,
        user@.content == seq![ContentPartView::Text { text: text@ }],
        assistant@.role == Role::Assistant,
        assistant@.content == content.deep_view(),
        result@.role == Role::Tool,
        result@.content == seq![ContentPartView::ToolResult(block@)],
{
}

/// The text that was put into a message can be read back from it, and a message of a text calls
/// no tools.
pub proof fn a_text_is_read_back(
    role: Role,
    text: &str,
    message: Message,
    read: String,
    calls: Vec<&ToolCall>,
)
    requires
        call_ensures(Message::text, (role, text), message),
        call_ensures(Message::joined_text, (&message,), read),
        call_ensures(Message::tool_calls, (&message,), calls),
    ensures
        message@.role == role,
        read@ == text@,
        calls.deep_view().len() == 0,
{
    a_text_message_holds_one_text(role, text@);
}

/// An input becomes a message of the user with the parts of the input; one of a text has just
/// that text.
pub proof fn an_input_of_a_text_is_that_text(text: &str, input: UserInput, message: Message)
    requires
        call_ensures(UserInput::text, (text,), input),
        call_ensures(UserInput::into_message, (input,), message),
    ensures
        message@.role == Role::User,
        message@.content == input@.parts,
        message@.content == seq![ContentPartView::Text { text: text@ }],
{
}

/// An internal input is valid exactly when it has no defect, which is what it fails with.
pub proof fn an_internal_input_fails_with_its_defect(
    input: InternalTurnInput,
    r: Result<(), RuntimeError>,
)
    requires
        call_ensures(InternalTurnInput::validate, (&input,), r),
    ensures
        r is Ok <==> input@.defect is None,
        r matches Err(e) ==> input@.defect == Some(e@),
{
}

/// The text of a part can be read back from it, and no other part has one.
pub proof fn a_part_gives_its_text(
    text: &str,
    part: ContentPart,
    any: ContentPart,
    read: Option<&str>,
    of_any: Option<&str>,
)
    requires
        call_ensures(ContentPart::text, (text,), part),
        call_ensures(ContentPart::as_text, (&part,), read),
        call_ensures(ContentPart::as_text, (&any,), of_any),
    ensures
        read matches Some(given) && given@ == text@,
        of_any is Some <==> any@ is Text,
{
}

} // verus!
