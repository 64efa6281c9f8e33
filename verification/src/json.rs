//! JSON documents.

use vstd::prelude::*;

use vstd::string::{StrSliceExecFns, StringExecFns};

use crate::error::{plain_error, ErrorKind, RuntimeError};
use crate::fingerprint::{Encoded, FingerprintHasher};
use crate::record::Record;

verus! {

/// The canonical text of the JSON document `text`, if it is one: compact,
/// with the keys of every object in order and without repetitions.
pub uninterp spec fn canonical_json(text: Seq<char>) -> Option<Seq<char>>;

/// Reads a JSON document with `serde_json::from_str` and writes it back with
/// the compact `Display` of `serde_json::Value`. Claims that whether the text
/// is a document, and what its canonical text is, depend on the text alone.
#[verifier::external_body]
fn canonical_text(text: &str) -> (r: Result<String, serde_json::Error>)
    ensures
        match r {
            Ok(canonical) => canonical_json(text@) == Some(canonical@),
            Err(_) => canonical_json(text@) is None,
        },
{
    serde_json::from_str::<serde_json::Value>(text).map(|value| value.to_string())
}

/// Where a scan of a document is: outside its strings, within one, or behind the
/// backslash of an escape.
#[derive(Debug, Clone, Copy, PartialEq, Eq, Structural)]
pub enum ScanMode {
    /// Outside the strings.
    Plain,
    /// Within a string.
    Quoted,
    /// Within a string, behind a backslash.
    Escaped,
}

/// The mode after one more character.
pub open spec fn mode_after(mode: ScanMode, c: char) -> ScanMode {
    match mode {
        ScanMode::Plain => if c == '"' {
            ScanMode::Quoted
        } else {
            ScanMode::Plain
        },
        ScanMode::Quoted => if c == '"' {
            ScanMode::Plain
        } else if c == '\\' {
            ScanMode::Escaped
        } else {
            ScanMode::Quoted
        },
        ScanMode::Escaped => ScanMode::Quoted,
    }
}

/// The mode after the first `n` characters.
pub open spec fn mode_at(text: Seq<char>, n: int) -> ScanMode
    decreases n,
{
    if n <= 0 {
        ScanMode::Plain
    } else {
        mode_after(mode_at(text, n - 1), text[n - 1])
    }
}

/// Whether `c` goes on with a number that has begun.
pub open spec fn continues_number(c: char) -> bool {
    '0' <= c <= '9' || c == 'e' || c == 'E'
}

/// Whether the number `-0.0` stands at `i`.
pub open spec fn is_negative_zero_at(text: Seq<char>, i: int) -> bool {
    &&& mode_at(text, i) == ScanMode::Plain
    &&& i + 3 < text.len()
    &&& text[i] == '-'
    &&& text[i + 1] == '0'
    &&& text[i + 2] == '.'
    &&& text[i + 3] == '0'
    &&& i + 4 < text.len() ==> !continues_number(text[i + 4])
}

/// The first `n` characters without the sign of any negative zero.
pub open spec fn unsigned_zeros(text: Seq<char>, n: int) -> Seq<char>
    decreases n,
{
    if n <= 0 {
        Seq::empty()
    } else if is_negative_zero_at(text, n - 1) {
        unsigned_zeros(text, n - 1)
    } else {
        unsigned_zeros(text, n - 1).push(text[n - 1])
    }
}

/// The canonical text in which equal documents agree: `-0.0` and `0.0` are equal
/// numbers, and both are written `0.0`.
pub open spec fn settled(canonical: Seq<char>) -> Seq<char> {
    unsigned_zeros(canonical, canonical.len() as int)
}

fn characters(text: &str) -> (r: Vec<char>)
    ensures
        r@ == text@,
{
    let mut r: Vec<char> = Vec::new();
    for c in it: text.chars()
        invariant
            it.seq() == text@,
            r@ == text@.subrange(0, it.index() as int),
    {
        r.push(c);
        assert(r@ =~= text@.subrange(0, it.index() + 1));
    }
    assert(text@.subrange(0, text@.len() as int) =~= text@);
    r
}

fn negative_zero_at(text: &Vec<char>, i: usize, mode: ScanMode) -> (r: bool)
    requires
        i < text.len(),
        mode == mode_at(text@, i as int),
    ensures
        r == is_negative_zero_at(text@, i as int),
{
    let rest: usize = text.len() - i;
    if mode != ScanMode::Plain || rest < 4 {
        return false;
    }
    if text[i] != '-' || text[i + 1] != '0' || text[i + 2] != '.' || text[i + 3] != '0' {
        return false;
    }
    if rest == 4 {
        return true;
    }
    let c = text[i + 4];
    !(('0' <= c && c <= '9') || c == 'e' || c == 'E')
}

/// Writes every negative zero of a canonical text as zero.
pub fn settle(canonical: &str) -> (r: String)
    ensures
        r@ == settled(canonical@),
{
    let text = characters(canonical);
    let mut out = String::new();
    let mut mode = ScanMode::Plain;
    let mut start: usize = 0;
    let mut i: usize = 0;
    assert(out@ + text@.subrange(0, 0) =~= Seq::<char>::empty());
    while i < text.len()
        invariant
            start <= i <= text.len(),
            text@ == canonical@,
            mode == mode_at(text@, i as int),
            unsigned_zeros(text@, i as int) == out@ + text@.subrange(start as int, i as int),
        decreases text.len() - i,
    {
        let c = text[i];
        if negative_zero_at(&text, i, mode) {
            out.append(canonical.substring_char(start, i));
            start = i + 1;
            assert(unsigned_zeros(text@, i + 1) =~= out@ + text@.subrange(i + 1, i + 1));
        } else {
            assert(unsigned_zeros(text@, i + 1) =~= out@ + text@.subrange(start as int, i + 1));
        }
        mode = match mode {
            ScanMode::Plain => if c == '"' {
                ScanMode::Quoted
            } else {
                ScanMode::Plain
            },
            ScanMode::Quoted => if c == '"' {
                ScanMode::Plain
            } else if c == '\\' {
                ScanMode::Escaped
            } else {
                ScanMode::Quoted
            },
            ScanMode::Escaped => ScanMode::Quoted,
        };
        i = i + 1;
    }
    out.append(canonical.substring_char(start, i));
    out
}

/// A JSON document, held as its canonical text. Documents that differ in layout
/// alone, or in the sign of a zero, are the same.
#[derive(Debug, PartialEq, Eq)]
pub struct Json {
    text: String,
}

impl DeepView for Json {
    type V = Seq<char>;

    closed spec fn deep_view(&self) -> Seq<char> {
        self.text@
    }
}

impl View for Json {
    type V = Seq<char>;

    open spec fn view(&self) -> Seq<char> {
        self.deep_view()
    }
}

impl Record for Json {
    fn same(&self, other: &Self) -> (r: bool) {
        self.text.same(&other.text)
    }

    fn copied(&self) -> (r: Self) {
        proof {
            use_type_invariant(self);
        }
        Json { text: self.text.copied() }
    }
}

impl Encoded for Json {
    open spec fn fields(view: Seq<char>) -> Seq<Seq<char>> {
        seq![view]
    }

    fn encode(&self, hasher: &mut FingerprintHasher) {
        self.text.encode(hasher);
    }

    proof fn lemma_decodable(a: Seq<char>, b: Seq<char>, x: Seq<Seq<char>>, y: Seq<Seq<char>>) {
        String::lemma_decodable(a, b, x, y);
    }
}

impl Clone for Json {
    fn clone(&self) -> (r: Self)
        ensures
            r@ == self@,
    {
        self.copied()
    }
}

impl Json {
    #[verifier::type_invariant]
    spec fn is_canonical(self) -> bool {
        exists|text: Seq<char>|
            (#[trigger] canonical_json(text)) is Some && self.text@ == settled(
                canonical_json(text)->Some_0,
            )
    }

    /// Reads a JSON document.
    pub fn parse(text: &str) -> (r: Result<Json, RuntimeError>)
        ensures
            match r {
                Ok(document) => canonical_json(text@) matches Some(canonical) && document@
                    == settled(canonical),
                Err(e) => canonical_json(text@) is None && e@ == plain_error(
                    ErrorKind::Serialization,
                    e@.message,
                ),
            },
    {
        match canonical_text(text) {
            Ok(canonical) => Ok(Json { text: settle(canonical.as_str()) }),
            Err(error) => Err(RuntimeError::serialization(&error)),
        }
    }

    /// The canonical text.
    pub fn as_str(&self) -> (r: &str)
        ensures
            r@ == self@,
    {
        self.text.as_str()
    }
}

/// A canonical text keeps everything but minus signs, in order.
pub proof fn settling_drops_only_minus_signs(canonical: Seq<char>)
    ensures
        settled(canonical).filter(|c: char| c != '-') == canonical.filter(|c: char| c != '-'),
        settled(canonical).len() <= canonical.len(),
{
    lemma_only_minus_signs(canonical, canonical.len() as int);
    assert(canonical.subrange(0, canonical.len() as int) =~= canonical);
}

proof fn lemma_only_minus_signs(text: Seq<char>, n: int)
    requires
        0 <= n <= text.len(),
    ensures
        unsigned_zeros(text, n).filter(|c: char| c != '-') == text.subrange(0, n).filter(
            |c: char| c != '-',
        ),
        unsigned_zeros(text, n).len() <= n,
    decreases n,
{
    let keep = |c: char| c != '-';
    if n == 0 {
        assert(unsigned_zeros(text, n) =~= text.subrange(0, n));
    } else {
        lemma_only_minus_signs(text, n - 1);
        let (before, after) = (unsigned_zeros(text, n - 1), unsigned_zeros(text, n));
        let (head, whole) = (text.subrange(0, n - 1), text.subrange(0, n));
        assert(whole =~= head.push(text[n - 1]));
        assert(whole.drop_last() =~= head);
        reveal(Seq::filter);
        if !is_negative_zero_at(text, n - 1) {
            assert(after.drop_last() =~= before);
        }
    }
}

/// A text without a negative zero outside its strings stays as it is.
pub proof fn settling_keeps_what_has_no_negative_zero(canonical: Seq<char>)
    requires
        forall|i: int| 0 <= i < canonical.len() ==> !#[trigger] is_negative_zero_at(canonical, i),
    ensures
        settled(canonical) == canonical,
{
    lemma_kept(canonical, 0, canonical.len() as int);
    assert(unsigned_zeros(canonical, 0) + canonical.subrange(0, canonical.len() as int)
        =~= canonical);
}

proof fn lemma_kept(text: Seq<char>, from: int, n: int)
    requires
        0 <= from <= n <= text.len(),
        forall|i: int| from <= i < n ==> !#[trigger] is_negative_zero_at(text, i),
    ensures
        unsigned_zeros(text, n) == unsigned_zeros(text, from) + text.subrange(from, n),
    decreases n,
{
    if n > from {
        lemma_kept(text, from, n - 1);
        assert(!is_negative_zero_at(text, n - 1));
        assert(text.subrange(from, n) =~= text.subrange(from, n - 1).push(text[n - 1]));
    }
    assert(unsigned_zeros(text, n) =~= unsigned_zeros(text, from) + text.subrange(from, n));
}

/// A string without escapes stays as it is, whatever it says.
pub proof fn settling_keeps_strings(inner: Seq<char>)
    requires
        forall|i: int| 0 <= i < inner.len() ==> #[trigger] inner[i] != '"' && inner[i] != '\\',
    ensures
        settled(seq!['"'] + inner + seq!['"']) == seq!['"'] + inner + seq!['"'],
{
    let text = seq!['"'] + inner + seq!['"'];
    assert forall|i: int| 0 <= i < text.len() implies !#[trigger] is_negative_zero_at(text, i) by {
        if 1 <= i <= inner.len() {
            lemma_within_the_string(inner, i);
        }
    }
    settling_keeps_what_has_no_negative_zero(text);
}

proof fn lemma_within_the_string(inner: Seq<char>, n: int)
    requires
        forall|i: int| 0 <= i < inner.len() ==> #[trigger] inner[i] != '"' && inner[i] != '\\',
        1 <= n <= inner.len() + 1,
    ensures
        mode_at(seq!['"'] + inner + seq!['"'], n) == ScanMode::Quoted,
    decreases n,
{
    let text = seq!['"'] + inner + seq!['"'];
    assert(text[0] == '"');
    assert(mode_at(text, 0) == ScanMode::Plain);
    if n > 1 {
        lemma_within_the_string(inner, n - 1);
        assert(text[n - 1] == inner[n - 2]);
    }
}

/// A negative zero outside strings, with nothing behind it that would make it another
/// number, is written without its sign, and nothing else changes.
pub proof fn settling_takes_the_sign_of_a_zero(before: Seq<char>, behind: Seq<char>)
    requires
        forall|i: int| 0 <= i < before.len() ==> #[trigger] before[i] != '"' && before[i] != '-',
        forall|i: int| 0 <= i < behind.len() ==> #[trigger] behind[i] != '-',
        behind.len() > 0 ==> !('0' <= behind[0] <= '9') && behind[0] != 'e' && behind[0] != 'E',
    ensures
        settled(before + seq!['-', '0', '.', '0'] + behind) == before + seq!['0', '.', '0']
            + behind,
{
    let text = before + seq!['-', '0', '.', '0'] + behind;
    let at = before.len() as int;
    let n = text.len() as int;
    lemma_plain_so_far(text, at);
    assert(text[at] == '-' && text[at + 1] == '0' && text[at + 2] == '.' && text[at + 3] == '0');
    assert(behind.len() > 0 ==> text[at + 4] == behind[0]);
    assert(is_negative_zero_at(text, at));
    lemma_kept(text, 0, at);
    assert forall|i: int| at + 1 <= i < n implies !#[trigger] is_negative_zero_at(text, i) by {
        if i >= at + 4 {
            assert(text[i] == behind[i - at - 4]);
        }
    }
    lemma_kept(text, at + 1, n);
    assert(unsigned_zeros(text, at + 1) == unsigned_zeros(text, at));
    assert(settled(text) =~= before + seq!['0', '.', '0'] + behind);
}

proof fn lemma_plain_so_far(text: Seq<char>, n: int)
    requires
        0 <= n <= text.len(),
        forall|i: int| 0 <= i < n ==> #[trigger] text[i] != '"',
    ensures
        mode_at(text, n) == ScanMode::Plain,
    decreases n,
{
    if n > 0 {
        lemma_plain_so_far(text, n - 1);
    }
}

/// A zero with more digits or an exponent behind it is another number and keeps its sign.
pub proof fn settling_keeps_the_sign_of_other_numbers(
    before: Seq<char>,
    next: char,
    behind: Seq<char>,
)
    requires
        '0' <= next <= '9' || next == 'e' || next == 'E',
        forall|i: int| 0 <= i < before.len() ==> #[trigger] before[i] != '-',
        forall|i: int| 0 <= i < behind.len() ==> #[trigger] behind[i] != '-',
    ensures
        settled(before + seq!['-', '0', '.', '0', next] + behind) == before + seq![
            '-',
            '0',
            '.',
            '0',
            next,
        ] + behind,
{
    let text = before + seq!['-', '0', '.', '0', next] + behind;
    let at = before.len() as int;
    assert forall|i: int| 0 <= i < text.len() implies !#[trigger] is_negative_zero_at(text, i) by {
        if i < at {
            assert(text[i] == before[i]);
        } else if i == at {
            assert(text[i + 4] == next);
        } else if i >= at + 5 {
            assert(text[i] == behind[i - at - 5]);
        }
    }
    settling_keeps_what_has_no_negative_zero(text);
}

/// Whether a text is a document depends on the text alone, and so does what it is read as: the
/// canonical text with every zero without a sign.
pub proof fn reading_a_text_twice_gives_the_same(
    text: &str,
    a: Result<Json, RuntimeError>,
    b: Result<Json, RuntimeError>,
)
    requires
        call_ensures(Json::parse, (text,), a),
        call_ensures(Json::parse, (text,), b),
    ensures
        a is Ok <==> b is Ok,
        a is Ok && b is Ok ==> a->Ok_0@ == b->Ok_0@,
        a matches Err(e) ==> e@.kind == ErrorKind::Serialization && !e@.retryable,
{
}

} // verus!
