//! Fingerprints: short, unsalted, non-cryptographic digests of text.

use vstd::prelude::*;
use vstd::string::StrSliceExecFns;
use vstd::wrapping::u64_specs;

use crate::record::Record;
use crate::text::{
    a_number_reads_as_it_was_written_in_hexadecimal, decimal_text, hexadecimal_text,
    lemma_decimal_determines, sixteen_to,
};

verus! {

/// The digest of no fields at all.
pub const EMPTY_DIGEST: u64 = 0xcbf2_9ce4_8422_2325;

/// The multiplier of one digest step.
pub const DIGEST_PRIME: u64 = 0x0000_0100_0000_01b3;

/// The digest after one more word.
pub open spec fn mix(digest: u64, word: u64) -> u64 {
    u64_specs::wrapping_mul(digest ^ word, DIGEST_PRIME)
}

/// The digest after the characters of `text`, one word each.
pub open spec fn mix_text(digest: u64, text: Seq<char>) -> u64
    decreases text.len(),
{
    if text.len() == 0 {
        digest
    } else {
        mix(mix_text(digest, text.drop_last()), text.last() as u64)
    }
}

/// The digest after one field: its characters, then their number, so that the
/// boundaries between fields count.
pub open spec fn absorb(digest: u64, field: Seq<char>) -> u64 {
    mix(mix_text(digest, field), field.len() as u64)
}

/// The digest after a sequence of fields.
pub open spec fn absorb_all(digest: u64, fields: Seq<Seq<char>>) -> u64
    decreases fields.len(),
{
    if fields.len() == 0 {
        digest
    } else {
        absorb(absorb_all(digest, fields.drop_last()), fields.last())
    }
}

/// The text of the fingerprint of a sequence of fields: sixteen hexadecimal
/// digits.
pub open spec fn fingerprint_of(fields: Seq<Seq<char>>) -> Seq<char> {
    crate::text::hexadecimal(absorb_all(EMPTY_DIGEST, fields) as nat, 16)
}

/// Absorbing two runs of fields one after the other is absorbing their
/// concatenation.
pub broadcast proof fn lemma_absorb_concat(digest: u64, a: Seq<Seq<char>>, b: Seq<Seq<char>>)
    ensures
        #[trigger] absorb_all(digest, a + b) == absorb_all(absorb_all(digest, a), b),
    decreases b.len(),
{
    if b.len() == 0 {
        assert(a + b =~= a);
    } else {
        assert((a + b).drop_last() =~= a + b.drop_last());
        lemma_absorb_concat(digest, a, b.drop_last());
    }
}

/// Absorbing one field is one absorption step.
pub broadcast proof fn lemma_absorb_one(digest: u64, field: Seq<char>)
    ensures
        #[trigger] absorb_all(digest, seq![field]) == absorb(digest, field),
{
    assert(seq![field].drop_last() =~= Seq::<Seq<char>>::empty());
    assert(absorb_all(digest, Seq::<Seq<char>>::empty()) == digest);
}

/// Absorbing nothing changes nothing.
pub broadcast proof fn lemma_absorb_none(digest: u64)
    ensures
        #[trigger] absorb_all(digest, Seq::<Seq<char>>::empty()) == digest,
{
}

pub broadcast group group_absorb {
    lemma_absorb_concat,
    lemma_absorb_one,
    lemma_absorb_none,
}

/// A fingerprint of some content.
///
/// Equal content has equal fingerprints in every process. A fingerprint is no
/// security boundary: it can confirm a guessed value.
#[derive(Debug, PartialEq, Eq, PartialOrd, Ord, Hash)]
pub struct Fingerprint {
    text: String,
}

impl DeepView for Fingerprint {
    type V = Seq<char>;

    closed spec fn deep_view(&self) -> Seq<char> {
        self.text@
    }
}

impl View for Fingerprint {
    type V = Seq<char>;

    open spec fn view(&self) -> Seq<char> {
        self.deep_view()
    }
}

impl Record for Fingerprint {
    fn same(&self, other: &Self) -> (r: bool) {
        self.text.same(&other.text)
    }

    fn copied(&self) -> (r: Self) {
        Fingerprint { text: self.text.copied() }
    }
}

impl Clone for Fingerprint {
    fn clone(&self) -> (r: Self)
        ensures
            r@ == self@,
    {
        self.copied()
    }
}

impl Fingerprint {
    /// The fingerprint of a single text.
    pub fn of(text: &str) -> (r: Fingerprint)
        ensures
            r@ == fingerprint_of(seq![text@]),
    {
        broadcast use group_absorb;

        let mut hasher = FingerprintHasher::new();
        hasher.field(text);
        hasher.finish()
    }

    /// A fingerprint that was stored as text.
    pub fn restored(text: &str) -> (r: Fingerprint)
        ensures
            r@ == text@,
    {
        Fingerprint { text: text.to_owned() }
    }

    /// The fingerprint's text.
    pub fn as_str(&self) -> (r: &str)
        ensures
            r@ == self@,
    {
        self.text.as_str()
    }
}

/// Collects fields into a fingerprint.
pub struct FingerprintHasher {
    digest: u64,
}

impl View for FingerprintHasher {
    type V = u64;

    closed spec fn view(&self) -> u64 {
        self.digest
    }
}

impl FingerprintHasher {
    /// A hasher that has absorbed nothing.
    pub fn new() -> (r: FingerprintHasher)
        ensures
            r@ == EMPTY_DIGEST,
    {
        FingerprintHasher { digest: EMPTY_DIGEST }
    }

    /// Absorbs one field.
    pub fn field(&mut self, text: &str)
        ensures
            final(self)@ == absorb(old(self)@, text@),
    {
        let ghost before = self.digest;
        let mut digest: u64 = self.digest;
        let count: u64 = text.unicode_len() as u64;
        for c in it: text.chars()
            invariant
                it.seq() == text@,
                digest == mix_text(before, text@.subrange(0, it.index() as int)),
        {
            proof {
                let i = it.index() as int;
                assert(text@.subrange(0, i + 1).drop_last() =~= text@.subrange(0, i));
            }
            digest = (digest ^ (c as u64)).wrapping_mul(DIGEST_PRIME);
        }
        assert(text@.subrange(0, text@.len() as int) =~= text@);
        self.digest = (digest ^ count).wrapping_mul(DIGEST_PRIME);
    }

    /// Absorbs a label and its value.
    pub fn pair(&mut self, label: &str, value: &str)
        ensures
            final(self)@ == absorb_all(old(self)@, seq![label@, value@]),
    {
        broadcast use group_absorb;

        assert(seq![label@, value@] =~= seq![label@] + seq![value@]);
        self.field(label);
        self.field(value);
    }

    /// Absorbs another fingerprint.
    pub fn nested(&mut self, inner: &Fingerprint)
        ensures
            final(self)@ == absorb(old(self)@, inner@),
    {
        self.field(inner.as_str());
    }

    /// The fingerprint of what was absorbed.
    pub fn finish(self) -> (r: Fingerprint)
        ensures
            r@ == crate::text::hexadecimal(self@ as nat, 16),
    {
        Fingerprint { text: hexadecimal_text(self.digest, 16) }
    }
}

/// Three runs of fields in a row are the same however they are joined.
pub broadcast proof fn lemma_concat_assoc(
    a: Seq<Seq<char>>,
    b: Seq<Seq<char>>,
    c: Seq<Seq<char>>,
)
    ensures
        #[trigger] ((a + b) + c) == a + (b + c),
{
    assert((a + b) + c =~= a + (b + c));
}

/// A value with a canonical sequence of fields, by which it is fingerprinted.
pub trait Encoded: Record {
    /// The fields of a value with the given view.
    spec fn fields(view: Self::V) -> Seq<Seq<char>>;

    /// Absorbs the value's fields.
    fn encode(&self, hasher: &mut FingerprintHasher)
        ensures
            final(hasher)@ == absorb_all(old(hasher)@, Self::fields(self.deep_view())),
    ;

    /// A value can be read back from its fields, whatever follows them: values
    /// whose fields begin the same sequence are the same, and so are the rests.
    proof fn lemma_decodable(a: Self::V, b: Self::V, x: Seq<Seq<char>>, y: Seq<Seq<char>>)
        requires
            Self::fields(a) + x == Self::fields(b) + y,
        ensures
            a == b,
            x == y,
    ;
}

impl Encoded for String {
    open spec fn fields(view: Seq<char>) -> Seq<Seq<char>> {
        seq![view]
    }

    fn encode(&self, hasher: &mut FingerprintHasher) {
        broadcast use group_absorb;

        hasher.field(self.as_str());
    }

    proof fn lemma_decodable(a: Seq<char>, b: Seq<char>, x: Seq<Seq<char>>, y: Seq<Seq<char>>) {
        let (p, q) = (seq![a] + x, seq![b] + y);
        assert(p[0] == a && q[0] == b);
        assert(p.subrange(1, p.len() as int) =~= x);
        assert(q.subrange(1, q.len() as int) =~= y);
    }
}

impl Encoded for u64 {
    open spec fn fields(view: u64) -> Seq<Seq<char>> {
        seq![crate::text::decimal(view as nat)]
    }

    fn encode(&self, hasher: &mut FingerprintHasher) {
        broadcast use group_absorb;

        hasher.field(decimal_text(*self).as_str());
    }

    proof fn lemma_decodable(a: u64, b: u64, x: Seq<Seq<char>>, y: Seq<Seq<char>>) {
        let (p, q) = (crate::text::decimal(a as nat), crate::text::decimal(b as nat));
        String::lemma_decodable(p, q, x, y);
        lemma_decimal_determines(a as nat, b as nat);
    }
}

impl Encoded for u32 {
    open spec fn fields(view: u32) -> Seq<Seq<char>> {
        seq![crate::text::decimal(view as nat)]
    }

    fn encode(&self, hasher: &mut FingerprintHasher) {
        broadcast use group_absorb;

        hasher.field(decimal_text(*self as u64).as_str());
    }

    proof fn lemma_decodable(a: u32, b: u32, x: Seq<Seq<char>>, y: Seq<Seq<char>>) {
        let (p, q) = (crate::text::decimal(a as nat), crate::text::decimal(b as nat));
        String::lemma_decodable(p, q, x, y);
        lemma_decimal_determines(a as nat, b as nat);
    }
}

impl Encoded for usize {
    open spec fn fields(view: usize) -> Seq<Seq<char>> {
        seq![crate::text::decimal(view as nat)]
    }

    fn encode(&self, hasher: &mut FingerprintHasher) {
        broadcast use group_absorb;

        hasher.field(decimal_text(*self as u64).as_str());
    }

    proof fn lemma_decodable(a: usize, b: usize, x: Seq<Seq<char>>, y: Seq<Seq<char>>) {
        let (p, q) = (crate::text::decimal(a as nat), crate::text::decimal(b as nat));
        String::lemma_decodable(p, q, x, y);
        lemma_decimal_determines(a as nat, b as nat);
    }
}

impl Encoded for bool {
    open spec fn fields(view: bool) -> Seq<Seq<char>> {
        seq![if view { "true"@ } else { "false"@ }]
    }

    fn encode(&self, hasher: &mut FingerprintHasher) {
        broadcast use group_absorb;

        hasher.field(if *self { "true" } else { "false" });
    }

    proof fn lemma_decodable(a: bool, b: bool, x: Seq<Seq<char>>, y: Seq<Seq<char>>) {
        reveal_strlit("true");
        reveal_strlit("false");
        String::lemma_decodable(bool::fields(a)[0], bool::fields(b)[0], x, y);
        assert(bool::fields(a)[0].len() == if a { 4nat } else { 5nat });
        assert(bool::fields(b)[0].len() == if b { 4nat } else { 5nat });
    }
}

/// The fields of an optional value: whether there is one, then its own.
pub open spec fn option_fields<T: Encoded>(view: Option<T::V>) -> Seq<Seq<char>> {
    match view {
        Some(v) => seq!["some"@] + T::fields(v),
        None => seq!["none"@],
    }
}

impl<T: Encoded> Encoded for Option<T> {
    open spec fn fields(view: Option<T::V>) -> Seq<Seq<char>> {
        option_fields::<T>(view)
    }

    fn encode(&self, hasher: &mut FingerprintHasher) {
        broadcast use group_absorb;

        match self {
            Some(v) => {
                hasher.field("some");
                v.encode(hasher);
            },
            None => {
                hasher.field("none");
            },
        }
    }

    proof fn lemma_decodable(
        a: Option<T::V>,
        b: Option<T::V>,
        x: Seq<Seq<char>>,
        y: Seq<Seq<char>>,
    ) {
        broadcast use lemma_concat_assoc;

        reveal_strlit("some");
        reveal_strlit("none");
        assert("some"@[0] != "none"@[0]);
        match (a, b) {
            (Some(v), Some(w)) => {
                let (p, q) = (T::fields(v) + x, T::fields(w) + y);
                String::lemma_decodable("some"@, "some"@, p, q);
                T::lemma_decodable(v, w, x, y);
            },
            (Some(v), None) => {
                String::lemma_decodable("some"@, "none"@, T::fields(v) + x, y);
            },
            (None, Some(w)) => {
                String::lemma_decodable("none"@, "some"@, x, T::fields(w) + y);
            },
            (None, None) => {
                String::lemma_decodable("none"@, "none"@, x, y);
            },
        }
    }
}

/// The fields of the items of a list, in order.
pub open spec fn item_fields<T: Encoded>(view: Seq<T::V>) -> Seq<Seq<char>>
    decreases view.len(),
{
    if view.len() == 0 {
        Seq::empty()
    } else {
        item_fields::<T>(view.drop_last()) + T::fields(view.last())
    }
}

/// The fields of a list: its length, then its items.
pub open spec fn list_fields<T: Encoded>(view: Seq<T::V>) -> Seq<Seq<char>> {
    seq![crate::text::decimal(view.len())] + item_fields::<T>(view)
}

proof fn lemma_items_decodable<T: Encoded>(
    a: Seq<T::V>,
    b: Seq<T::V>,
    x: Seq<Seq<char>>,
    y: Seq<Seq<char>>,
)
    requires
        a.len() == b.len(),
        item_fields::<T>(a) + x == item_fields::<T>(b) + y,
    ensures
        a == b,
        x == y,
    decreases a.len(),
{
    broadcast use lemma_concat_assoc;

    if a.len() == 0 {
        assert(a =~= b);
        assert(item_fields::<T>(a) + x =~= x);
        assert(item_fields::<T>(b) + y =~= y);
    } else {
        let (p, q) = (T::fields(a.last()) + x, T::fields(b.last()) + y);
        lemma_items_decodable::<T>(a.drop_last(), b.drop_last(), p, q);
        T::lemma_decodable(a.last(), b.last(), x, y);
        assert(a =~= a.drop_last().push(a.last()));
        assert(b =~= b.drop_last().push(b.last()));
    }
}

impl<T: Encoded> Encoded for Vec<T> {
    open spec fn fields(view: Seq<T::V>) -> Seq<Seq<char>> {
        list_fields::<T>(view)
    }

    fn encode(&self, hasher: &mut FingerprintHasher) {
        broadcast use group_absorb;

        hasher.field(decimal_text(self.len() as u64).as_str());
        let ghost after_length = hasher@;
        let mut i: usize = 0;
        assert(self.deep_view().subrange(0, 0) =~= Seq::<T::V>::empty());
        while i < self.len()
            invariant
                i <= self.len(),
                hasher@ == absorb_all(
                    after_length,
                    item_fields::<T>(self.deep_view().subrange(0, i as int)),
                ),
            decreases self.len() - i,
        {
            broadcast use group_absorb;

            let ghost items = self.deep_view().subrange(0, i + 1);
            assert(items.drop_last() =~= self.deep_view().subrange(0, i as int));
            assert(items.last() == self.deep_view()[i as int]);
            self[i].encode(hasher);
            i = i + 1;
        }
        assert(self.deep_view().subrange(0, self.len() as int) =~= self.deep_view());
    }

    proof fn lemma_decodable(
        a: Seq<T::V>,
        b: Seq<T::V>,
        x: Seq<Seq<char>>,
        y: Seq<Seq<char>>,
    ) {
        broadcast use lemma_concat_assoc;

        let (p, q) = (item_fields::<T>(a) + x, item_fields::<T>(b) + y);
        let (m, n) = (crate::text::decimal(a.len()), crate::text::decimal(b.len()));
        String::lemma_decodable(m, n, p, q);
        lemma_decimal_determines(a.len(), b.len());
        lemma_items_decodable::<T>(a, b, x, y);
    }
}

/// What undoes the multiplier of one digest step.
const DIGEST_INVERSE: u64 = 0xce96_5057_aff6_957b;

proof fn lemma_step_can_be_undone(x: u64)
    ensures
        u64_specs::wrapping_mul(u64_specs::wrapping_mul(x, DIGEST_PRIME), DIGEST_INVERSE) == x,
{
    let m: int = 0x1_0000_0000_0000_0000;
    let (n, p, q) = (x as int, DIGEST_PRIME as int, DIGEST_INVERSE as int);
    assert(p * q == 887285111055 * m + 1) by (nonlinear_arith)
        requires
            p == 0x0000_0100_0000_01b3,
            q == 0xce96_5057_aff6_957b,
            m == 0x1_0000_0000_0000_0000,
    ;
    vstd::arithmetic::div_mod::lemma_mul_mod_noop_left(n * p, q, m);
    assert((n * p) * q == n + (887285111055 * n) * m) by (nonlinear_arith)
        requires
            p * q == 887285111055 * m + 1,
    ;
    vstd::arithmetic::div_mod::lemma_mod_multiples_vanish(887285111055 * n, n, m);
    assert(n + (887285111055 * n) * m == m * (887285111055 * n) + n) by (nonlinear_arith);
    vstd::arithmetic::div_mod::lemma_small_mod(n as nat, m as nat);
}

/// One step of a digest loses nothing: from the digest after it and the word, the digest
/// before it can be told, and from the digest before it, the word.
pub proof fn a_digest_step_loses_nothing(digest: u64, other: u64, word: u64, another: u64)
    requires
        mix(digest, word) == mix(other, another),
    ensures
        word == another ==> digest == other,
        digest == other ==> word == another,
{
    lemma_step_can_be_undone(digest ^ word);
    lemma_step_can_be_undone(other ^ another);
    assert(digest ^ word == other ^ another && word == another ==> digest == other)
        by (bit_vector);
    assert(digest ^ word == other ^ another && digest == other ==> word == another)
        by (bit_vector);
}

proof fn lemma_text_is_not_lost(digest: u64, other: u64, text: Seq<char>)
    requires
        mix_text(digest, text) == mix_text(other, text),
    ensures
        digest == other,
    decreases text.len(),
{
    if text.len() > 0 {
        let before = text.drop_last();
        let word = text.last() as u64;
        a_digest_step_loses_nothing(mix_text(digest, before), mix_text(other, before), word, word);
        lemma_text_is_not_lost(digest, other, before);
    }
}

/// What was absorbed is never lost: after the same fields, digests are the same only if
/// they were before.
pub proof fn what_was_absorbed_is_not_lost(digest: u64, other: u64, fields: Seq<Seq<char>>)
    requires
        absorb_all(digest, fields) == absorb_all(other, fields),
    ensures
        digest == other,
    decreases fields.len(),
{
    if fields.len() > 0 {
        let before = fields.drop_last();
        let (a, b) = (absorb_all(digest, before), absorb_all(other, before));
        let field = fields.last();
        let word = field.len() as u64;
        a_digest_step_loses_nothing(mix_text(a, field), mix_text(b, field), word, word);
        lemma_text_is_not_lost(a, b, field);
        what_was_absorbed_is_not_lost(digest, other, before);
    }
}

proof fn lemma_characters_are_words(a: char, b: char)
    ensures
        a as u64 == b as u64 ==> a == b,
{
    assert(a as u32 as u64 == a as u64);
    assert(b as u32 as u64 == b as u64);
}

proof fn lemma_one_character_counts(digest: u64, text: Seq<char>, i: int, c: char)
    requires
        0 <= i < text.len(),
        c != text[i],
    ensures
        mix_text(digest, text) != mix_text(digest, text.update(i, c)),
    decreases text.len(),
{
    let changed = text.update(i, c);
    let (before, after) = (text.drop_last(), changed.drop_last());
    let (a, b) = (mix_text(digest, before), mix_text(digest, after));
    if i == text.len() - 1 {
        assert(before =~= after);
        lemma_characters_are_words(text.last(), c);
    } else {
        assert(after =~= before.update(i, c));
        lemma_one_character_counts(digest, before, i, c);
    }
    if mix_text(digest, text) == mix_text(digest, changed) {
        a_digest_step_loses_nothing(a, b, text.last() as u64, changed.last() as u64);
    }
}

/// Every character counts: fields that differ in a single character of one field have
/// different fingerprints.
pub proof fn every_character_counts(fields: Seq<Seq<char>>, k: int, i: int, c: char)
    requires
        0 <= k < fields.len(),
        0 <= i < fields[k].len(),
        c != fields[k][i],
    ensures
        fingerprint_of(fields) != fingerprint_of(fields.update(k, fields[k].update(i, c))),
{
    let field = fields[k];
    let changed = field.update(i, c);
    let all = fields.update(k, changed);
    let (front, back) = (fields.subrange(0, k), fields.subrange(k + 1, fields.len() as int));
    let start = absorb_all(EMPTY_DIGEST, front);
    assert(fields =~= front + seq![field] + back);
    assert(all =~= front + seq![changed] + back);
    lemma_absorb_concat(EMPTY_DIGEST, front + seq![field], back);
    lemma_absorb_concat(EMPTY_DIGEST, front, seq![field]);
    lemma_absorb_concat(EMPTY_DIGEST, front + seq![changed], back);
    lemma_absorb_concat(EMPTY_DIGEST, front, seq![changed]);
    lemma_absorb_one(start, field);
    lemma_absorb_one(start, changed);
    lemma_one_character_counts(start, field, i, c);
    let (a, b) = (absorb_all(EMPTY_DIGEST, fields), absorb_all(EMPTY_DIGEST, all));
    if a == b {
        what_was_absorbed_is_not_lost(absorb(start, field), absorb(start, changed), back);
        a_digest_step_loses_nothing(
            mix_text(start, field),
            mix_text(start, changed),
            field.len() as u64,
            changed.len() as u64,
        );
    }
    lemma_digest_shows(a, b);
}

proof fn lemma_digest_shows(a: u64, b: u64)
    ensures
        crate::text::hexadecimal(a as nat, 16) == crate::text::hexadecimal(b as nat, 16) ==> a == b,
{
    reveal_with_fuel(sixteen_to, 17);
    assert(sixteen_to(16) == 0x1_0000_0000_0000_0000);
    a_number_reads_as_it_was_written_in_hexadecimal(a as nat, 16);
    a_number_reads_as_it_was_written_in_hexadecimal(b as nat, 16);
}

/// A fingerprint is sixteen lower-case hexadecimal digits.
pub proof fn a_fingerprint_is_sixteen_digits(fields: Seq<Seq<char>>)
    ensures
        fingerprint_of(fields).len() == 16,
        forall|i: int|
            0 <= i < 16 ==> ('0' <= #[trigger] fingerprint_of(fields)[i] <= '9' || 'a'
                <= fingerprint_of(fields)[i] <= 'f'),
{
    a_number_reads_as_it_was_written_in_hexadecimal(
        absorb_all(EMPTY_DIGEST, fields) as nat,
        16,
    );
}

/// Texts that differ in a single character have different fingerprints.
pub proof fn a_changed_character_shows(
    a: &str,
    b: &str,
    i: int,
    of_a: Fingerprint,
    of_b: Fingerprint,
)
    requires
        call_ensures(Fingerprint::of, (a,), of_a),
        call_ensures(Fingerprint::of, (b,), of_b),
        0 <= i < a@.len(),
        b@ == a@.update(i, b@[i]),
        b@[i] != a@[i],
    ensures
        of_a@ != of_b@,
{
    let fields = seq![a@];
    every_character_counts(fields, 0, i, b@[i]);
    assert(fields.update(0, fields[0].update(i, b@[i])) =~= seq![b@]);
}

} // verus!
