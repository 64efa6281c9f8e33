//! Text helpers: comparison, order, blankness, digits.

use vstd::prelude::*;
use vstd::string::StringExecFns;
use vstd::utf8::encode_utf8;

verus! {

/// Whether `a` comes strictly before `b` in the lexicographic order of bytes.
pub open spec fn bytes_before(a: Seq<u8>, b: Seq<u8>) -> bool
    decreases a.len(),
{
    if b.len() == 0 {
        false
    } else if a.len() == 0 {
        true
    } else if a[0] != b[0] {
        a[0] < b[0]
    } else {
        bytes_before(a.subrange(1, a.len() as int), b.subrange(1, b.len() as int))
    }
}

/// Whether `a` comes strictly before `b` in the order of strings: that of
/// their UTF-8 bytes.
pub open spec fn text_before(a: Seq<char>, b: Seq<char>) -> bool {
    bytes_before(encode_utf8(a), encode_utf8(b))
}

proof fn lemma_bytes_irreflexive(a: Seq<u8>)
    ensures
        !bytes_before(a, a),
    decreases a.len(),
{
    if a.len() > 0 {
        lemma_bytes_irreflexive(a.subrange(1, a.len() as int));
    }
}

proof fn lemma_bytes_transitive(a: Seq<u8>, b: Seq<u8>, c: Seq<u8>)
    requires
        bytes_before(a, b),
        bytes_before(b, c),
    ensures
        bytes_before(a, c),
    decreases a.len(),
{
    if a.len() > 0 && b.len() > 0 && c.len() > 0 && a[0] == b[0] && b[0] == c[0] {
        lemma_bytes_transitive(
            a.subrange(1, a.len() as int),
            b.subrange(1, b.len() as int),
            c.subrange(1, c.len() as int),
        );
    }
}

proof fn lemma_bytes_total(a: Seq<u8>, b: Seq<u8>)
    ensures
        a == b || bytes_before(a, b) || bytes_before(b, a),
    decreases a.len(),
{
    if a.len() > 0 && b.len() > 0 {
        let a1 = a.subrange(1, a.len() as int);
        let b1 = b.subrange(1, b.len() as int);
        lemma_bytes_total(a1, b1);
        if a[0] == b[0] && a1 == b1 {
            assert(a =~= seq![a[0]] + a1);
            assert(b =~= seq![b[0]] + b1);
        }
    } else if a.len() == 0 && b.len() == 0 {
        assert(a =~= b);
    }
}

/// Strings are equal exactly when their UTF-8 bytes are.
pub proof fn lemma_encoding_is_faithful(a: Seq<char>, b: Seq<char>)
    ensures
        (encode_utf8(a) == encode_utf8(b)) == (a == b),
{
    vstd::utf8::encode_utf8_decode_utf8(a);
    vstd::utf8::encode_utf8_decode_utf8(b);
}

/// The order of strings is a strict total order: no string comes before
/// itself, the order is transitive, and of two strings that differ one comes
/// first.
pub proof fn lemma_text_order(a: Seq<char>, b: Seq<char>, c: Seq<char>)
    ensures
        !text_before(a, a),
        text_before(a, b) && text_before(b, c) ==> text_before(a, c),
        a == b || text_before(a, b) || text_before(b, a),
        !(text_before(a, b) && text_before(b, a)),
{
    let (x, y, z) = (encode_utf8(a), encode_utf8(b), encode_utf8(c));
    lemma_bytes_irreflexive(x);
    lemma_bytes_total(x, y);
    lemma_encoding_is_faithful(a, b);
    if bytes_before(x, y) && bytes_before(y, z) {
        lemma_bytes_transitive(x, y, z);
    }
    if bytes_before(x, y) && bytes_before(y, x) {
        lemma_bytes_transitive(x, y, x);
    }
}

/// Whether the two strings are equal.
pub fn same_text(a: &str, b: &str) -> (r: bool)
    ensures
        r == (a@ == b@),
{
    proof {
        lemma_encoding_is_faithful(a@, b@);
    }
    let x = a.as_bytes();
    let y = b.as_bytes();
    if x.len() != y.len() {
        return false;
    }
    let mut i: usize = 0;
    while i < x.len()
        invariant
            i <= x.len(),
            x.len() == y.len(),
            x@ == encode_utf8(a@),
            y@ == encode_utf8(b@),
            (x@ == y@) == (a@ == b@),
            forall|j: int| 0 <= j < i ==> x@[j] == y@[j],
        decreases x.len() - i,
    {
        if x[i] != y[i] {
            return false;
        }
        i = i + 1;
    }
    assert(x@ =~= y@);
    true
}

/// Whether `a` comes strictly before `b` in the order of strings.
pub fn comes_before(a: &str, b: &str) -> (r: bool)
    ensures
        r == text_before(a@, b@),
{
    let x = a.as_bytes();
    let y = b.as_bytes();
    let mut i: usize = 0;
    assert(x@.subrange(0, x@.len() as int) =~= x@);
    assert(y@.subrange(0, y@.len() as int) =~= y@);
    while i < x.len() && i < y.len()
        invariant
            i <= x.len(),
            i <= y.len(),
            x@ == encode_utf8(a@),
            y@ == encode_utf8(b@),
            text_before(a@, b@) == bytes_before(
                x@.subrange(i as int, x@.len() as int),
                y@.subrange(i as int, y@.len() as int),
            ),
        decreases x.len() - i,
    {
        let ghost xs = x@.subrange(i as int, x@.len() as int);
        let ghost ys = y@.subrange(i as int, y@.len() as int);
        assert(xs.subrange(1, xs.len() as int) =~= x@.subrange(i + 1, x@.len() as int));
        assert(ys.subrange(1, ys.len() as int) =~= y@.subrange(i + 1, y@.len() as int));
        if x[i] != y[i] {
            return x[i] < y[i];
        }
        i = i + 1;
    }
    i < y.len()
}

/// Whether `c` has the Unicode property White_Space.
pub open spec fn is_white_space(c: char) -> bool {
    let u = c as u32;
    ||| 0x9 <= u <= 0xd
    ||| u == 0x20
    ||| u == 0x85
    ||| u == 0xa0
    ||| u == 0x1680
    ||| 0x2000 <= u <= 0x200a
    ||| u == 0x2028
    ||| u == 0x2029
    ||| u == 0x202f
    ||| u == 0x205f
    ||| u == 0x3000
}

/// Whether nothing is left of `s` once white space is trimmed from its ends.
pub open spec fn is_blank_text(s: Seq<char>) -> bool {
    forall|i: int| 0 <= i < s.len() ==> is_white_space(#[trigger] s[i])
}

fn white_space(c: char) -> (r: bool)
    ensures
        r == is_white_space(c),
{
    let u: u32 = c as u32;
    (0x9 <= u && u <= 0xd) || u == 0x20 || u == 0x85 || u == 0xa0 || u == 0x1680 || (0x2000 <= u
        && u <= 0x200a) || u == 0x2028 || u == 0x2029 || u == 0x202f || u == 0x205f || u == 0x3000
}

/// Whether `s` is empty or consists of white space only.
pub fn is_blank(s: &str) -> (r: bool)
    ensures
        r == is_blank_text(s@),
{
    let mut blank: bool = true;
    for c in it: s.chars()
        invariant
            it.seq() == s@,
            blank == (forall|i: int| 0 <= i < it.index() ==> is_white_space(#[trigger] s@[i])),
    {
        if !white_space(c) {
            assert(!is_white_space(s@[it.index() as int]));
            blank = false;
        }
    }
    blank
}

/// The decimal digit of `d`.
pub open spec fn digit(d: nat) -> char {
    ('0' as u32 + d) as char
}

/// `n` in decimal, without leading zeros.
pub open spec fn decimal(n: nat) -> Seq<char>
    decreases n,
{
    if n < 10 {
        seq![digit(n)]
    } else {
        decimal(n / 10).push(digit(n % 10))
    }
}

/// Different numbers have different decimal texts.
pub proof fn lemma_decimal_determines(m: nat, n: nat)
    requires
        decimal(m) == decimal(n),
    ensures
        m == n,
    decreases m,
{
    let (a, b) = (decimal(m), decimal(n));
    assert(a.last() == digit(m % 10));
    assert(b.last() == digit(n % 10));
    assert(digit(m % 10) as u32 == '0' as u32 + m % 10);
    assert(digit(n % 10) as u32 == '0' as u32 + n % 10);
    lemma_decimal_len(m);
    lemma_decimal_len(n);
    if m >= 10 && n >= 10 {
        assert(a.drop_last() =~= decimal(m / 10));
        assert(b.drop_last() =~= decimal(n / 10));
        lemma_decimal_determines(m / 10, n / 10);
    }
}

proof fn lemma_decimal_len(n: nat)
    ensures
        decimal(n).len() >= 1,
        n >= 10 ==> decimal(n).len() >= 2,
    decreases n,
{
    if n >= 10 {
        lemma_decimal_len(n / 10);
    }
}

fn digit_text(d: u64) -> (r: &'static str)
    requires
        d < 10,
    ensures
        r@ == seq![digit(d as nat)],
{
    proof {
        reveal_strlit("0");
        reveal_strlit("1");
        reveal_strlit("2");
        reveal_strlit("3");
        reveal_strlit("4");
        reveal_strlit("5");
        reveal_strlit("6");
        reveal_strlit("7");
        reveal_strlit("8");
        reveal_strlit("9");
    }
    if d == 0 {
        "0"
    } else if d == 1 {
        "1"
    } else if d == 2 {
        "2"
    } else if d == 3 {
        "3"
    } else if d == 4 {
        "4"
    } else if d == 5 {
        "5"
    } else if d == 6 {
        "6"
    } else if d == 7 {
        "7"
    } else if d == 8 {
        "8"
    } else {
        "9"
    }
}

/// Writes `n` in decimal.
pub fn decimal_text(n: u64) -> (r: String)
    ensures
        r@ == decimal(n as nat),
    decreases n,
{
    let mut out = if n < 10 {
        String::new()
    } else {
        decimal_text(n / 10)
    };
    out.append(digit_text(n % 10));
    out
}

/// The lower-case hexadecimal digit of `d`.
pub open spec fn hex_digit(d: nat) -> char {
    if d < 10 {
        digit(d)
    } else {
        ('a' as u32 + d - 10) as char
    }
}

/// The last `width` hexadecimal digits of `n`.
pub open spec fn hexadecimal(n: nat, width: nat) -> Seq<char>
    decreases width,
{
    if width == 0 {
        Seq::empty()
    } else {
        hexadecimal(n / 16, (width - 1) as nat).push(hex_digit(n % 16))
    }
}

fn hex_digit_text(d: u64) -> (r: &'static str)
    requires
        d < 16,
    ensures
        r@ == seq![hex_digit(d as nat)],
{
    proof {
        reveal_strlit("a");
        reveal_strlit("b");
        reveal_strlit("c");
        reveal_strlit("d");
        reveal_strlit("e");
        reveal_strlit("f");
    }
    if d < 10 {
        digit_text(d)
    } else if d == 10 {
        "a"
    } else if d == 11 {
        "b"
    } else if d == 12 {
        "c"
    } else if d == 13 {
        "d"
    } else if d == 14 {
        "e"
    } else {
        "f"
    }
}

/// Writes the last `width` hexadecimal digits of `n`.
pub fn hexadecimal_text(n: u64, width: usize) -> (r: String)
    ensures
        r@ == hexadecimal(n as nat, width as nat),
    decreases width,
{
    if width == 0 {
        return String::new();
    }
    let mut out = hexadecimal_text(n / 16, width - 1);
    out.append(hex_digit_text(n % 16));
    out
}

/// The UTF-8 length of `s`.
pub fn byte_len(s: &str) -> (r: usize)
    ensures
        r == encode_utf8(s@).len(),
{
    s.as_bytes().len()
}

/// A class of ASCII bytes that an identifier may be made of.
#[derive(Clone, Copy, PartialEq, Eq, Structural)]
pub enum ByteClass {
    /// Letters, digits, and `.`, `_`, `:`, `-`.
    Token,
    /// Lower-case letters and digits.
    LowerAlphanumeric,
    /// Lower-case letters, digits, and `_`.
    LowerSnake,
    /// Lower-case hexadecimal digits.
    LowerHex,
}

/// Whether `byte` is of the class.
pub open spec fn in_class(class: ByteClass, byte: u8) -> bool {
    let digit = 0x30 <= byte <= 0x39;
    let lower = 0x61 <= byte <= 0x7a;
    let upper = 0x41 <= byte <= 0x5a;
    match class {
        ByteClass::Token => digit || lower || upper || byte == 0x2e || byte == 0x5f || byte == 0x3a
            || byte == 0x2d,
        ByteClass::LowerAlphanumeric => digit || lower,
        ByteClass::LowerSnake => digit || lower || byte == 0x5f,
        ByteClass::LowerHex => digit || 0x61 <= byte <= 0x66,
    }
}

/// Whether every byte of `text` is of the class.
pub open spec fn all_of_class(class: ByteClass, text: Seq<char>) -> bool {
    forall|i: int|
        0 <= i < encode_utf8(text).len() ==> in_class(class, #[trigger] encode_utf8(text)[i])
}

fn byte_in_class(class: ByteClass, byte: u8) -> (r: bool)
    ensures
        r == in_class(class, byte),
{
    let digit = 0x30 <= byte && byte <= 0x39;
    let lower = 0x61 <= byte && byte <= 0x7a;
    let upper = 0x41 <= byte && byte <= 0x5a;
    match class {
        ByteClass::Token => digit || lower || upper || byte == 0x2e || byte == 0x5f || byte == 0x3a
            || byte == 0x2d,
        ByteClass::LowerAlphanumeric => digit || lower,
        ByteClass::LowerSnake => digit || lower || byte == 0x5f,
        ByteClass::LowerHex => digit || (0x61 <= byte && byte <= 0x66),
    }
}

/// Whether every byte of `text` is of the class.
pub fn is_of_class(class: ByteClass, text: &str) -> (r: bool)
    ensures
        r == all_of_class(class, text@),
{
    let bytes = text.as_bytes();
    let mut i: usize = 0;
    while i < bytes.len()
        invariant
            i <= bytes.len(),
            bytes@ == encode_utf8(text@),
            forall|j: int| 0 <= j < i ==> in_class(class, #[trigger] encode_utf8(text@)[j]),
        decreases bytes.len() - i,
    {
        if !byte_in_class(class, bytes[i]) {
            assert(!in_class(class, encode_utf8(text@)[i as int]));
            return false;
        }
        i = i + 1;
    }
    true
}

/// Whether `a` and `b` agree up to `k`, and `a` ends there or goes on with the smaller byte.
pub open spec fn first_differs_at(a: Seq<u8>, b: Seq<u8>, k: int) -> bool {
    &&& 0 <= k < b.len()
    &&& k <= a.len()
    &&& forall|i: int| 0 <= i < k ==> #[trigger] a[i] == b[i]
    &&& k < a.len() ==> a[k] < b[k]
}

/// Texts are ordered as in a dictionary, by their bytes: one comes before another exactly
/// when it is a beginning of it or has the smaller byte where they first differ.
pub proof fn texts_are_ordered_by_their_first_difference(a: Seq<u8>, b: Seq<u8>)
    ensures
        bytes_before(a, b) <==> exists|k: int| #[trigger] first_differs_at(a, b, k),
    decreases a.len(),
{
    if b.len() > 0 && a.len() > 0 && a[0] == b[0] {
        let (x, y) = (a.subrange(1, a.len() as int), b.subrange(1, b.len() as int));
        texts_are_ordered_by_their_first_difference(x, y);
        if bytes_before(a, b) {
            let k = choose|k: int| #[trigger] first_differs_at(x, y, k);
            assert forall|i: int| 0 <= i < k + 1 implies #[trigger] a[i] == b[i] by {
                if i > 0 {
                    assert(x[i - 1] == y[i - 1]);
                }
            }
            assert(first_differs_at(a, b, k + 1));
        }
        if exists|k: int| #[trigger] first_differs_at(a, b, k) {
            let k = choose|k: int| #[trigger] first_differs_at(a, b, k);
            assert(k > 0);
            assert forall|i: int| 0 <= i < k - 1 implies #[trigger] x[i] == y[i] by {
                assert(a[i + 1] == b[i + 1]);
            }
            assert(first_differs_at(x, y, k - 1));
        }
    } else if bytes_before(a, b) {
        assert(first_differs_at(a, b, 0));
    }
}

/// The number that decimal digits stand for.
pub open spec fn read_decimal(digits: Seq<char>) -> int
    decreases digits.len(),
{
    if digits.len() == 0 {
        0
    } else {
        10 * read_decimal(digits.drop_last()) + (digits.last() as int - 0x30)
    }
}

/// A number is written in decimal digits that read as that number, without a zero in
/// front.
pub proof fn a_number_reads_as_it_was_written(n: nat)
    ensures
        read_decimal(decimal(n)) == n,
        decimal(n).len() > 0,
        forall|i: int| 0 <= i < decimal(n).len() ==> '0' <= #[trigger] decimal(n)[i] <= '9',
        n > 0 ==> decimal(n)[0] != '0',
    decreases n,
{
    reveal_with_fuel(read_decimal, 2);
    let text = decimal(n);
    if n < 10 {
        assert(text.drop_last().len() == 0);
        assert(text.last() == digit(n));
    } else {
        a_number_reads_as_it_was_written(n / 10);
        assert(text.drop_last() =~= decimal(n / 10));
        assert(text.last() == digit(n % 10));
        assert forall|i: int| 0 <= i < text.len() implies '0' <= #[trigger] text[i] <= '9' by {
            if i < text.len() - 1 {
                assert(text[i] == decimal(n / 10)[i]);
            }
        }
        assert(text[0] == decimal(n / 10)[0]);
    }
}

/// The value of a lower-case hexadecimal digit.
pub open spec fn read_hex_digit(c: char) -> int {
    if '0' <= c <= '9' {
        c as int - 0x30
    } else {
        c as int - 0x61 + 10
    }
}

/// The number that lower-case hexadecimal digits stand for.
pub open spec fn read_hexadecimal(digits: Seq<char>) -> int
    decreases digits.len(),
{
    if digits.len() == 0 {
        0
    } else {
        16 * read_hexadecimal(digits.drop_last()) + read_hex_digit(digits.last())
    }
}

/// A power of sixteen.
pub open spec fn sixteen_to(width: nat) -> nat
    decreases width,
{
    if width == 0 {
        1
    } else {
        16 * sixteen_to((width - 1) as nat)
    }
}

/// A number is written in as many lower-case hexadecimal digits as asked for, which read
/// as that number as long as it has no more.
pub proof fn a_number_reads_as_it_was_written_in_hexadecimal(n: nat, width: nat)
    ensures
        hexadecimal(n, width).len() == width,
        n < sixteen_to(width) ==> read_hexadecimal(hexadecimal(n, width)) == n,
        forall|i: int|
            0 <= i < width ==> ('0' <= #[trigger] hexadecimal(n, width)[i] <= '9' || 'a'
                <= hexadecimal(n, width)[i] <= 'f'),
    decreases width,
{
    let text = hexadecimal(n, width);
    if width > 0 {
        let before = (width - 1) as nat;
        a_number_reads_as_it_was_written_in_hexadecimal(n / 16, before);
        assert(text.drop_last() =~= hexadecimal(n / 16, before));
        assert(text.last() == hex_digit(n % 16));
        assert(read_hex_digit(hex_digit(n % 16)) == n % 16);
        assert(n < sixteen_to(width) ==> n / 16 < sixteen_to(before));
        assert forall|i: int| 0 <= i < width implies ('0' <= #[trigger] text[i] <= '9' || 'a'
            <= text[i] <= 'f') by {
            if i < width - 1 {
                assert(text[i] == hexadecimal(n / 16, before)[i]);
            }
        }
    }
}

/// Of the ASCII characters, the blank and those from the tab to the carriage return are
/// white space, and no others.
pub proof fn ascii_white_space_is_blanks_and_line_breaks(c: char)
    requires
        (c as u32) < 0x80,
    ensures
        is_white_space(c) <==> c == ' ' || '\t' <= c <= '\r',
{
}

/// A text is blank exactly when none of its characters is anything but white space; so
/// is the empty one.
pub proof fn a_text_with_something_to_read_is_not_blank(s: Seq<char>, i: int)
    ensures
        s.len() == 0 ==> is_blank_text(s),
        0 <= i < s.len() && !is_white_space(s[i]) ==> !is_blank_text(s),
{
}

/// A number is written so that it reads as that number.
pub proof fn a_written_number_reads_back(n: u64, r: String)
    requires
        call_ensures(decimal_text, (n,), r),
    ensures
        read_decimal(r@) == n,
{
    a_number_reads_as_it_was_written(n as nat);
}

/// Of two texts that differ, exactly one comes before the other, as in a dictionary of their bytes.
pub proof fn one_of_two_texts_comes_first(
    a: &str,
    b: &str,
    same: bool,
    before: bool,
    behind: bool,
)
    requires
        call_ensures(same_text, (a, b), same),
        call_ensures(comes_before, (a, b), before),
        call_ensures(comes_before, (b, a), behind),
    ensures
        same <==> a@ == b@,
        same <==> !before && !behind,
        !(before && behind),
        before <==> exists|k: int| #[trigger]
            first_differs_at(encode_utf8(a@), encode_utf8(b@), k),
{
    lemma_text_order(a@, b@, a@);
    lemma_text_order(b@, a@, b@);
    texts_are_ordered_by_their_first_difference(encode_utf8(a@), encode_utf8(b@));
}

} // verus!
