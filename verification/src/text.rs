//! Texts: splitting at separators, comparing, searching, and writing numbers.

use vstd::prelude::*;

verus! {

/// The pieces of a text between consecutive separators.
///
/// A text without the separator is one piece, the text itself; every
/// separator starts a new piece, so empty pieces are kept.
pub open spec fn pieces(s: Seq<char>, separator: char) -> Seq<Seq<char>>
    decreases s.len(),
{
    if s.len() == 0 {
        seq![Seq::<char>::empty()]
    } else {
        let front = pieces(s.drop_last(), separator);
        if s.last() == separator {
            front.push(Seq::<char>::empty())
        } else {
            front.update(front.len() - 1, front.last().push(s.last()))
        }
    }
}

/// The levels of a topic name: its pieces between `/` characters.
pub open spec fn levels(s: Seq<char>) -> Seq<Seq<char>> {
    pieces(s, '/')
}

/// Splits a text at every separator.
pub fn split_pieces<'a>(text: &'a str, separator: char) -> (parts: Vec<&'a str>)
    ensures
        parts@.len() >= 1,
        parts@.len() == pieces(text@, separator).len(),
        forall|i: int|
            0 <= i < parts@.len() ==> (#[trigger] parts@[i])@ == pieces(text@, separator)[i],
{
    let n: usize = text.unicode_len();
    let mut parts: Vec<&'a str> = Vec::new();
    let mut start: usize = 0;
    let mut i: usize = 0;
    while i < n
        invariant
            n == text@.len(),
            start <= i <= n,
            parts@.len() + 1 == pieces(text@.take(i as int), separator).len(),
            forall|k: int|
                0 <= k < parts@.len() ==> (#[trigger] parts@[k])@ == pieces(
                    text@.take(i as int),
                    separator,
                )[k],
            pieces(text@.take(i as int), separator).last() == text@.subrange(
                start as int,
                i as int,
            ),
        decreases n - i,
    {
        let c = text.get_char(i);
        proof {
            let next = text@.take(i + 1);
            assert(next.drop_last() == text@.take(i as int));
            assert(next.last() == c);
        }
        if c == separator {
            parts.push(text.substring_char(start, i));
            start = i + 1;
            proof {
                assert(text@.subrange(start as int, start as int) == Seq::<char>::empty());
            }
        } else {
            proof {
                assert(text@.subrange(start as int, i + 1) == text@.subrange(
                    start as int,
                    i as int,
                ).push(c));
            }
        }
        i = i + 1;
    }
    proof {
        assert(text@.take(n as int) == text@);
    }
    parts.push(text.substring_char(start, n));
    parts
}

/// Splits a topic name into its levels.
pub fn split_levels<'a>(topic: &'a str) -> (parts: Vec<&'a str>)
    ensures
        parts@.len() >= 1,
        parts@.len() == levels(topic@).len(),
        forall|i: int| 0 <= i < parts@.len() ==> (#[trigger] parts@[i])@ == levels(topic@)[i],
{
    split_pieces(topic, '/')
}

/// Whether two string slices hold the same text.
pub fn same_text(a: &str, b: &str) -> (r: bool)
    ensures
        r == (a@ == b@),
{
    let x = a.as_bytes();
    let y = b.as_bytes();
    proof {
        vstd::utf8::encode_utf8_decode_utf8(a@);
        vstd::utf8::encode_utf8_decode_utf8(b@);
    }
    if x.len() != y.len() {
        return false;
    }
    let n: usize = x.len();
    let mut i: usize = 0;
    while i < n
        invariant
            n == x@.len(),
            n == y@.len(),
            i <= n,
            x@ == vstd::utf8::encode_utf8(a@),
            y@ == vstd::utf8::encode_utf8(b@),
            vstd::utf8::decode_utf8(x@) == a@,
            vstd::utf8::decode_utf8(y@) == b@,
            forall|k: int| 0 <= k < i ==> x@[k] == y@[k],
        decreases n - i,
    {
        if x[i] != y[i] {
            return false;
        }
        i = i + 1;
    }
    assert(x@ =~= y@);
    true
}

/// Whether `text` begins with `prefix`.
pub fn has_prefix(text: &str, prefix: &str) -> (r: bool)
    ensures
        r == prefix@.is_prefix_of(text@),
{
    let n: usize = prefix.unicode_len();
    if text.unicode_len() < n {
        return false;
    }
    let head = text.substring_char(0, n);
    let r = same_text(head, prefix);
    proof {
        if r {
            assert(prefix@ =~= text@.subrange(0, n as int));
        } else if prefix@.is_prefix_of(text@) {
            assert(text@.subrange(0, n as int) =~= prefix@);
        }
    }
    r
}

/// Whether `c` occurs in `text`.
pub fn has_char(text: &str, c: char) -> (r: bool)
    ensures
        r == text@.contains(c),
{
    let n: usize = text.unicode_len();
    let mut i: usize = 0;
    while i < n
        invariant
            n == text@.len(),
            i <= n,
            forall|k: int| 0 <= k < i ==> text@[k] != c,
        decreases n - i,
    {
        if text.get_char(i) == c {
            return true;
        }
        i = i + 1;
    }
    false
}

/// The part of a text of a given length from a given position.
pub open spec fn window(text: Seq<char>, at: int, len: nat) -> Seq<char> {
    text.subrange(at, at + len)
}

/// Whether `pattern` occurs in `text` at some position.
pub open spec fn occurs_in(pattern: Seq<char>, text: Seq<char>) -> bool {
    exists|i: int|
        0 <= i && i + pattern.len() <= text.len() && #[trigger] window(text, i, pattern.len())
            == pattern
}

/// Whether `pattern` occurs in `text`.
pub fn has_substring(text: &str, pattern: &str) -> (r: bool)
    ensures
        r == occurs_in(pattern@, text@),
{
    let n: usize = text.unicode_len();
    let m: usize = pattern.unicode_len();
    if m > n {
        return false;
    }
    if m == 0 {
        assert(window(text@, 0, 0) =~= pattern@);
        return true;
    }
    let mut i: usize = 0;
    while i <= n - m
        invariant
            n == text@.len(),
            m == pattern@.len(),
            1 <= m <= n,
            i <= n - m + 1,
            forall|k: int| 0 <= k < i ==> #[trigger] window(text@, k, m as nat) != pattern@,
        decreases n - m + 1 - i,
    {
        if same_text(text.substring_char(i, i + m), pattern) {
            assert(window(text@, i as int, m as nat) == pattern@);
            return true;
        }
        i = i + 1;
    }
    false
}

/// The character of a digit.
pub open spec fn digit_text(d: nat) -> Seq<char> {
    if d == 0 {
        "0"@
    } else if d == 1 {
        "1"@
    } else if d == 2 {
        "2"@
    } else if d == 3 {
        "3"@
    } else if d == 4 {
        "4"@
    } else if d == 5 {
        "5"@
    } else if d == 6 {
        "6"@
    } else if d == 7 {
        "7"@
    } else if d == 8 {
        "8"@
    } else {
        "9"@
    }
}

/// A number in decimal digits.
pub open spec fn decimal(n: nat) -> Seq<char>
    decreases n,
{
    if n < 10 {
        digit_text(n)
    } else {
        decimal(n / 10) + digit_text(n % 10)
    }
}

fn digit(d: u64) -> (r: &'static str)
    requires
        d < 10,
    ensures
        r@ == digit_text(d as nat),
{
    if d == 0 {
        "0"
    } else if d == 1 {
        "1"
    } else if d == 2 {
        "2"
    } else if d == 3 {
        "3"
    } else if d == 4 {
        "4"
    } else if d == 5 {
        "5"
    } else if d == 6 {
        "6"
    } else if d == 7 {
        "7"
    } else if d == 8 {
        "8"
    } else {
        "9"
    }
}

/// Writes a number in decimal digits.
pub fn decimal_text(n: u64) -> (r: String)
    ensures
        r@ == decimal(n as nat),
    decreases n,
{
    if n < 10 {
        String::from_str(digit(n))
    } else {
        let mut text = decimal_text(n / 10);
        text.append(digit(n % 10));
        text
    }
}

/// The position of the first occurrence of a character in a text, or the
/// length of the text where it does not occur.
pub open spec fn first_index_of(s: Seq<char>, c: char) -> int
    decreases s.len(),
{
    if s.len() == 0 {
        0
    } else if s[0] == c {
        0
    } else {
        1 + first_index_of(s.drop_first(), c)
    }
}

/// The first occurrence is where none is before it.
pub proof fn lemma_first_index_of(s: Seq<char>, c: char, i: int)
    requires
        0 <= i <= s.len(),
        forall|k: int| 0 <= k < i ==> s[k] != c,
        i < s.len() ==> s[i] == c,
    ensures
        first_index_of(s, c) == i,
    decreases s.len(),
{
    if s.len() > 0 && i > 0 {
        let rest = s.drop_first();
        assert forall|k: int| 0 <= k < i - 1 implies rest[k] != c by {
            assert(rest[k] == s[k + 1]);
        }
        lemma_first_index_of(rest, c, i - 1);
    }
}

/// The position of the first occurrence of a character in a text.
pub fn find_char(text: &str, c: char) -> (r: Option<usize>)
    ensures
        match r {
            Some(i) => i < text@.len() && first_index_of(text@, c) == i,
            None => first_index_of(text@, c) == text@.len(),
        },
{
    let n: usize = text.unicode_len();
    let mut i: usize = 0;
    while i < n
        invariant
            n == text@.len(),
            i <= n,
            forall|k: int| 0 <= k < i ==> text@[k] != c,
        decreases n - i,
    {
        if text.get_char(i) == c {
            proof {
                lemma_first_index_of(text@, c, i as int);
            }
            return Some(i);
        }
        i = i + 1;
    }
    proof {
        lemma_first_index_of(text@, c, n as int);
    }
    None
}

/// A text without the separator is one piece.
pub proof fn lemma_pieces_of_one(s: Seq<char>, separator: char)
    requires
        !s.contains(separator),
    ensures
        pieces(s, separator) == seq![s],
    decreases s.len(),
{
    if s.len() == 0 {
        assert(s =~= Seq::<char>::empty());
    } else {
        let front = s.drop_last();
        assert(s.last() == s[s.len() - 1]);
        assert(s.contains(s[s.len() - 1]));
        assert forall|i: int| 0 <= i < front.len() implies front[i] != separator by {
            assert(front[i] == s[i]);
            assert(s.contains(s[i]));
        }
        lemma_pieces_of_one(front, separator);
        assert(front.push(s.last()) =~= s);
        assert(pieces(s, separator) =~= seq![s]);
    }
}

/// The pieces of two texts with a separator between them are the pieces of
/// the first followed by those of the second.
pub proof fn lemma_pieces_of_two(a: Seq<char>, b: Seq<char>, separator: char)
    ensures
        pieces(a + seq![separator] + b, separator) == pieces(a, separator) + pieces(b, separator),
    decreases b.len(),
{
    let whole = a + seq![separator] + b;
    if b.len() == 0 {
        assert(whole.drop_last() =~= a);
        assert(pieces(b, separator) =~= seq![Seq::<char>::empty()]);
        assert(pieces(whole, separator) =~= pieces(a, separator) + pieces(b, separator));
    } else {
        let front = b.drop_last();
        lemma_pieces_of_two(a, front, separator);
        lemma_pieces_not_empty(front, separator);
        lemma_pieces_not_empty(a, separator);
        assert(whole.drop_last() =~= a + seq![separator] + front);
        assert(whole.last() == b.last());
        assert(pieces(whole, separator) =~= pieces(a, separator) + pieces(b, separator));
    }
}

/// Every text has at least one piece.
pub proof fn lemma_pieces_not_empty(s: Seq<char>, separator: char)
    ensures
        pieces(s, separator).len() >= 1,
    decreases s.len(),
{
    if s.len() > 0 {
        lemma_pieces_not_empty(s.drop_last(), separator);
    }
}

/// Texts put together with a separator between them.
pub open spec fn joined(parts: Seq<Seq<char>>, separator: char) -> Seq<char>
    decreases parts.len(),
{
    if parts.len() == 0 {
        Seq::<char>::empty()
    } else if parts.len() == 1 {
        parts[0]
    } else {
        joined(parts.drop_last(), separator) + seq![separator] + parts.last()
    }
}

/// One more text is put behind the others with a separator before it.
pub proof fn lemma_joined_push(parts: Seq<Seq<char>>, last: Seq<char>, separator: char)
    requires
        parts.len() >= 1,
    ensures
        joined(parts.push(last), separator) == joined(parts, separator) + seq![separator] + last,
{
    assert(parts.push(last).drop_last() =~= parts);
}

/// Texts without the separator, put together with the separator between
/// them, are the pieces of what they make.
pub proof fn lemma_pieces_of_joined(parts: Seq<Seq<char>>, separator: char)
    requires
        parts.len() >= 1,
        forall|i: int| 0 <= i < parts.len() ==> !(#[trigger] parts[i]).contains(separator),
    ensures
        pieces(joined(parts, separator), separator) == parts,
    decreases parts.len(),
{
    if parts.len() == 1 {
        lemma_pieces_of_one(parts[0], separator);
        assert(seq![parts[0]] =~= parts);
    } else {
        let front = parts.drop_last();
        assert forall|i: int| 0 <= i < front.len() implies !(#[trigger] front[i]).contains(
            separator,
        ) by {
            assert(front[i] == parts[i]);
        }
        lemma_pieces_of_joined(front, separator);
        lemma_pieces_of_two(joined(front, separator), parts.last(), separator);
        lemma_pieces_of_one(parts.last(), separator);
        assert(front + seq![parts.last()] =~= parts);
    }
}

/// What is put together of texts and a separator holds no character that
/// is neither the separator nor in one of the texts.
pub proof fn lemma_joined_holds(parts: Seq<Seq<char>>, separator: char, c: char)
    requires
        c != separator,
        forall|i: int| 0 <= i < parts.len() ==> !(#[trigger] parts[i]).contains(c),
    ensures
        !joined(parts, separator).contains(c),
    decreases parts.len(),
{
    let whole = joined(parts, separator);
    if parts.len() == 0 {
    } else if parts.len() == 1 {
    } else {
        let front = parts.drop_last();
        assert forall|i: int| 0 <= i < front.len() implies !(#[trigger] front[i]).contains(c) by {
            assert(front[i] == parts[i]);
        }
        lemma_joined_holds(front, separator, c);
        let head = joined(front, separator);
        let last = parts.last();
        assert(!last.contains(c));
        if whole.contains(c) {
            let k = choose|k: int| 0 <= k < whole.len() && whole[k] == c;
            if k < head.len() {
                assert(head[k] == c);
                assert(head.contains(c));
            } else if k > head.len() {
                assert(last[k - head.len() - 1] == c);
                assert(last.contains(c));
            }
        }
    }
}

} // verus!
