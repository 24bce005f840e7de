//! Text primitives shared by the filter compiler and the SQL compiler.
//!
//! Every function here is stated over `Seq<char>`, the view of `str` and
//! `String`.

use vstd::prelude::*;
use vstd::std_specs::iter::IteratorSpec;

verus! {

/// `String::push` appends one character.
pub assume_specification[ std::string::String::push ](s: &mut std::string::String, c: char)
    ensures
        final(s)@ == old(s)@.push(c),
;

/// The characters of `s`, in order.
pub fn to_chars(s: &str) -> (chars: Vec<char>)
    ensures
        chars@ == s@,
{
    let mut chars: Vec<char> = Vec::new();
    let mut it = s.chars();
    proof {
        vstd::string::axiom_spec_iter(s);
    }
    let ghost all = s@;
    loop
        invariant
            it.obeys_prophetic_iter_laws(),
            it.decrease() is Some,
            all == chars@ + it.remaining(),
        ensures
            all == chars@,
        decreases it.decrease()->0,
    {
        let ghost before = it;
        let next = it.next();
        proof {
            vstd::string::next_postcondition(&before, &it, next);
        }
        match next {
            Some(c) => {
                chars.push(c);
                assert(all =~= chars@ + it.remaining());
            },
            None => {
                assert(all =~= chars@);
                break;
            },
        }
    }
    chars
}

/// The string whose characters are `chars`.
pub fn from_chars(chars: &Vec<char>) -> (s: String)
    ensures
        s@ == chars@,
{
    let mut s = String::new();
    let mut i: usize = 0;
    while i < chars.len()
        invariant
            i <= chars.len(),
            s@ == chars@.take(i as int),
        decreases chars.len() - i,
    {
        s.push(chars[i]);
        i += 1;
        assert(chars@.take(i as int) =~= chars@.take(i - 1).push(chars@[i - 1]));
    }
    assert(chars@.take(chars.len() as int) =~= chars@);
    s
}

/// Whether two texts hold the same characters.
pub fn same_text(a: &str, b: &str) -> (same: bool)
    ensures
        same == (a@ == b@),
{
    let x = a.to_owned();
    let y = b.to_owned();
    x == y
}


/// The string whose characters are `chars[from..to]`.
pub fn from_char_range(chars: &Vec<char>, from: usize, to: usize) -> (s: String)
    requires
        from <= to <= chars.len(),
    ensures
        s@ == chars@.subrange(from as int, to as int),
{
    let mut s = String::new();
    let mut i: usize = from;
    while i < to
        invariant
            from <= i <= to <= chars.len(),
            s@ == chars@.subrange(from as int, i as int),
        decreases to - i,
    {
        s.push(chars[i]);
        i += 1;
        assert(chars@.subrange(from as int, i as int) =~= chars@.subrange(from as int, i - 1).push(
            chars@[i - 1],
        ));
    }
    s
}

/// `first` followed by `second`.
pub fn joined(first: &str, second: &str) -> (s: String)
    ensures
        s@ == first@ + second@,
{
    let mut s = first.to_owned();
    s.append(second);
    s
}

/// Whether `c` has the Unicode property White_Space.
pub open spec fn is_whitespace(c: char) -> bool {
    let n = c as u32;
    ||| 9 <= n <= 13
    ||| n == 0x20
    ||| n == 0x85
    ||| n == 0xA0
    ||| n == 0x1680
    ||| 0x2000 <= n <= 0x200A
    ||| n == 0x2028
    ||| n == 0x2029
    ||| n == 0x202F
    ||| n == 0x205F
    ||| n == 0x3000
}

/// Whether `c` is whitespace.
pub fn char_is_whitespace(c: char) -> (b: bool)
    ensures
        b == is_whitespace(c),
{
    let n: u32 = c as u32;
    (9 <= n && n <= 13) || n == 0x20 || n == 0x85 || n == 0xA0 || n == 0x1680 || (0x2000 <= n && n
        <= 0x200A) || n == 0x2028 || n == 0x2029 || n == 0x202F || n == 0x205F || n == 0x3000
}

/// How many whitespace characters `s` starts with.
pub open spec fn leading_whitespace(s: Seq<char>) -> nat
    decreases s.len(),
{
    if s.len() > 0 && is_whitespace(s[0]) {
        1 + leading_whitespace(s.drop_first())
    } else {
        0
    }
}

/// How many whitespace characters `s` ends with.
pub open spec fn trailing_whitespace(s: Seq<char>) -> nat
    decreases s.len(),
{
    if s.len() > 0 && is_whitespace(s.last()) {
        1 + trailing_whitespace(s.drop_last())
    } else {
        0
    }
}

/// `s` without the whitespace at its start and at its end.
pub open spec fn trimmed(s: Seq<char>) -> Seq<char> {
    let rest = s.skip(leading_whitespace(s) as int);
    rest.take(rest.len() - trailing_whitespace(rest))
}

/// Removes the whitespace around `s`.
pub fn trim(s: &str) -> (t: String)
    ensures
        t@ == trimmed(s@),
{
    let chars = to_chars(s);
    let n = chars.len();
    let mut start: usize = 0;
    assert(chars@.skip(0) =~= chars@);
    while start < n && char_is_whitespace(chars[start])
        invariant
            n == chars.len(),
            start <= n,
            leading_whitespace(chars@) == start + leading_whitespace(chars@.skip(start as int)),
        decreases n - start,
    {
        assert(chars@.skip(start as int).drop_first() =~= chars@.skip(start + 1));
        start += 1;
    }
    assert(leading_whitespace(chars@) == start);
    let ghost rest = chars@.skip(start as int);
    let mut end: usize = n;
    assert(rest.take((end - start) as int) =~= rest);
    while end > start && char_is_whitespace(chars[end - 1])
        invariant
            n == chars.len(),
            start <= end <= n,
            rest == chars@.skip(start as int),
            trailing_whitespace(rest) == (n - end) + trailing_whitespace(
                rest.take((end - start) as int),
            ),
        decreases end,
    {
        assert(rest.take((end - start) as int).drop_last() =~= rest.take(end - start - 1));
        end -= 1;
    }
    assert(trailing_whitespace(rest) == n - end);
    let t = from_char_range(&chars, start, end);
    assert(t@ =~= trimmed(s@));
    t
}


/// The views of a list of strings.
pub open spec fn texts(list: Seq<String>) -> Seq<Seq<char>> {
    Seq::new(list.len(), |i: int| list[i]@)
}

/// The pieces of `s` between occurrences of `separator`; a text without the
/// separator is one piece.
pub open spec fn split_on(s: Seq<char>, separator: char) -> Seq<Seq<char>>
    decreases s.len(),
{
    if s.len() == 0 {
        seq![Seq::<char>::empty()]
    } else {
        let before = split_on(s.drop_last(), separator);
        if s.last() == separator {
            before.push(Seq::<char>::empty())
        } else {
            before.drop_last().push(before.last().push(s.last()))
        }
    }
}

/// Splits `s` at every `separator`.
pub fn split(s: &str, separator: char) -> (pieces: Vec<String>)
    ensures
        texts(pieces@) == split_on(s@, separator),
{
    let chars = to_chars(s);
    let mut pieces: Vec<String> = Vec::new();
    let mut current = String::new();
    let mut i: usize = 0;
    assert(chars@.take(0) =~= Seq::<char>::empty());
    assert(texts(pieces@).push(current@) =~= split_on(chars@.take(0), separator));
    while i < chars.len()
        invariant
            i <= chars.len(),
            texts(pieces@).push(current@) == split_on(chars@.take(i as int), separator),
        decreases chars.len() - i,
    {
        let c = chars[i];
        let ghost before = split_on(chars@.take(i as int), separator);
        assert(chars@.take(i + 1).drop_last() =~= chars@.take(i as int));
        assert(chars@.take(i + 1).last() == c);
        assert(before.last() == current@);
        assert(before.drop_last() =~= texts(pieces@));
        if c == separator {
            let ghost old_pieces = pieces@;
            pieces.push(current);
            current = String::new();
            assert(texts(pieces@) =~= texts(old_pieces).push(before.last()));
        } else {
            current.push(c);
        }
        i += 1;
        assert(texts(pieces@).push(current@) =~= split_on(chars@.take(i as int), separator));
    }
    assert(chars@.take(chars.len() as int) =~= chars@);
    let ghost old_pieces = pieces@;
    pieces.push(current);
    assert(texts(pieces@) =~= texts(old_pieces).push(current@));
    pieces
}

/// The words of `s`: the runs of characters that are no whitespace, in
/// order. A character that is no whitespace continues the word that the
/// character before it belongs to, or begins a new word.
pub open spec fn words(s: Seq<char>) -> Seq<Seq<char>>
    decreases s.len(),
{
    if s.len() == 0 {
        Seq::empty()
    } else {
        let before = words(s.drop_last());
        if is_whitespace(s.last()) {
            before
        } else if s.len() >= 2 && !is_whitespace(s[s.len() - 2]) && before.len() > 0 {
            before.drop_last().push(before.last().push(s.last()))
        } else {
            before.push(seq![s.last()])
        }
    }
}

/// After a character that is no whitespace there is a word.
pub proof fn lemma_word_open(s: Seq<char>)
    requires
        s.len() > 0,
        !is_whitespace(s.last()),
    ensures
        words(s).len() > 0,
{
}

/// Splits `s` at whitespace, as `str::split_whitespace` does: the words of
/// `s`, none of them empty.
pub fn split_whitespace(s: &str) -> (pieces: Vec<String>)
    ensures
        texts(pieces@) == words(s@),
{
    let chars = to_chars(s);
    let mut pieces: Vec<String> = Vec::new();
    let mut current = String::new();
    let mut open = false;
    let mut i: usize = 0;
    assert(chars@.take(0) =~= Seq::<char>::empty());
    assert(texts(pieces@) =~= words(chars@.take(0)));
    while i < chars.len()
        invariant
            i <= chars.len(),
            open ==> i > 0 && !is_whitespace(chars@[i - 1]) && texts(pieces@).push(current@)
                == words(chars@.take(i as int)),
            !open ==> (i == 0 || is_whitespace(chars@[i - 1])) && texts(pieces@) == words(
                chars@.take(i as int),
            ),
        decreases chars.len() - i,
    {
        let c = chars[i];
        let ghost prefix = chars@.take(i as int);
        let ghost before = words(prefix);
        assert(chars@.take(i + 1).drop_last() =~= prefix);
        assert(chars@.take(i + 1).last() == c);
        proof {
            if i > 0 {
                assert(chars@.take(i + 1)[i - 1] == chars@[i - 1]);
                assert(prefix.last() == chars@[i - 1]);
            }
        }
        if char_is_whitespace(c) {
            if open {
                let ghost old_pieces = pieces@;
                pieces.push(current);
                current = String::new();
                open = false;
                assert(texts(pieces@) =~= texts(old_pieces).push(before.last()));
                assert(texts(pieces@) =~= before);
            }
        } else {
            if open {
                proof {
                    lemma_word_open(prefix);
                    assert(before.last() == current@);
                    assert(before.drop_last() =~= texts(pieces@));
                }
                current.push(c);
            } else {
                current = String::new();
                current.push(c);
                open = true;
                assert(current@ =~= seq![c]);
            }
        }
        i += 1;
    }
    assert(chars@.take(chars.len() as int) =~= chars@);
    if open {
        let ghost old_pieces = pieces@;
        pieces.push(current);
        assert(texts(pieces@) =~= texts(old_pieces).push(current@));
    }
    pieces
}

/// A piece that a line feed ended, as a line: without the carriage return
/// before the line feed, where there is one.
pub open spec fn ended_line(piece: Seq<char>) -> Seq<char> {
    if piece.len() > 0 && piece.last() == '\r' {
        piece.drop_last()
    } else {
        piece
    }
}

/// The first `n` pieces between line feeds as lines; `n` is less than the
/// number of pieces, so each of them was ended by a line feed.
pub open spec fn ended_lines(pieces: Seq<Seq<char>>, n: int) -> Seq<Seq<char>>
    decreases n,
{
    if n <= 0 {
        Seq::empty()
    } else {
        ended_lines(pieces, n - 1).push(ended_line(pieces[n - 1]))
    }
}

/// The lines of `s`: the pieces between line feeds, each without the
/// carriage return before its line feed. What follows the last line feed is
/// a line where it is not empty, and keeps a carriage return at its end.
pub open spec fn text_lines(s: Seq<char>) -> Seq<Seq<char>> {
    let pieces = split_on(s, '\n');
    let ended = ended_lines(pieces, pieces.len() - 1);
    if pieces.last().len() > 0 {
        ended.push(pieces.last())
    } else {
        ended
    }
}

/// A text has at least one piece.
pub proof fn lemma_split_has_a_piece(s: Seq<char>, separator: char)
    ensures
        split_on(s, separator).len() >= 1,
    decreases s.len(),
{
    if s.len() > 0 {
        lemma_split_has_a_piece(s.drop_last(), separator);
    }
}

fn line_of(piece: &str) -> (line: String)
    ensures
        line@ == ended_line(piece@),
{
    let chars = to_chars(piece);
    let n = chars.len();
    if n > 0 && chars[n - 1] == '\r' {
        let line = from_char_range(&chars, 0, n - 1);
        assert(chars@.subrange(0, n - 1) =~= piece@.drop_last());
        line
    } else {
        let line = from_char_range(&chars, 0, n);
        assert(chars@.subrange(0, n as int) =~= piece@);
        line
    }
}

/// The lines of `s`, as `str::lines` gives them.
pub fn lines(s: &str) -> (list: Vec<String>)
    ensures
        texts(list@) == text_lines(s@),
{
    let pieces = split(s, '\n');
    proof {
        lemma_split_has_a_piece(s@, '\n');
    }
    let ghost all = split_on(s@, '\n');
    let n = pieces.len();
    let mut list: Vec<String> = Vec::new();
    let mut i: usize = 0;
    assert(texts(list@) =~= ended_lines(all, 0));
    while i + 1 < n
        invariant
            n == pieces.len(),
            n >= 1,
            i + 1 <= n,
            all == texts(pieces@),
            texts(list@) == ended_lines(all, i as int),
        decreases n - i,
    {
        let ghost before = list@;
        let line = line_of(pieces[i].as_str());
        list.push(line);
        assert(texts(list@) =~= texts(before).push(ended_line(all[i as int])));
        i += 1;
    }
    assert(all.len() == n);
    assert(all.last() == pieces@[n - 1]@);
    if !pieces[n - 1].as_str().is_empty() {
        let ghost before = list@;
        let line = pieces[n - 1].clone();
        list.push(line);
        assert(texts(list@) =~= texts(before).push(all[n - 1]));
    }
    list
}

/// The texts from the place `from` up to the place `n`, separated by
/// `separator`.
pub open spec fn separated(
    parts: Seq<Seq<char>>,
    separator: Seq<char>,
    from: int,
    n: int,
) -> Seq<char>
    decreases n - from,
{
    if n <= from {
        Seq::empty()
    } else if n == from + 1 {
        parts[from]
    } else {
        separated(parts, separator, from, n - 1) + separator + parts[n - 1]
    }
}

/// Joins the texts from the place `from` on with `separator` between them.
pub fn join_from(parts: &Vec<String>, separator: &str, from: usize) -> (text: String)
    ensures
        text@ == separated(texts(parts@), separator@, from as int, parts.len() as int),
{
    let mut text = String::new();
    if from >= parts.len() {
        assert(text@ =~= Seq::<char>::empty());
        return text;
    }
    let mut i: usize = from;
    assert(text@ =~= separated(texts(parts@), separator@, from as int, from as int));
    while i < parts.len()
        invariant
            from <= i <= parts.len(),
            text@ == separated(texts(parts@), separator@, from as int, i as int),
        decreases parts.len() - i,
    {
        if i > from {
            text.append(separator);
        }
        text.append(parts[i].as_str());
        proof {
            assert(texts(parts@)[i as int] == parts@[i as int]@);
            if i == from {
                assert(text@ =~= parts@[i as int]@);
            }
        }
        i += 1;
    }
    text
}

/// Whether `s` ends with `suffix`.
pub open spec fn has_suffix(s: Seq<char>, suffix: Seq<char>) -> bool {
    suffix.len() <= s.len() && s.skip(s.len() - suffix.len()) == suffix
}

/// `s` without `suffix` at its end: `s` without its last characters, as many
/// as `suffix` has, where it ends with `suffix`, and `s` itself where it
/// does not. The suffix is taken off once, even where it stands twice.
pub open spec fn without_suffix(s: Seq<char>, suffix: Seq<char>) -> Seq<char> {
    if has_suffix(s, suffix) {
        s.take(s.len() - suffix.len())
    } else {
        s
    }
}

/// Whether the first `end` characters of `chars` end with `suffix`.
fn prefix_ends_with(chars: &Vec<char>, end: usize, suffix: &Vec<char>) -> (found: bool)
    requires
        end <= chars.len(),
    ensures
        found == has_suffix(chars@.take(end as int), suffix@),
{
    let m = suffix.len();
    if m > end {
        return false;
    }
    let start = end - m;
    let ghost tail = chars@.take(end as int).skip(start as int);
    let mut i: usize = 0;
    while i < m
        invariant
            i <= m,
            m == suffix.len(),
            start + m == end,
            end <= chars.len(),
            tail == chars@.take(end as int).skip(start as int),
            forall|j: int| 0 <= j < i ==> tail[j] == suffix@[j],
        decreases m - i,
    {
        if chars[start + i] != suffix[i] {
            assert(tail[i as int] != suffix@[i as int]);
            return false;
        }
        i += 1;
    }
    assert(tail =~= suffix@);
    true
}

/// Whether `s` ends with `suffix`.
pub fn ends_with(s: &str, suffix: &str) -> (found: bool)
    ensures
        found == has_suffix(s@, suffix@),
{
    let chars = to_chars(s);
    let tail = to_chars(suffix);
    assert(chars@.take(chars.len() as int) =~= chars@);
    prefix_ends_with(&chars, chars.len(), &tail)
}

/// Takes `suffix` off the end of `s`, once.
pub fn strip_suffix(s: &str, suffix: &str) -> (t: String)
    ensures
        t@ == without_suffix(s@, suffix@),
{
    let chars = to_chars(s);
    let tail = to_chars(suffix);
    assert(chars@.take(chars.len() as int) =~= chars@);
    if prefix_ends_with(&chars, chars.len(), &tail) {
        let end = chars.len() - tail.len();
        let t = from_char_range(&chars, 0, end);
        assert(chars@.subrange(0, end as int) =~= chars@.take(end as int));
        t
    } else {
        s.to_owned()
    }
}

/// `s` as it stands inside a quoted SQL literal: every single quote and
/// every backslash is written twice, so that neither ends the literal nor
/// takes the character behind it out of it.
pub open spec fn escaped_literal(s: Seq<char>) -> Seq<char>
    decreases s.len(),
{
    if s.len() == 0 {
        Seq::<char>::empty()
    } else if s.last() == '\'' || s.last() == '\\' {
        escaped_literal(s.drop_last()).push(s.last()).push(s.last())
    } else {
        escaped_literal(s.drop_last()).push(s.last())
    }
}

/// `t` with every pair of single quotes read as one quote and every pair of
/// backslashes as one backslash, pair by pair from the end of the text.
pub open spec fn unescaped_literal(t: Seq<char>) -> Seq<char>
    decreases t.len(),
{
    if t.len() == 0 {
        Seq::<char>::empty()
    } else if t.len() >= 2 && (t[t.len() - 1] == '\'' || t[t.len() - 1] == '\\') && t[t.len() - 2]
        == t[t.len() - 1] {
        unescaped_literal(t.take(t.len() - 2)).push(t.last())
    } else {
        unescaped_literal(t.drop_last()).push(t.last())
    }
}

/// An escaped text reads back as the text: it is made of pairs and of
/// single characters that are neither quote nor backslash, so no quote of it
/// ends the literal that holds it.
pub proof fn lemma_escaped_literal_reads_back(s: Seq<char>)
    ensures
        unescaped_literal(escaped_literal(s)) == s,
    decreases s.len(),
{
    if s.len() > 0 {
        let init = s.drop_last();
        lemma_escaped_literal_reads_back(init);
        let escaped = escaped_literal(s);
        if s.last() == '\'' || s.last() == '\\' {
            assert(escaped.take(escaped.len() - 2) =~= escaped_literal(init));
        } else {
            assert(escaped.drop_last() =~= escaped_literal(init));
        }
        assert(unescaped_literal(escaped) =~= s);
    }
}

/// Writes every single quote and every backslash of `s` twice, as a quoted
/// SQL literal needs it.
pub fn escape_literal(s: &str) -> (t: String)
    ensures
        t@ == escaped_literal(s@),
{
    let chars = to_chars(s);
    let mut t = String::new();
    let mut i: usize = 0;
    assert(chars@.take(0) =~= Seq::<char>::empty());
    while i < chars.len()
        invariant
            i <= chars.len(),
            t@ == escaped_literal(chars@.take(i as int)),
        decreases chars.len() - i,
    {
        let c = chars[i];
        assert(chars@.take(i + 1).drop_last() =~= chars@.take(i as int));
        if c == '\'' || c == '\\' {
            t.push(c);
            t.push(c);
        } else {
            t.push(c);
        }
        i += 1;
    }
    assert(chars@.take(chars.len() as int) =~= chars@);
    t
}

/// The lower-case form that `str::to_lowercase` gives a text.
pub uninterp spec fn lowercase(s: Seq<char>) -> Seq<char>;

/// `str::to_lowercase`: the Unicode lower-case form of `s`, which depends on
/// nothing but the characters of `s`.
#[verifier::external_body]
pub(crate) fn to_lowercase(s: &str) -> (lower: String)
    ensures
        lower@ == lowercase(s@),
{
    s.to_lowercase()
}

/// The character that writes the digit `d`.
pub open spec fn digit_char(d: int) -> char {
    if d == 0 {
        '0'
    } else if d == 1 {
        '1'
    } else if d == 2 {
        '2'
    } else if d == 3 {
        '3'
    } else if d == 4 {
        '4'
    } else if d == 5 {
        '5'
    } else if d == 6 {
        '6'
    } else if d == 7 {
        '7'
    } else if d == 8 {
        '8'
    } else {
        '9'
    }
}

/// The decimal digits of `n`, without leading zeros.
pub open spec fn decimal_digits(n: nat) -> Seq<char>
    decreases n,
{
    if n < 10 {
        seq![digit_char(n as int)]
    } else {
        decimal_digits(n / 10).push(digit_char((n % 10) as int))
    }
}

/// The decimal form of `i`, with a minus sign where it is negative.
pub open spec fn decimal(i: int) -> Seq<char> {
    if i < 0 {
        seq!['-'] + decimal_digits((-i) as nat)
    } else {
        decimal_digits(i as nat)
    }
}

fn digit_to_char(d: u64) -> (c: char)
    requires
        d < 10,
    ensures
        c == digit_char(d as int),
{
    if d == 0 {
        '0'
    } else if d == 1 {
        '1'
    } else if d == 2 {
        '2'
    } else if d == 3 {
        '3'
    } else if d == 4 {
        '4'
    } else if d == 5 {
        '5'
    } else if d == 6 {
        '6'
    } else if d == 7 {
        '7'
    } else if d == 8 {
        '8'
    } else {
        '9'
    }
}

/// Writes `n` in decimal.
pub fn u64_to_text(n: u64) -> (t: String)
    ensures
        t@ == decimal_digits(n as nat),
    decreases n,
{
    if n < 10 {
        let mut t = String::new();
        t.push(digit_to_char(n));
        assert(t@ =~= seq![digit_char(n as int)]);
        t
    } else {
        let mut t = u64_to_text(n / 10);
        t.push(digit_to_char(n % 10));
        t
    }
}

/// Writes `i` in decimal.
pub fn i64_to_text(i: i64) -> (t: String)
    ensures
        t@ == decimal(i as int),
{
    if i < 0 {
        let magnitude: u64 = if i == i64::MIN {
            9223372036854775808u64
        } else {
            (-i) as u64
        };
        let digits = u64_to_text(magnitude);
        let mut t = String::new();
        t.push('-');
        t.append(digits.as_str());
        assert(t@ =~= seq!['-'] + decimal_digits((-i) as nat));
        t
    } else {
        u64_to_text(i as u64)
    }
}

/// Whether `c` is one of the digits `0` to `9`.
pub open spec fn is_digit(c: char) -> bool {
    48 <= c as u32 <= 57
}

/// The number that the digit `c` writes.
pub open spec fn digit_value(c: char) -> int {
    c as u32 - 48
}

/// How many digits `s` starts with.
pub open spec fn leading_digits(s: Seq<char>) -> nat
    decreases s.len(),
{
    if s.len() > 0 && is_digit(s[0]) {
        1 + leading_digits(s.drop_first())
    } else {
        0
    }
}

/// The number that a run of digits writes in decimal.
pub open spec fn digits_value(s: Seq<char>) -> nat
    decreases s.len(),
{
    if s.len() == 0 {
        0
    } else {
        (digits_value(s.drop_last()) * 10 + digit_value(s.last())) as nat
    }
}

/// Whether `c` is a plus or a minus sign.
pub open spec fn is_sign(c: char) -> bool {
    c == '+' || c == '-'
}

/// `s` without the sign that may stand at its start.
pub open spec fn unsigned_part(s: Seq<char>) -> Seq<char> {
    if s.len() > 0 && is_sign(s[0]) {
        s.drop_first()
    } else {
        s
    }
}

/// The integer that `s` writes: an optional sign, then one or more digits and
/// nothing else.
pub open spec fn signed_integer(s: Seq<char>) -> Option<int> {
    let body = unsigned_part(s);
    if body.len() > 0 && leading_digits(body) == body.len() {
        if s[0] == '-' {
            Some(-(digits_value(body) as int))
        } else {
            Some(digits_value(body) as int)
        }
    } else {
        None
    }
}

/// The `i64` that `s` writes, where it writes an integer in the range of `i64`.
pub open spec fn parsed_i64(s: Seq<char>) -> Option<i64> {
    match signed_integer(s) {
        Some(v) => if i64::MIN <= v <= i64::MAX {
            Some(v as i64)
        } else {
            None
        },
        None => None,
    }
}

pub(crate) fn char_is_digit(c: char) -> (b: bool)
    ensures
        b == is_digit(c),
{
    let n: u32 = c as u32;
    48 <= n && n <= 57
}

/// The number of digits that stand in `chars` from `from` on.
pub(crate) fn count_digits(chars: &Vec<char>, from: usize) -> (count: usize)
    requires
        from <= chars.len(),
    ensures
        count == leading_digits(chars@.skip(from as int)),
        from + count <= chars.len(),
        forall|j: int| from <= j < from + count ==> is_digit(chars@[j]),
{
    let n = chars.len();
    let mut end: usize = from;
    while end < n && char_is_digit(chars[end])
        invariant
            n == chars.len(),
            from <= end <= n,
            leading_digits(chars@.skip(from as int)) == (end - from) + leading_digits(
                chars@.skip(end as int),
            ),
            forall|j: int| from <= j < end ==> is_digit(chars@[j]),
        decreases n - end,
    {
        assert(chars@.skip(end as int).drop_first() =~= chars@.skip(end + 1));
        end += 1;
    }
    end - from
}

/// Reads `s` as an `i64`, as `str::parse::<i64>` does: an optional sign, then
/// digits only; nothing where the number does not fit.
pub fn parse_i64(s: &str) -> (parsed: Option<i64>)
    ensures
        parsed == parsed_i64(s@),
{
    let chars = to_chars(s);
    let n = chars.len();
    let signed = n > 0 && (chars[0] == '+' || chars[0] == '-');
    let start: usize = if signed {
        1
    } else {
        0
    };
    let ghost body = unsigned_part(chars@);
    assert(body =~= chars@.skip(start as int));
    let count = count_digits(&chars, start);
    if count == 0 || start + count != n {
        return None;
    }
    let limit: u128 = 9223372036854775808u128;
    let mut value: u128 = 0;
    let mut i: usize = start;
    assert(body.take(0) =~= Seq::<char>::empty());
    while i < n
        invariant
            n == chars.len(),
            start <= i <= n,
            body == chars@.skip(start as int),
            forall|j: int| start <= j < n ==> is_digit(chars@[j]),
            limit == 9223372036854775808u128,
            value <= limit + 1,
            value <= limit ==> value == digits_value(body.take(i - start)),
            value == limit + 1 ==> digits_value(body.take(i - start)) > limit,
        decreases n - i,
    {
        let d: u128 = (chars[i] as u32 - 48) as u128;
        assert(body.take(i + 1 - start).drop_last() =~= body.take(i - start));
        assert(body.take(i + 1 - start).last() == chars@[i as int]);
        if value > limit {
            value = limit + 1;
        } else {
            let next = value * 10 + d;
            value = if next > limit {
                limit + 1
            } else {
                next
            };
        }
        i += 1;
    }
    assert(body.take(n - start) =~= body);
    if chars[0] == '-' {
        if value > limit {
            None
        } else if value == limit {
            Some(i64::MIN)
        } else {
            Some(-(value as i64))
        }
    } else {
        if value >= limit {
            None
        } else {
            Some(value as i64)
        }
    }
}


/// Whether `c` is the lower-case letter `letter` or its upper-case form.
pub open spec fn is_letter(c: char, letter: char) -> bool {
    c == letter || c as u32 + 32 == letter as u32
}

/// Whether `s` is `word`, whatever the case of its letters; `word` is made of
/// lower-case letters.
pub open spec fn is_word(s: Seq<char>, word: Seq<char>) -> bool {
    s.len() == word.len() && forall|i: int| 0 <= i < s.len() ==> is_letter(s[i], word[i])
}

/// Whether `t` is an exponent: `e` or `E`, an optional sign, one or more
/// digits.
pub open spec fn is_exponent(t: Seq<char>) -> bool {
    t.len() > 0 && (t[0] == 'e' || t[0] == 'E') && {
        let digits = unsigned_part(t.drop_first());
        digits.len() > 0 && leading_digits(digits) == digits.len()
    }
}

/// Whether `s` is a decimal number: digits with at most one point among them,
/// at least one digit, and an optional exponent.
pub open spec fn is_decimal_number(s: Seq<char>) -> bool {
    let whole = leading_digits(s);
    let after_whole = s.skip(whole as int);
    if after_whole.len() > 0 && after_whole[0] == '.' {
        let fraction = leading_digits(after_whole.drop_first());
        let rest = after_whole.skip(1 + fraction as int);
        (whole > 0 || fraction > 0) && (rest.len() == 0 || is_exponent(rest))
    } else {
        whole > 0 && (after_whole.len() == 0 || is_exponent(after_whole))
    }
}

/// Whether `s` is written as a floating-point number: an optional sign, then
/// `inf`, `infinity` or `nan` in any case, or a decimal number.
pub open spec fn is_float_text(s: Seq<char>) -> bool {
    let body = unsigned_part(s);
    ||| is_word(body, "inf"@)
    ||| is_word(body, "infinity"@)
    ||| is_word(body, "nan"@)
    ||| is_decimal_number(body)
}

/// Whether `chars[from..]` is `word`, whatever the case of its letters.
fn tail_is_word(chars: &Vec<char>, from: usize, word: &str) -> (found: bool)
    requires
        from <= chars.len(),
    ensures
        found == is_word(chars@.skip(from as int), word@),
{
    let letters = to_chars(word);
    let n = chars.len();
    if n - from != letters.len() {
        return false;
    }
    let ghost tail = chars@.skip(from as int);
    let mut i: usize = 0;
    while i < letters.len()
        invariant
            n == chars.len(),
            from <= n,
            n - from == letters.len(),
            i <= letters.len(),
            tail == chars@.skip(from as int),
            letters@ == word@,
            forall|j: int| 0 <= j < i ==> is_letter(tail[j], letters@[j]),
        decreases letters.len() - i,
    {
        let c = chars[from + i];
        let letter = letters[i];
        assert(tail[i as int] == c);
        let code: u32 = c as u32;
        let letter_code: u32 = letter as u32;
        let same = c == letter || (letter_code >= 32 && code == letter_code - 32);
        if !same {
            assert(!is_letter(tail[i as int], letters@[i as int]));
            return false;
        }
        i += 1;
    }
    true
}

/// Whether `chars[from..]` is an exponent.
fn tail_is_exponent(chars: &Vec<char>, from: usize) -> (found: bool)
    requires
        from <= chars.len(),
    ensures
        found == is_exponent(chars@.skip(from as int)),
{
    let n = chars.len();
    let ghost tail = chars@.skip(from as int);
    if from == n || !(chars[from] == 'e' || chars[from] == 'E') {
        return false;
    }
    assert(tail[0] == chars@[from as int]);
    assert(tail.drop_first() =~= chars@.skip(from + 1));
    let signed = from + 1 < n && (chars[from + 1] == '+' || chars[from + 1] == '-');
    let start: usize = if signed {
        from + 2
    } else {
        from + 1
    };
    assert(unsigned_part(tail.drop_first()) =~= chars@.skip(start as int)) by {
        if signed {
            assert(chars@.skip(from + 1).drop_first() =~= chars@.skip(from + 2));
        }
    }
    let count = count_digits(&chars, start);
    count > 0 && start + count == n
}

/// Whether `chars[from..]` is a decimal number.
fn tail_is_decimal_number(chars: &Vec<char>, from: usize) -> (found: bool)
    requires
        from <= chars.len(),
    ensures
        found == is_decimal_number(chars@.skip(from as int)),
{
    let n = chars.len();
    let ghost tail = chars@.skip(from as int);
    let whole = count_digits(chars, from);
    let point = from + whole;
    assert(tail.skip(whole as int) =~= chars@.skip(point as int));
    if point < n && chars[point] == '.' {
        assert(chars@.skip(point as int)[0] == chars@[point as int]);
        assert(chars@.skip(point as int).drop_first() =~= chars@.skip(point + 1));
        let fraction = count_digits(chars, point + 1);
        let rest = point + 1 + fraction;
        assert(chars@.skip(point as int).skip(1 + fraction) =~= chars@.skip(rest as int));
        (whole > 0 || fraction > 0) && (rest == n || tail_is_exponent(chars, rest))
    } else {
        if point < n {
            assert(chars@.skip(point as int)[0] == chars@[point as int]);
        }
        whole > 0 && (point == n || tail_is_exponent(chars, point))
    }
}

/// Whether `s` is written as a floating-point number, that is, whether
/// `str::parse` reads it as one.
pub fn is_float(s: &str) -> (found: bool)
    ensures
        found == is_float_text(s@),
{
    let chars = to_chars(s);
    let n = chars.len();
    let signed = n > 0 && (chars[0] == '+' || chars[0] == '-');
    let start: usize = if signed {
        1
    } else {
        0
    };
    assert(unsigned_part(chars@) =~= chars@.skip(start as int));
    tail_is_word(&chars, start, "inf") || tail_is_word(&chars, start, "infinity") || tail_is_word(
        &chars,
        start,
        "nan",
    ) || tail_is_decimal_number(&chars, start)
}

/// The truth value that `s` writes: `true` or `false`, in lower case.
pub open spec fn parsed_bool(s: Seq<char>) -> Option<bool> {
    if s == "true"@ {
        Some(true)
    } else if s == "false"@ {
        Some(false)
    } else {
        None
    }
}

/// Reads `s` as a truth value.
pub fn parse_bool(s: &str) -> (parsed: Option<bool>)
    ensures
        parsed == parsed_bool(s@),
{
    if same_text(s, "true") {
        Some(true)
    } else if same_text(s, "false") {
        Some(false)
    } else {
        None
    }
}

/// How many characters that are no whitespace `s` starts with.
pub open spec fn leading_word(s: Seq<char>) -> nat
    decreases s.len(),
{
    if s.len() > 0 && !is_whitespace(s[0]) {
        1 + leading_word(s.drop_first())
    } else {
        0
    }
}

/// The first run of characters in `s` that are no whitespace, if there is one.
pub open spec fn first_word(s: Seq<char>) -> Option<Seq<char>> {
    let rest = s.skip(leading_whitespace(s) as int);
    if rest.len() == 0 {
        None
    } else {
        Some(rest.take(leading_word(rest) as int))
    }
}

/// The first word of `s`, where `s` is more than whitespace.
pub fn first_word_of(s: &str) -> (word: Option<String>)
    ensures
        word is Some <==> first_word(s@) is Some,
        word is Some ==> word->0@ == first_word(s@)->0,
{
    let chars = to_chars(s);
    let n = chars.len();
    let mut start: usize = 0;
    assert(chars@.skip(0) =~= chars@);
    while start < n && char_is_whitespace(chars[start])
        invariant
            n == chars.len(),
            start <= n,
            leading_whitespace(chars@) == start + leading_whitespace(chars@.skip(start as int)),
        decreases n - start,
    {
        assert(chars@.skip(start as int).drop_first() =~= chars@.skip(start + 1));
        start += 1;
    }
    if start == n {
        return None;
    }
    let ghost rest = chars@.skip(start as int);
    let mut end: usize = start;
    assert(rest.skip(0) =~= rest);
    while end < n && !char_is_whitespace(chars[end])
        invariant
            n == chars.len(),
            start <= end <= n,
            rest == chars@.skip(start as int),
            leading_word(rest) == (end - start) + leading_word(rest.skip(end - start)),
        decreases n - end,
    {
        assert(rest.skip(end - start).drop_first() =~= rest.skip(end + 1 - start));
        assert(rest.skip(end - start)[0] == chars@[end as int]);
        end += 1;
    }
    if end < n {
        assert(rest.skip(end - start)[0] == chars@[end as int]);
    }
    let word = from_char_range(&chars, start, end);
    assert(chars@.subrange(start as int, end as int) =~= rest.take(end - start));
    Some(word)
}

/// Whether `list` holds `s`.
pub fn contains_text(list: &Vec<String>, s: &str) -> (found: bool)
    ensures
        found == texts(list@).contains(s@),
{
    let mut i: usize = 0;
    while i < list.len()
        invariant
            i <= list.len(),
            forall|j: int| 0 <= j < i ==> texts(list@)[j] != s@,
        decreases list.len() - i,
    {
        if same_text(list[i].as_str(), s) {
            assert(texts(list@)[i as int] == s@);
            return true;
        }
        i += 1;
    }
    false
}


/// Whether `s` starts with `prefix`.
pub open spec fn has_prefix(s: Seq<char>, prefix: Seq<char>) -> bool {
    prefix.len() <= s.len() && s.take(prefix.len() as int) == prefix
}

/// Whether `s` is `word`, whatever the case of its letters; `word` is made of
/// lower-case letters.
pub fn is_word_of(s: &str, word: &str) -> (found: bool)
    ensures
        found == is_word(s@, word@),
{
    let chars = to_chars(s);
    assert(chars@.skip(0) =~= chars@);
    tail_is_word(&chars, 0, word)
}

} // verus!
