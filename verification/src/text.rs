//! White space, words and lines of a text.

use vstd::prelude::*;

verus! {

/// Whether `c` is white space as Unicode defines it (`White_Space`).
pub open spec fn is_space(c: char) -> bool {
    let n = c as u32;
    ||| 0x09 <= n <= 0x0D
    ||| n == 0x20
    ||| n == 0x85
    ||| n == 0xA0
    ||| n == 0x1680
    ||| 0x2000 <= n <= 0x200A
    ||| n == 0x2028
    ||| n == 0x2029
    ||| n == 0x202F
    ||| n == 0x205F
    ||| n == 0x3000
}

/// Whether `s` holds nothing but white space. The empty text is blank.
pub open spec fn is_blank(s: Seq<char>) -> bool {
    forall|i: int| 0 <= i < s.len() ==> is_space(#[trigger] s[i])
}

/// Whether `s` is one word: not empty, and free of white space.
pub open spec fn is_word(s: Seq<char>) -> bool {
    &&& s.len() > 0
    &&& forall|i: int| 0 <= i < s.len() ==> !is_space(#[trigger] s[i])
}

/// How many characters stand at the start of `s` before its first white
/// space, or before its end.
pub open spec fn word_len(s: Seq<char>) -> nat
    decreases s.len(),
{
    if s.len() > 0 && !is_space(s[0]) {
        1 + word_len(s.skip(1))
    } else {
        0
    }
}

/// The words of `s` in order: its maximal runs of characters that are not
/// white space.
pub open spec fn words(s: Seq<char>) -> Seq<Seq<char>>
    decreases s.len(),
    via words_decreases
{
    if s.len() == 0 {
        Seq::empty()
    } else if is_space(s[0]) {
        words(s.skip(1))
    } else {
        seq![s.take(word_len(s) as int)] + words(s.skip(word_len(s) as int))
    }
}

#[via_fn]
proof fn words_decreases(s: Seq<char>) {
    lemma_word_len_bounds(s);
}

/// How many characters stand at the start of `s` before its first line
/// feed, or before its end.
pub open spec fn line_len(s: Seq<char>) -> nat
    decreases s.len(),
{
    if s.len() > 0 && s[0] != '\n' {
        1 + line_len(s.skip(1))
    } else {
        0
    }
}

/// The lines of `s` in order. A line ends at a line feed, which is not part
/// of it, or at the end of `s`; after a final line feed no line follows. A
/// carriage return before the line feed stays in the line.
pub open spec fn lines(s: Seq<char>) -> Seq<Seq<char>>
    decreases s.len(),
    via lines_decreases
{
    if s.len() == 0 {
        Seq::empty()
    } else if line_len(s) == s.len() {
        seq![s]
    } else {
        seq![s.take(line_len(s) as int)] + lines(s.skip(line_len(s) as int + 1))
    }
}

#[via_fn]
proof fn lines_decreases(s: Seq<char>) {
    lemma_line_len_bounds(s);
}

/// The first word of a text ends inside the text, at white space or at the
/// end, and holds no white space.
pub proof fn lemma_word_len_bounds(s: Seq<char>)
    ensures
        word_len(s) <= s.len(),
        word_len(s) < s.len() ==> is_space(s[word_len(s) as int]),
        forall|i: int| 0 <= i < word_len(s) ==> !is_space(#[trigger] s[i]),
        s.len() > 0 && !is_space(s[0]) ==> word_len(s) > 0,
    decreases s.len(),
{
    if s.len() > 0 && !is_space(s[0]) {
        let t = s.skip(1);
        lemma_word_len_bounds(t);
        assert forall|i: int| 0 <= i < word_len(s) implies !is_space(#[trigger] s[i]) by {
            if i > 0 {
                assert(s[i] == t[i - 1]);
            }
        }
    }
}

/// The first line of a text ends inside the text, at a line feed or at the
/// end, and holds no line feed.
pub proof fn lemma_line_len_bounds(s: Seq<char>)
    ensures
        line_len(s) <= s.len(),
        line_len(s) < s.len() ==> s[line_len(s) as int] == '\n',
        forall|i: int| 0 <= i < line_len(s) ==> #[trigger] s[i] != '\n',
    decreases s.len(),
{
    if s.len() > 0 && s[0] != '\n' {
        let t = s.skip(1);
        lemma_line_len_bounds(t);
        assert forall|i: int| 0 <= i < line_len(s) implies #[trigger] s[i] != '\n' by {
            if i > 0 {
                assert(s[i] == t[i - 1]);
            }
        }
    }
}

/// The first word of two texts put together is that of the first text where
/// it ends there; else it runs on into the second.
pub proof fn lemma_word_len_concat(a: Seq<char>, b: Seq<char>)
    ensures
        word_len(a + b) == if word_len(a) < a.len() {
            word_len(a)
        } else {
            a.len() + word_len(b)
        },
    decreases a.len(),
{
    lemma_word_len_bounds(a);
    if a.len() == 0 {
        assert(a + b == b);
    } else {
        assert((a + b).skip(1) == a.skip(1) + b);
        lemma_word_len_bounds(a.skip(1));
        if !is_space(a[0]) {
            lemma_word_len_concat(a.skip(1), b);
        }
    }
}

/// The first line of two texts put together is that of the first text where
/// it ends there; else it runs on into the second.
pub proof fn lemma_line_len_concat(a: Seq<char>, b: Seq<char>)
    ensures
        line_len(a + b) == if line_len(a) < a.len() {
            line_len(a)
        } else {
            a.len() + line_len(b)
        },
    decreases a.len(),
{
    lemma_line_len_bounds(a);
    if a.len() == 0 {
        assert(a + b == b);
    } else {
        assert((a + b).skip(1) == a.skip(1) + b);
        lemma_line_len_bounds(a.skip(1));
        if a[0] != '\n' {
            lemma_line_len_concat(a.skip(1), b);
        }
    }
}

/// A word is its own first word, whole.
pub proof fn lemma_word_len_of_word(w: Seq<char>)
    requires
        is_word(w),
    ensures
        word_len(w) == w.len(),
{
    lemma_word_len_bounds(w);
}

/// Every word of a text is a word: not empty, and free of white space.
pub proof fn lemma_words_are_words(s: Seq<char>)
    ensures
        forall|i: int| 0 <= i < words(s).len() ==> is_word(#[trigger] words(s)[i]),
    decreases s.len(),
{
    if s.len() == 0 {
        assert(words(s).len() == 0);
    } else if is_space(s[0]) {
        lemma_words_are_words(s.skip(1));
        assert(words(s) == words(s.skip(1)));
    } else {
        lemma_word_len_bounds(s);
        let n = word_len(s) as int;
        lemma_words_are_words(s.skip(n));
        assert(is_word(s.take(n)));
        assert(words(s) == seq![s.take(n)] + words(s.skip(n)));
        assert forall|i: int| 0 <= i < words(s).len() implies is_word(#[trigger] words(s)[i]) by {
            if i > 0 {
                assert(words(s)[i] == words(s.skip(n))[i - 1]);
            } else {
                assert(words(s)[0] == s.take(n));
            }
        }
    }
}

/// Two words with a space between them are the two words of that text.
pub proof fn lemma_words_of_pair(a: Seq<char>, b: Seq<char>)
    requires
        is_word(a),
        is_word(b),
    ensures
        words(a + seq![' '] + b) == seq![a, b],
{
    let tail = seq![' '] + b;
    let s = a + tail;
    assert(s == a + seq![' '] + b);
    lemma_word_len_of_word(a);
    lemma_word_len_of_word(b);
    lemma_word_len_concat(a, tail);
    assert(word_len(tail) == 0);
    assert(s[0] == a[0]);
    assert(s.take(a.len() as int) == a);
    assert(s.skip(a.len() as int) == tail);
    assert(tail.skip(1) == b);
    assert(b.take(b.len() as int) == b);
    assert(b.skip(b.len() as int).len() == 0);
    assert(words(b) == seq![b] + words(b.skip(b.len() as int)));
    assert(words(tail) == words(b));
    assert(words(s) == seq![a] + words(tail));
}

/// White space at the end of a text changes none of its words.
pub proof fn lemma_words_ignore_trailing_space(s: Seq<char>, c: char)
    requires
        is_space(c),
    ensures
        words(s.push(c)) == words(s),
    decreases s.len(),
{
    let t = s.push(c);
    if s.len() == 0 {
        assert(t.skip(1).len() == 0);
        assert(words(t) == words(t.skip(1)));
    } else if is_space(s[0]) {
        assert(t.skip(1) == s.skip(1).push(c));
        lemma_words_ignore_trailing_space(s.skip(1), c);
    } else {
        let n = word_len(s) as int;
        lemma_word_len_bounds(s);
        assert(t == s + seq![c]);
        lemma_word_len_concat(s, seq![c]);
        assert(word_len(seq![c]) == 0);
        assert(t.take(n) == s.take(n));
        assert(t.skip(n) == s.skip(n).push(c));
        lemma_words_ignore_trailing_space(s.skip(n), c);
        assert(words(t) == seq![t.take(n)] + words(t.skip(n)));
    }
}

/// The lines of a text that ends in a line feed, followed by another text,
/// are the lines of the one and then the lines of the other.
pub proof fn lemma_lines_concat(a: Seq<char>, b: Seq<char>)
    ensures
        lines(a + seq!['\n'] + b) == lines(a + seq!['\n']) + lines(b),
    decreases a.len(),
{
    let nl = seq!['\n'];
    let s = a + nl + b;
    let t = a + nl;
    let n = line_len(a) as int;
    lemma_line_len_bounds(a);
    assert(s == a + (nl + b));
    lemma_line_len_concat(a, nl + b);
    lemma_line_len_concat(a, nl);
    assert(line_len(nl + b) == 0);
    assert(line_len(nl) == 0);
    assert(line_len(s) == n);
    assert(line_len(t) == n);
    assert(s.take(n) == a.take(n));
    assert(t.take(n) == a.take(n));
    assert(lines(s) == seq![s.take(n)] + lines(s.skip(n + 1)));
    assert(lines(t) == seq![t.take(n)] + lines(t.skip(n + 1)));
    if n == a.len() {
        assert(s.skip(n + 1) == b);
        assert(t.skip(n + 1).len() == 0);
        assert(lines(t.skip(n + 1)).len() == 0);
        assert(lines(t) == seq![t.take(n)]);
    } else {
        let rest = a.skip(n + 1);
        assert(s.skip(n + 1) == rest + nl + b);
        assert(t.skip(n + 1) == rest + nl);
        lemma_lines_concat(rest, b);
        assert(lines(s) == seq![a.take(n)] + (lines(rest + nl) + lines(b)));
        assert(seq![a.take(n)] + (lines(rest + nl) + lines(b)) == (seq![a.take(n)] + lines(
            rest + nl,
        )) + lines(b));
    }
}

/// A text without a line feed, followed by one, is one line.
pub proof fn lemma_lines_of_line(x: Seq<char>)
    requires
        forall|i: int| 0 <= i < x.len() ==> #[trigger] x[i] != '\n',
    ensures
        lines(x + seq!['\n']) == seq![x],
{
    let t = x + seq!['\n'];
    lemma_line_len_bounds(x);
    lemma_line_len_concat(x, seq!['\n']);
    assert(line_len(seq!['\n']) == 0);
    assert(t.take(x.len() as int) == x);
    assert(t.skip(x.len() as int + 1).len() == 0);
    assert(lines(t.skip(x.len() as int + 1)).len() == 0);
    assert(lines(t) == seq![t.take(x.len() as int)] + lines(t.skip(x.len() as int + 1)));
}

/// Tells whether `c` is white space.
pub fn is_whitespace(c: char) -> (space: bool)
    ensures
        space == is_space(c),
{
    let n: u32 = c as u32;
    (0x09 <= n && n <= 0x0D) || n == 0x20 || n == 0x85 || n == 0xA0 || n == 0x1680 || (0x2000 <= n
        && n <= 0x200A) || n == 0x2028 || n == 0x2029 || n == 0x202F || n == 0x205F || n == 0x3000
}

/// The characters of `s`, one by one.
pub fn to_chars(s: &str) -> (chars: Vec<char>)
    ensures
        chars@ == s@,
{
    let mut chars: Vec<char> = Vec::new();
    for c in it: s.chars()
        invariant
            it.seq() == s@,
            chars@ == it.seq().take(it.index() as int),
    {
        chars.push(c);
    }
    chars
}

/// The first index at or after `from` at which `s` holds no white space, or
/// the length of `s` where only white space follows.
pub(crate) fn skip_spaces(s: &[char], from: usize) -> (to: usize)
    requires
        from <= s.len(),
    ensures
        from <= to <= s.len(),
        to < s.len() ==> !is_space(s@[to as int]),
        is_blank(s@.subrange(from as int, to as int)),
        words(s@.skip(to as int)) == words(s@.skip(from as int)),
{
    let mut to: usize = from;
    while to < s.len() && is_whitespace(s[to])
        invariant
            from <= to <= s.len(),
            is_blank(s@.subrange(from as int, to as int)),
            words(s@.skip(to as int)) == words(s@.skip(from as int)),
        decreases s.len() - to,
    {
        assert(s@.skip(to as int).skip(1) == s@.skip(to as int + 1));
        assert forall|i: int| 0 <= i < to + 1 - from implies is_space(
            #[trigger] s@.subrange(from as int, to as int + 1)[i],
        ) by {
            if i < to - from {
                assert(s@.subrange(from as int, to as int)[i] == s@[from + i]);
            }
        }
        to = to + 1;
    }
    to
}

/// The index at which the word that starts at `from` ends: the first index
/// at or after `from` at which `s` holds white space, or the length of `s`.
pub(crate) fn word_end(s: &[char], from: usize) -> (to: usize)
    requires
        from <= s.len(),
    ensures
        to == from + word_len(s@.skip(from as int)),
        from <= to <= s.len(),
{
    let mut to: usize = from;
    while to < s.len() && !is_whitespace(s[to])
        invariant
            from <= to <= s.len(),
            to + word_len(s@.skip(to as int)) == from + word_len(s@.skip(from as int)),
        decreases s.len() - to,
    {
        assert(s@.skip(to as int).skip(1) == s@.skip(to as int + 1));
        to = to + 1;
    }
    to
}

/// The index at which the line that starts at `from` ends: the first index
/// at or after `from` at which `s` holds a line feed, or the length of `s`.
pub(crate) fn line_end(s: &[char], from: usize) -> (to: usize)
    requires
        from <= s.len(),
    ensures
        to == from + line_len(s@.skip(from as int)),
        from <= to <= s.len(),
{
    let mut to: usize = from;
    while to < s.len() && s[to] != '\n'
        invariant
            from <= to <= s.len(),
            to + line_len(s@.skip(to as int)) == from + line_len(s@.skip(from as int)),
        decreases s.len() - to,
    {
        assert(s@.skip(to as int).skip(1) == s@.skip(to as int + 1));
        to = to + 1;
    }
    to
}

/// Tells whether two runs of characters are the same.
pub(crate) fn same_chars(a: &[char], b: &[char]) -> (same: bool)
    ensures
        same == (a@ == b@),
{
    if a.len() != b.len() {
        return false;
    }
    let mut i: usize = 0;
    while i < a.len()
        invariant
            a.len() == b.len(),
            i <= a.len(),
            a@.take(i as int) == b@.take(i as int),
        decreases a.len() - i,
    {
        if a[i] != b[i] {
            return false;
        }
        assert(a@.take(i as int + 1) == a@.take(i as int).push(a@[i as int]));
        assert(b@.take(i as int + 1) == b@.take(i as int).push(b@[i as int]));
        i = i + 1;
    }
    assert(a@ == a@.take(a.len() as int));
    assert(b@ == b@.take(b.len() as int));
    true
}

/// Tells whether `s` is empty or holds nothing but white space.
pub fn is_blank_text(s: &str) -> (blank: bool)
    ensures
        blank == is_blank(s@),
{
    let chars = to_chars(s);
    let end = skip_spaces(chars.as_slice(), 0);
    proof {
        if end == chars.len() {
            assert(s@.subrange(0, end as int) == s@);
        }
    }
    end == chars.len()
}

} // verus!
