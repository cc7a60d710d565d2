//! The host file: which of its lines redirect a blocked domain, and the text
//! that blocking appends to it.

use crate::text::{line_end, lines, same_chars, skip_spaces, to_chars, word_end, words};
use vstd::prelude::*;
use vstd::slice::slice_subrange;
use vstd::string::StringExecFns;

verus! {

/// Where the host file lies.
pub const HOSTS_FILE: &'static str = "/etc/hosts";

/// Where the copy of the host file is kept while domains are blocked.
pub const HOSTS_BACKUP: &'static str = "/etc/hosts.backup";

/// The address that blocked domains are sent to.
pub const URL_TO_REDIRECT: &'static str = "127.0.0.1";

/// The line that precedes the appended entries.
pub const PLNK_MARKER: &'static str = "# plnk url blocking";

/// A line of the host file, as it is read.
pub enum HostsLine {
    /// A line of at least two words: the first is taken as an address and
    /// the second as the host that is sent there. Further words do not
    /// count.
    Redirect { address: Seq<char>, host: Seq<char> },
    /// Any other line, as it stands.
    Opaque { raw: Seq<char> },
}

impl HostsLine {
    /// How `line` is read.
    pub open spec fn parse(line: Seq<char>) -> HostsLine {
        let w = words(line);
        if w.len() >= 2 {
            HostsLine::Redirect { address: w[0], host: w[1] }
        } else {
            HostsLine::Opaque { raw: line }
        }
    }

    /// Whether the line sends one of `domains` to the loopback address. The
    /// address and the host are compared letter for letter: no case is
    /// folded and no dot at the end is dropped.
    pub open spec fn is_managed(self, domains: Seq<Seq<char>>) -> bool {
        match self {
            HostsLine::Redirect { address, host } => address == URL_TO_REDIRECT@
                && domains.contains(host),
            HostsLine::Opaque { .. } => false,
        }
    }
}

/// Whether `line` redirects one of `domains` to the loopback address: its
/// first word is the loopback address and its second word is one of the
/// domains.
pub open spec fn line_blocked(line: Seq<char>, domains: Seq<Seq<char>>) -> bool {
    HostsLine::parse(line).is_managed(domains)
}

/// Whether one of `lines` redirects one of `domains`.
pub open spec fn any_blocked(lines: Seq<Seq<char>>, domains: Seq<Seq<char>>) -> bool {
    exists|i: int| 0 <= i < lines.len() && #[trigger] line_blocked(lines[i], domains)
}

/// Whether a host file that reads `content` redirects one of `domains` in
/// any of its lines.
pub open spec fn content_blocked(content: Seq<char>, domains: Seq<Seq<char>>) -> bool {
    any_blocked(lines(content), domains)
}

/// The entry that redirects `domain`: the loopback address, a space, the
/// domain, and a line feed.
pub open spec fn entry(domain: Seq<char>) -> Seq<char> {
    URL_TO_REDIRECT@ + seq![' '] + domain + seq!['\n']
}

/// The entries of `domains`, one after the other, in the order given. A
/// domain that is named twice has two entries.
pub open spec fn entries(domains: Seq<Seq<char>>) -> Seq<char>
    decreases domains.len(),
{
    if domains.len() == 0 {
        Seq::empty()
    } else {
        entries(domains.drop_last()) + entry(domains.last())
    }
}

/// What blocking `domains` appends to the host file: an empty line, the
/// marker line, and the entries of the domains.
pub open spec fn block_text(domains: Seq<Seq<char>>) -> Seq<char> {
    seq!['\n'] + PLNK_MARKER@ + seq!['\n'] + entries(domains)
}

/// Among the lines of two texts put together, one is blocked where one of
/// either text is.
pub proof fn lemma_any_blocked_concat(
    a: Seq<Seq<char>>,
    b: Seq<Seq<char>>,
    domains: Seq<Seq<char>>,
)
    ensures
        any_blocked(a + b, domains) == (any_blocked(a, domains) || any_blocked(b, domains)),
{
    let ab = a + b;
    if any_blocked(a, domains) {
        let i = choose|i: int| 0 <= i < a.len() && #[trigger] line_blocked(a[i], domains);
        assert(ab[i] == a[i]);
    }
    if any_blocked(b, domains) {
        let i = choose|i: int| 0 <= i < b.len() && #[trigger] line_blocked(b[i], domains);
        assert(ab[a.len() + i] == b[i]);
    }
    if any_blocked(ab, domains) {
        let i = choose|i: int| 0 <= i < ab.len() && #[trigger] line_blocked(ab[i], domains);
        if i < a.len() {
            assert(ab[i] == a[i]);
        } else {
            assert(ab[i] == b[i - a.len()]);
        }
    }
}

/// The texts that `domains` spell.
spec fn texts(domains: Seq<Vec<char>>) -> Seq<Seq<char>> {
    Seq::new(domains.len(), |i: int| domains[i]@)
}

/// The characters of each domain.
fn domain_chars(domains: &[String]) -> (chars: Vec<Vec<char>>)
    ensures
        texts(chars@) == domains.deep_view(),
{
    let mut chars: Vec<Vec<char>> = Vec::new();
    let mut i: usize = 0;
    while i < domains.len()
        invariant
            i <= domains.len(),
            chars.len() == i,
            forall|k: int| 0 <= k < i ==> chars@[k]@ == domains@[k]@,
        decreases domains.len() - i,
    {
        chars.push(to_chars(domains[i].as_str()));
        i = i + 1;
    }
    assert(texts(chars@) =~= domains.deep_view());
    chars
}

/// Tells whether `word` is one of `domains`.
fn is_domain(word: &[char], domains: &Vec<Vec<char>>) -> (found: bool)
    ensures
        found == texts(domains@).contains(word@),
{
    let mut i: usize = 0;
    while i < domains.len()
        invariant
            i <= domains.len(),
            forall|k: int| 0 <= k < i ==> texts(domains@)[k] != word@,
        decreases domains.len() - i,
    {
        if same_chars(word, domains[i].as_slice()) {
            assert(texts(domains@)[i as int] == word@);
            return true;
        }
        i = i + 1;
    }
    false
}

/// Tells whether the line `line` redirects one of `domains`, where
/// `loopback` spells the loopback address.
fn chars_blocked(line: &[char], loopback: &[char], domains: &Vec<Vec<char>>) -> (blocked: bool)
    requires
        loopback@ == URL_TO_REDIRECT@,
    ensures
        blocked == line_blocked(line@, texts(domains@)),
{
    let ghost s = line@;
    let n = line.len();
    assert(s.skip(0) == s);
    let s0 = skip_spaces(line, 0);
    if s0 == n {
        return false;
    }
    let e0 = word_end(line, s0);
    let s1 = skip_spaces(line, e0);
    proof {
        let t = s.skip(s0 as int);
        assert(t.take(e0 - s0) == s.subrange(s0 as int, e0 as int));
        assert(t.skip(e0 - s0) == s.skip(e0 as int));
        assert(words(s) == seq![s.subrange(s0 as int, e0 as int)] + words(s.skip(s1 as int)));
    }
    if !same_chars(slice_subrange(line, s0, e0), loopback) {
        return false;
    }
    if s1 == n {
        return false;
    }
    let e1 = word_end(line, s1);
    proof {
        let t = s.skip(s1 as int);
        assert(t.take(e1 - s1) == s.subrange(s1 as int, e1 as int));
        assert(words(s)[1] == s.subrange(s1 as int, e1 as int));
    }
    is_domain(slice_subrange(line, s1, e1), domains)
}

/// Tells whether `line` is an entry that redirects one of `domains` to the
/// loopback address.
pub fn is_blocked_line(line: &str, domains: &[String]) -> (blocked: bool)
    ensures
        blocked == line_blocked(line@, domains.deep_view()),
{
    let chars = to_chars(line);
    let loopback = to_chars(URL_TO_REDIRECT);
    let wanted = domain_chars(domains);
    chars_blocked(chars.as_slice(), loopback.as_slice(), &wanted)
}

/// Tells whether a host file that reads `content` already redirects one of
/// `domains`. The lines are looked at in order, up to the first that does.
pub fn check_already_blocked(content: &str, domains: &[String]) -> (blocked: bool)
    ensures
        blocked == content_blocked(content@, domains.deep_view()),
{
    let chars = to_chars(content);
    let loopback = to_chars(URL_TO_REDIRECT);
    let wanted = domain_chars(domains);
    let n = chars.len();
    let mut start: usize = 0;
    assert(chars@.skip(0) == chars@);
    while start < n
        invariant
            n == chars.len(),
            start <= n,
            loopback@ == URL_TO_REDIRECT@,
            chars@ == content@,
            texts(wanted@) == domains.deep_view(),
            content_blocked(chars@, texts(wanted@)) == content_blocked(
                chars@.skip(start as int),
                texts(wanted@),
            ),
        decreases n - start,
    {
        let ghost rest = chars@.skip(start as int);
        let end = line_end(chars.as_slice(), start);
        let line = slice_subrange(chars.as_slice(), start, end);
        assert(rest.take(end - start) == line@);
        let blocked = chars_blocked(line, loopback.as_slice(), &wanted);
        if end == n {
            assert(rest.take(end - start) == rest);
            assert(lines(rest) == seq![line@]);
            assert(blocked ==> line_blocked(lines(rest)[0], texts(wanted@)));
            return blocked;
        }
        proof {
            assert(rest.skip(end - start + 1) == chars@.skip(end as int + 1));
            lemma_any_blocked_concat(
                seq![line@],
                lines(chars@.skip(end as int + 1)),
                texts(wanted@),
            );
            assert(blocked ==> line_blocked(seq![line@][0], texts(wanted@)));
        }
        if blocked {
            return true;
        }
        start = end + 1;
    }
    false
}

/// The text that blocking `domains` appends to the host file.
pub fn block_entries(domains: &[String]) -> (text: String)
    ensures
        text@ == block_text(domains.deep_view()),
{
    proof {
        reveal_strlit("\n");
        reveal_strlit(" ");
    }
    assert("\n"@ == seq!['\n']);
    assert(" "@ == seq![' ']);
    let mut text = String::from_str("\n");
    text.append(PLNK_MARKER);
    text.append("\n");
    let ghost wanted = domains.deep_view();
    let mut i: usize = 0;
    assert(wanted.take(0) == Seq::<Seq<char>>::empty());
    while i < domains.len()
        invariant
            i <= domains.len(),
            wanted == domains.deep_view(),
            "\n"@ == seq!['\n'],
            " "@ == seq![' '],
            text@ == block_text(wanted.take(i as int)),
        decreases domains.len() - i,
    {
        text.append(URL_TO_REDIRECT);
        text.append(" ");
        text.append(domains[i].as_str());
        text.append("\n");
        proof {
            let next = wanted.take(i as int + 1);
            assert(next.drop_last() == wanted.take(i as int));
            assert(next.last() == domains@[i as int]@);
            assert(text@ == block_text(next));
        }
        i = i + 1;
    }
    assert(wanted.take(i as int) == wanted);
    text
}

} // verus!
