//! What holds of blocking and unblocking, whatever the files and the domains.

use crate::engine::{ActionView, EngineView, EventView, Stage, StepView};
use crate::error::PlnkError;
use crate::files::FilesView;
use crate::hosts::{
    block_text, content_blocked, entries, entry, lemma_any_blocked_concat,
    line_blocked, PLNK_MARKER, URL_TO_REDIRECT,
};
use crate::text::{
    is_space, is_word, lemma_lines_concat, lemma_lines_of_line, lemma_words_are_words,
    lemma_words_ignore_trailing_space, lemma_words_of_pair, lines, words,
};
use vstd::prelude::*;

verus! {

/// Whether one of `domains` is a single word: not empty, and free of white
/// space. Only such a domain can stand as the second word of a line.
pub open spec fn has_word(domains: Seq<Seq<char>>) -> bool {
    exists|k: int| 0 <= k < domains.len() && is_word(#[trigger] domains[k])
}

/// The loopback address is a single word.
pub proof fn lemma_loopback_is_word()
    ensures
        is_word(URL_TO_REDIRECT@),
{
    reveal_strlit("127.0.0.1");
}

/// The entry of a domain that is a single word is a line that redirects it.
pub proof fn lemma_entry_redirects(domain: Seq<char>, domains: Seq<Seq<char>>)
    requires
        is_word(domain),
        domains.contains(domain),
    ensures
        lines(entry(domain)) == seq![URL_TO_REDIRECT@ + seq![' '] + domain],
        line_blocked(URL_TO_REDIRECT@ + seq![' '] + domain, domains),
{
    let line = URL_TO_REDIRECT@ + seq![' '] + domain;
    lemma_loopback_is_word();
    lemma_words_of_pair(URL_TO_REDIRECT@, domain);
    assert forall|i: int| 0 <= i < line.len() implies #[trigger] line[i] != '\n' by {
        if i < URL_TO_REDIRECT@.len() {
            assert(line[i] == URL_TO_REDIRECT@[i]);
        } else if i > URL_TO_REDIRECT@.len() {
            assert(line[i] == domain[i - URL_TO_REDIRECT@.len() - 1]);
        }
    }
    lemma_lines_of_line(line);
}

/// The entries of a list of domains are those of its first `k` and then
/// those of the rest.
pub proof fn lemma_entries_split(domains: Seq<Seq<char>>, k: int)
    requires
        0 <= k <= domains.len(),
    ensures
        entries(domains) == entries(domains.take(k)) + entries(domains.skip(k)),
    decreases domains.len(),
{
    if k == domains.len() {
        assert(domains.take(k) == domains);
        assert(domains.skip(k).len() == 0);
    } else {
        let front = domains.drop_last();
        lemma_entries_split(front, k);
        assert(front.take(k) == domains.take(k));
        assert(front.skip(k) == domains.skip(k).drop_last());
        assert(domains.skip(k).last() == domains.last());
    }
}

/// A text that ends in a line feed, followed by the entries of some domains,
/// has a line that redirects one of `wanted` where one of those domains is a
/// single word and stands among `wanted`.
pub proof fn lemma_entries_block(
    before: Seq<char>,
    domains: Seq<Seq<char>>,
    wanted: Seq<Seq<char>>,
    k: int,
)
    requires
        0 <= k < domains.len(),
        is_word(domains[k]),
        wanted.contains(domains[k]),
    ensures
        content_blocked(before + seq!['\n'] + entries(domains), wanted),
{
    let nl = seq!['\n'];
    let line = URL_TO_REDIRECT@ + seq![' '] + domains[k];
    let front = domains.take(k);
    let back = domains.skip(k + 1);
    lemma_entries_split(domains, k);
    lemma_entries_split(domains.skip(k), 1);
    assert(domains.skip(k).take(1) == seq![domains[k]]);
    assert(domains.skip(k).skip(1) == back);
    assert(seq![domains[k]].drop_last().len() == 0);
    assert(entries(seq![domains[k]]) == entries(seq![domains[k]].drop_last()) + entry(
        seq![domains[k]].last(),
    ));
    assert(entries(seq![domains[k]]) == entry(domains[k]));
    lemma_entry_redirects(domains[k], wanted);
    // The text is a head that ends in a line feed, the line, a line feed, and a tail.
    let head = before + nl + entries(front);
    lemma_ends_in_line_feed(before, front);
    let stem = head.drop_last();
    assert(head == stem + nl);
    let tail = entries(back);
    let text = before + nl + entries(domains);
    assert(text == stem + nl + (line + nl + tail));
    lemma_lines_concat(stem, line + nl + tail);
    lemma_lines_concat(line, tail);
    lemma_any_blocked_concat(lines(stem + nl), lines(line + nl + tail), wanted);
    lemma_any_blocked_concat(lines(line + nl), lines(tail), wanted);
    assert(line_blocked(lines(line + nl)[0], wanted));
}

/// A text that ends in a line feed still does so after entries are put
/// behind it.
pub proof fn lemma_ends_in_line_feed(before: Seq<char>, domains: Seq<Seq<char>>)
    ensures
        (before + seq!['\n'] + entries(domains)).len() > 0,
        (before + seq!['\n'] + entries(domains)).last() == '\n',
{
    if domains.len() > 0 {
        assert(entries(domains) == entries(domains.drop_last()) + entry(domains.last()));
    }
}

/// A carriage return at the end of a line changes nothing about what the
/// line redirects: a host file whose lines end in a carriage return and a
/// line feed is read like one whose lines end in a line feed.
pub proof fn law_carriage_return_ignored(line: Seq<char>, domains: Seq<Seq<char>>)
    ensures
        line_blocked(line.push('\r'), domains) == line_blocked(line, domains),
{
    lemma_words_ignore_trailing_space(line, '\r');
}

/// A host file can redirect one of `domains` only where one of them is a
/// single word.
pub proof fn law_blocked_needs_word(content: Seq<char>, domains: Seq<Seq<char>>)
    requires
        content_blocked(content, domains),
    ensures
        has_word(domains),
{
    let all = lines(content);
    let i = choose|i: int| 0 <= i < all.len() && #[trigger] line_blocked(all[i], domains);
    let host = words(all[i])[1];
    lemma_words_are_words(all[i]);
    let k = choose|k: int| 0 <= k < domains.len() && domains[k] == host;
    assert(is_word(domains[k]));
}

/// Once domains are blocked, the host file redirects one of them: blocking
/// succeeds on a host file that redirects none of the domains, and a look at
/// the host file that it leaves finds them blocked. This holds where one of
/// the domains is a single word, and for no other list of domains.
pub proof fn law_block_then_blocked(files: FilesView, domains: Seq<Seq<char>>)
    requires
        domains.len() > 0,
        !content_blocked(files.hosts, domains),
        has_word(domains),
    ensures
        files.blocked(domains).1 is Ok,
        content_blocked(files.blocked(domains).0.hosts, domains),
{
    let k = choose|k: int| 0 <= k < domains.len() && is_word(#[trigger] domains[k]);
    let before = files.hosts + seq!['\n'] + PLNK_MARKER@;
    lemma_entries_block(before, domains, domains, k);
    assert(files.hosts + block_text(domains) == before + seq!['\n'] + entries(domains));
}

/// Blocking the same domains a second time is refused as already done, and
/// changes nothing. This holds where one of the domains is a single word.
pub proof fn law_second_block_refused(files: FilesView, domains: Seq<Seq<char>>)
    requires
        domains.len() > 0,
        !content_blocked(files.hosts, domains),
        has_word(domains),
    ensures
        files.blocked(domains).0.blocked(domains) == (
            files.blocked(domains).0,
            Err::<(), PlnkError>(PlnkError::AlreadyBlocked),
        ),
{
    law_block_then_blocked(files, domains);
}

/// Unblocking after blocking gives the host file back as it was, and leaves
/// no backup, whatever backup there was before.
pub proof fn law_round_trip(files: FilesView, domains: Seq<Seq<char>>)
    requires
        domains.len() > 0,
        !content_blocked(files.hosts, domains),
    ensures
        files.blocked(domains).1 is Ok,
        files.blocked(domains).0.restored() == (
            FilesView { hosts: files.hosts, backup: None },
            Ok::<(), PlnkError>(()),
        ),
{
}

/// An action that fails ends the operation at once, with a failure: nothing
/// is tried again, and nothing more is asked for.
pub proof fn law_failure_is_final(engine: EngineView)
    ensures
        engine.next(EventView::Failed) matches StepView::Finish(result) && result is Err,
{
}

/// Entries are appended only after the copy of the host file was written:
/// where the copy fails, the host file is left as it was.
pub proof fn law_append_follows_backup(engine: EngineView, event: EventView)
    requires
        engine.next(event) matches StepView::Ask(_, action) && action is AppendHosts,
    ensures
        engine.stage == Stage::Save,
        event == EventView::Done,
{
}

/// The backup is moved onto the host file only after it was found.
pub proof fn law_restore_follows_probe(engine: EngineView, event: EventView)
    requires
        engine.next(event) matches StepView::Ask(_, action) && action is RestoreBackup,
    ensures
        engine.stage == Stage::Probe,
        event == EventView::Found(true),
{
}

/// Every event brings an operation closer to its end.
pub proof fn law_operations_end(engine: EngineView, action: ActionView, event: EventView)
    ensures
        engine.next(event).actions_left() < StepView::Ask(engine, action).actions_left(),
{
}

} // verus!
