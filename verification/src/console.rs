//! The serial console of a VM: what it has shown so far, and waiting for it to show
//! something.
//!
//! The format of the guest's prompt is not worth depending on. Every step of a test
//! ends in an `echo` of a marker, and it is the marker that is waited for.

use crate::error::{quoted, quoted_text, Error, ErrorView};
use crate::stream::{
    a_cut_stream_is_decodable, a_stream_may_be_continued, decodable, split_stream, undecoded,
};
use crate::text::{
    cat2, cat3, contains, contains_text, decimal, decimal_text, from_range, join, joined,
    lemma_without_parts, occurs_at, push_text, push_without, readable, readable_text, tail, tail_of,
    texts, without,
};
use vstd::prelude::*;
use vstd::utf8::{decode_utf8, valid_utf8};

verus! {

/// For how many nanoseconds the console is listened to at most before the clock is
/// looked at again.
pub const LISTEN_NS: u128 = 500_000_000;

/// What a console has shown.
#[derive(Debug)]
pub struct Console {
    buf: Vec<char>,
    pending: Vec<u8>,
    last_matched: String,
}

/// The contents of a [`Console`].
pub ghost struct ConsoleView {
    /// All that was shown, without carriage returns.
    pub buf: Seq<char>,
    /// The first bytes of a character whose rest has not come yet.
    pub pending: Seq<u8>,
    /// What was waited for last with success.
    pub last_matched: Seq<char>,
}

impl View for Console {
    type V = ConsoleView;

    closed spec fn view(&self) -> ConsoleView {
        ConsoleView {
            buf: self.buf@,
            pending: self.pending@,
            last_matched: self.last_matched@,
        }
    }
}

/// How a wait goes on.
#[derive(Debug)]
pub enum Wait {
    /// What was waited for is there.
    Matched,
    /// Listen for the nanoseconds given, and ask again.
    Listen(u128),
    /// The time is over.
    Expired(Error),
}

/// The contents of a [`Wait`].
pub ghost enum WaitView {
    Matched,
    Listen(u128),
    Expired(ErrorView),
}

impl View for Wait {
    type V = WaitView;

    open spec fn view(&self) -> WaitView {
        match *self {
            Wait::Matched => WaitView::Matched,
            Wait::Listen(ns) => WaitView::Listen(ns),
            Wait::Expired(e) => WaitView::Expired(e@),
        }
    }
}

/// The first of several texts that the console has shown.
pub open spec fn first_shown(buf: Seq<char>, patterns: Seq<Seq<char>>) -> Option<Seq<char>>
    decreases patterns.len(),
{
    if patterns.len() == 0 {
        None
    } else if contains_text(buf, patterns[0]) {
        Some(patterns[0])
    } else {
        first_shown(buf, patterns.drop_first())
    }
}

/// A list of texts as it is shown in messages.
pub open spec fn quoted_list(patterns: Seq<Seq<char>>) -> Seq<char> {
    "["@ + joined(patterns.map_values(|p: Seq<char>| quoted_text(p)), ", "@) + "]"@
}

/// A marker as it is shown in messages.
pub open spec fn quoted_marker(marker: Seq<char>) -> Seq<char> {
    "marker "@ + quoted_text(marker)
}

/// A marker as the only contents of a line.
pub open spec fn marker_line(marker: Seq<char>) -> Seq<char> {
    "\n"@ + marker + "\n"@
}

/// The shorter of two times.
pub open spec fn shorter(a: u128, b: u128) -> u128 {
    if a < b {
        a
    } else {
        b
    }
}

/// A number of seconds as it is shown in messages.
pub open spec fn duration_text(seconds: u64) -> Seq<char> {
    if seconds == 0 {
        "0ns"@
    } else {
        decimal(seconds as nat) + "s"@
    }
}

/// A console that has shown nothing.
pub open spec fn new_console() -> ConsoleView {
    ConsoleView { buf: Seq::empty(), pending: Seq::empty(), last_matched: Seq::empty() }
}

impl ConsoleView {
    /// The console after it showed `text`.
    pub open spec fn shown(self, text: Seq<char>) -> ConsoleView {
        ConsoleView { buf: self.buf + without(text, '\r'), ..self }
    }

    /// The console after it showed the bytes `chunk`: all characters that are complete
    /// by now are shown, and the bytes of one that is not are kept.
    pub open spec fn received(self, chunk: Seq<u8>) -> ConsoleView {
        let bytes = self.pending + chunk;
        ConsoleView {
            pending: undecoded(bytes),
            ..self.shown(readable_text(decodable(bytes)))
        }
    }

    /// The last 20 lines that were shown, with a replacement character for one that is
    /// not complete.
    pub open spec fn last_output(self) -> Seq<char> {
        tail_of(self.buf + readable_text(self.pending), 20)
    }

    pub open spec fn closed_error(self, what: Seq<char>) -> ErrorView {
        ErrorView::closed(what, self.last_output())
    }

    /// What comes of a wait for `what` that has `remaining` of its `timeout` left,
    /// where `found` is there.
    pub open spec fn wait(
        self,
        remaining: u128,
        timeout: u64,
        what: Seq<char>,
        found: Option<Seq<char>>,
    ) -> (ConsoleView, WaitView) {
        match found {
            Some(text) => (ConsoleView { last_matched: text, ..self }, WaitView::Matched),
            None => if remaining == 0 {
                (
                    self,
                    WaitView::Expired(
                        ErrorView::timed_out(duration_text(timeout), what, self.last_output()),
                    ),
                )
            } else {
                (self, WaitView::Listen(shorter(remaining, LISTEN_NS)))
            },
        }
    }

    /// What comes of a wait for one of `patterns` to be shown anywhere.
    pub open spec fn expect(
        self,
        remaining: u128,
        timeout: u64,
        patterns: Seq<Seq<char>>,
    ) -> (ConsoleView, WaitView) {
        self.wait(remaining, timeout, quoted_list(patterns), first_shown(self.buf, patterns))
    }

    /// What comes of a wait for `marker` to be shown on a line of its own.
    pub open spec fn expect_marker(self, remaining: u128, timeout: u64, marker: Seq<char>) -> (
        ConsoleView,
        WaitView,
    ) {
        self.wait(
            remaining,
            timeout,
            quoted_marker(marker),
            if contains_text(self.buf, marker_line(marker)) {
                Some(marker)
            } else {
                None
            },
        )
    }
}

/// A list of texts as it is shown in messages.
fn show_list(patterns: &Vec<String>) -> (r: String)
    ensures
        r@ == quoted_list(texts(patterns@)),
{
    let n: usize = patterns.len();
    let mut list: Vec<String> = Vec::new();
    let ghost all = texts(patterns@).map_values(|p: Seq<char>| quoted_text(p));
    assert(texts(list@) =~= Seq::<Seq<char>>::empty());
    for i in 0..n
        invariant
            n == patterns@.len(),
            all == texts(patterns@).map_values(|p: Seq<char>| quoted_text(p)),
            texts(list@) =~= all.take(i as int),
    {
        let q = quoted(patterns[i].as_str());
        push_text(&mut list, q.as_str());
    }
    assert(texts(list@).skip(0) =~= all);
    cat3("[", join(&list, 0, ", ").as_str(), "]")
}

/// A number of seconds as it is shown in messages.
fn show_duration(seconds: u64) -> (r: String)
    ensures
        r@ == duration_text(seconds),
{
    if seconds == 0 {
        "0ns".to_owned()
    } else {
        cat2(decimal_text(seconds).as_str(), "s")
    }
}

impl Console {
    /// A console that has shown nothing.
    pub fn new() -> (r: Console)
        ensures
            r@ == new_console(),
    {
        Console { buf: Vec::new(), pending: Vec::new(), last_matched: String::new() }
    }

    /// Takes in text that the console shows.
    pub fn show(&mut self, text: &str)
        ensures
            final(self)@ == old(self)@.shown(text@),
    {
        push_without(&mut self.buf, text, '\r');
    }

    /// Takes in bytes that the console shows.
    pub fn receive(&mut self, chunk: &Vec<u8>)
        ensures
            final(self)@ == old(self)@.received(chunk@),
            old(self)@.pending.len() == 0 && valid_utf8(chunk@) ==> {
                final(self)@ == old(self)@.shown(decode_utf8(chunk@))
            },
    {
        let n: usize = chunk.len();
        let mut bytes: Vec<u8> = Vec::new();
        bytes.append(&mut self.pending);
        for i in 0..n
            invariant
                n == chunk@.len(),
                bytes@ == old(self)@.pending + chunk@.take(i as int),
                self@ == (ConsoleView { pending: Seq::empty(), ..old(self)@ }),
        {
            bytes.push(chunk[i]);
        }
        assert(bytes@ =~= old(self)@.pending + chunk@);
        let (ready, rest) = split_stream(&bytes);
        self.pending = rest;
        let text = readable(&ready);
        self.show(text.as_str());
        proof {
            if old(self)@.pending.len() == 0 && valid_utf8(chunk@) {
                assert(bytes@ =~= chunk@);
                assert(chunk@.take(chunk@.len() as int) =~= chunk@);
                a_cut_stream_is_decodable(chunk@, chunk@.len() as int);
                assert(undecoded(chunk@) =~= Seq::<u8>::empty());
                assert(old(self)@.pending =~= Seq::<u8>::empty());
            }
        }
    }

    /// The last 20 lines that were shown.
    fn last_output(&self) -> (r: String)
        ensures
            r@ == self@.last_output(),
    {
        let all = from_range(&self.buf, 0, self.buf.len());
        assert(all@ =~= self.buf@);
        let rest = readable(&self.pending);
        tail(cat2(all.as_str(), rest.as_str()).as_str(), 20)
    }

    /// Ends or continues a wait for something that is not there.
    fn keep_waiting(&self, remaining: u128, timeout: u64, what: &str) -> (r: Wait)
        ensures
            (self@, r@) == self@.wait(remaining, timeout, what@, None),
    {
        if remaining == 0 {
            let time = show_duration(timeout);
            Wait::Expired(Error::timed_out(time.as_str(), what, self.last_output().as_str()))
        } else if remaining < LISTEN_NS {
            Wait::Listen(remaining)
        } else {
            Wait::Listen(LISTEN_NS)
        }
    }

    /// Waits until one of `patterns` has been shown: `remaining` nanoseconds are left
    /// of the `timeout` seconds that it may take.
    pub fn expect(&mut self, remaining: u128, timeout: u64, patterns: &Vec<String>) -> (r: Wait)
        ensures
            (final(self)@, r@) == old(self)@.expect(remaining, timeout, texts(patterns@)),
    {
        let n: usize = patterns.len();
        let ghost all = texts(patterns@);
        assert(all.skip(0) =~= all);
        for i in 0..n
            invariant
                n == patterns@.len(),
                all == texts(patterns@),
                self@ == old(self)@,
                first_shown(self@.buf, all.skip(i as int)) == first_shown(self@.buf, all),
        {
            assert(all.skip(i as int)[0] == patterns@[i as int]@);
            assert(all.skip(i as int).drop_first() =~= all.skip(i + 1));
            if contains(&self.buf, patterns[i].as_str()) {
                self.last_matched = patterns[i].clone();
                return Wait::Matched;
            }
        }
        assert(all.skip(n as int) =~= Seq::<Seq<char>>::empty());
        self.keep_waiting(remaining, timeout, show_list(patterns).as_str())
    }

    /// Waits until `marker` has been shown on a line of its own. That it was shown
    /// at all is not enough: the console echoes what is typed, and the marker is part
    /// of it.
    pub fn expect_marker(&mut self, remaining: u128, timeout: u64, marker: &str) -> (r: Wait)
        ensures
            (final(self)@, r@) == old(self)@.expect_marker(remaining, timeout, marker@),
    {
        let needle = cat3("\n", marker, "\n");
        if contains(&self.buf, needle.as_str()) {
            self.last_matched = marker.to_owned();
            return Wait::Matched;
        }
        self.keep_waiting(remaining, timeout, cat2("marker ", quoted(marker).as_str()).as_str())
    }

    /// The error of a console that closed while one of `patterns` was waited for.
    pub fn closed(&self, patterns: &Vec<String>) -> (r: Error)
        ensures
            r@ == self@.closed_error(quoted_list(texts(patterns@))),
    {
        Error::closed(show_list(patterns).as_str(), self.last_output().as_str())
    }

    /// The error of a console that closed while `marker` was waited for.
    pub fn closed_before_marker(&self, marker: &str) -> (r: Error)
        ensures
            r@ == self@.closed_error(quoted_marker(marker@)),
    {
        let what = cat2("marker ", quoted(marker).as_str());
        Error::closed(what.as_str(), self.last_output().as_str())
    }
}

/// What has been shown stays shown, whatever is shown behind it.
pub proof fn shown_text_stays_shown(buf: Seq<char>, more: Seq<char>, needle: Seq<char>)
    requires
        contains_text(buf, needle),
    ensures
        contains_text(buf + more, needle),
{
    let i = choose|i: int| occurs_at(buf, needle, i);
    assert((buf + more).subrange(i, i + needle.len()) =~= buf.subrange(i, i + needle.len()));
    assert(occurs_at(buf + more, needle, i));
}

/// The console `c` after it showed the chunks given.
pub open spec fn console_after(c: ConsoleView, chunks: Seq<Seq<u8>>) -> ConsoleView
    decreases chunks.len(),
{
    if chunks.len() == 0 {
        c
    } else {
        console_after(c, chunks.drop_last()).received(chunks.last())
    }
}

/// All bytes of the chunks given.
pub open spec fn all_bytes(chunks: Seq<Seq<u8>>) -> Seq<u8>
    decreases chunks.len(),
{
    if chunks.len() == 0 {
        Seq::empty()
    } else {
        all_bytes(chunks.drop_last()) + chunks.last()
    }
}

/// Where a console shows UTF-8, then at every moment all complete characters have been
/// shown, and the bytes of one that is not complete wait for its rest, no matter how
/// the bytes are cut into chunks.
pub proof fn no_character_is_lost_between_chunks(whole: Seq<u8>, chunks: Seq<Seq<u8>>)
    requires
        valid_utf8(whole),
        all_bytes(chunks).is_prefix_of(whole),
    ensures
        ({
            let bytes = all_bytes(chunks);
            let c = console_after(new_console(), chunks);
            &&& valid_utf8(decodable(bytes))
            &&& c.buf == without(decode_utf8(decodable(bytes)), '\r')
            &&& c.pending == undecoded(bytes)
            &&& bytes == whole ==> c.buf == without(decode_utf8(whole), '\r')
        }),
    decreases chunks.len(),
{
    let bytes = all_bytes(chunks);
    let c = console_after(new_console(), chunks);
    if chunks.len() == 0 {
        assert(decodable(bytes) =~= Seq::<u8>::empty());
        assert(undecoded(bytes) =~= Seq::<u8>::empty());
        assert(c.buf =~= without(decode_utf8(decodable(bytes)), '\r'));
    } else {
        let less = chunks.drop_last();
        let before = all_bytes(less);
        let chunk = chunks.last();
        assert(before.is_prefix_of(whole)) by {
            assert forall|i: int| 0 <= i < before.len() implies before[i] == whole[i] by {
                assert(before[i] == bytes[i]);
            }
        }
        no_character_is_lost_between_chunks(whole, less);
        a_stream_may_be_continued(whole, before, chunk);
        lemma_without_parts(
            decode_utf8(decodable(before)),
            decode_utf8(decodable(undecoded(before) + chunk)),
            '\r',
        );
    }
    if bytes == whole {
        assert(whole.take(whole.len() as int) =~= whole);
        a_cut_stream_is_decodable(whole, whole.len() as int);
    }
}

/// The echo of a typed line is never taken for the marker that the line will print:
/// between two line feeds stands the prompt with the line, and that is longer than
/// the marker which it ends in.
pub proof fn an_echoed_line_is_no_marker(prompt: Seq<char>, typed: Seq<char>, marker: Seq<char>)
    requires
        !prompt.contains('\n'),
        !typed.contains('\n'),
        marker.is_suffix_of(typed),
        marker.len() < typed.len(),
    ensures
        !contains_text("\n"@ + prompt + typed + "\n"@, marker_line(marker)),
{
    reveal_strlit("\n");
    let line = prompt + typed;
    let text = "\n"@ + prompt + typed + "\n"@;
    let needle = marker_line(marker);
    assert(text =~= "\n"@ + line + "\n"@);
    assert forall|i: int| !occurs_at(text, needle, i) by {
        if occurs_at(text, needle, i) {
            let found = text.subrange(i, i + needle.len());
            assert(found[0] == '\n');
            assert(found[needle.len() - 1] == '\n');
            assert(text[i] == '\n');
            assert(text[i + needle.len() - 1] == '\n');
            assert forall|k: int| 0 < k < text.len() - 1 implies text[k] != '\n' by {
                if k - 1 < prompt.len() {
                    assert(text[k] == prompt[k - 1]);
                } else {
                    assert(text[k] == typed[k - 1 - prompt.len()]);
                }
            }
        }
    }
}

} // verus!
