//! What a session on the console of a VM does about what it is shown.

use crate::console::{
    duration_text, first_shown, quoted_list, quoted_marker, ConsoleView, WaitView,
};
use crate::error::{quoted_text, ErrorView};
use crate::host::{ActionView, Reply, StepView};
use crate::session::{
    new_session, session_step, verdict_of, DirectiveView, Happening, Mark, SessionView, Stage,
};
use crate::stream::{bytes_at, contains_bytes};
use crate::text::{decimal, readable_text, tail_of};
use crate::text_laws::containing_is_standing_between;
use crate::vm::{new_vm, outcome, VmStage, VmView};
use vstd::prelude::*;
use vstd::utf8::encode_utf8;

verus! {

/// Whether a text stands somewhere in what was shown.
pub open spec fn shows(buf: Seq<char>, text: Seq<char>) -> bool {
    exists|a: Seq<char>, b: Seq<char>| buf == #[trigger] (a + text + b)
}

/// Whether a text was shown as the only contents of a line.
pub open spec fn shows_line(buf: Seq<char>, text: Seq<char>) -> bool {
    shows(buf, seq!['\n'] + text + seq!['\n'])
}

/// The time for which to listen when so much is left: half a second at most.
pub open spec fn listening(remaining: u128) -> u128 {
    if remaining < 500_000_000 {
        remaining
    } else {
        500_000_000
    }
}

/// The error of a wait of so many seconds for `what` that was in vain: it says how long it
/// was and gives the last 20 lines that the console showed.
pub open spec fn in_vain(c: ConsoleView, seconds: u64, what: Seq<char>) -> ErrorView {
    ErrorView::timed_out(
        if seconds == 0 {
            "0ns"@
        } else {
            decimal(seconds as nat) + "s"@
        },
        what,
        tail_of(c.buf + readable_text(c.pending), 20),
    )
}

/// A wait for several texts ends as soon as one of them is shown, with the first of them in
/// the order given; it ends in vain when the time is over, and goes on till then.
pub proof fn a_wait_ends_when_one_text_is_shown(
    c: ConsoleView,
    remaining: u128,
    timeout: u64,
    before: Seq<Seq<char>>,
    text: Seq<char>,
    behind: Seq<Seq<char>>,
)
    requires
        forall|i: int| 0 <= i < before.len() ==> !shows(c.buf, #[trigger] before[i]),
    ensures
        ({
            let all = before + seq![text] + behind;
            let (after, wait) = c.expect(remaining, timeout, all);
            let (same, none) = c.expect(remaining, timeout, before);
            &&& shows(c.buf, text) ==> wait == WaitView::Matched && after == ConsoleView {
                last_matched: text,
                ..c
            }
            &&& same == c
            &&& remaining == 0 ==> none == WaitView::Expired(
                in_vain(c, timeout, quoted_list(before)),
            )
            &&& remaining > 0 ==> none == WaitView::Listen(listening(remaining))
        }),
{
    lemma_first_shown(c.buf, before, text, behind);
}

proof fn lemma_first_shown(
    buf: Seq<char>,
    before: Seq<Seq<char>>,
    text: Seq<char>,
    behind: Seq<Seq<char>>,
)
    requires
        forall|i: int| 0 <= i < before.len() ==> !shows(buf, #[trigger] before[i]),
    ensures
        shows(buf, text) ==> first_shown(buf, before + seq![text] + behind) == Some(text),
        first_shown(buf, before) is None,
    decreases before.len(),
{
    let all = before + seq![text] + behind;
    if before.len() == 0 {
        containing_is_standing_between(buf, text);
        assert(all[0] == text);
    } else {
        containing_is_standing_between(buf, before[0]);
        assert(!shows(buf, before[0]));
        assert(all[0] == before[0]);
        let rest = before.drop_first();
        assert forall|i: int| 0 <= i < rest.len() implies !shows(buf, #[trigger] rest[i]) by {
            assert(rest[i] == before[i + 1]);
        }
        lemma_first_shown(buf, rest, text, behind);
        assert(all.drop_first() =~= rest + seq![text] + behind);
    }
}

/// A wait for a marker ends when that is shown on a line of its own.
pub proof fn a_marker_counts_on_its_own_line(
    c: ConsoleView,
    remaining: u128,
    timeout: u64,
    marker: Seq<char>,
)
    ensures
        ({
            let (after, wait) = c.expect_marker(remaining, timeout, marker);
            &&& shows_line(c.buf, marker) ==> wait == WaitView::Matched && after == ConsoleView {
                last_matched: marker,
                ..c
            }
            &&& !shows_line(c.buf, marker) ==> after == c
            &&& !shows_line(c.buf, marker) && remaining == 0 ==> wait == WaitView::Expired(
                in_vain(c, timeout, "marker "@ + quoted_text(marker)),
            )
            &&& !shows_line(c.buf, marker) && remaining > 0 ==> wait == WaitView::Listen(
                listening(remaining),
            )
        }),
{
    reveal_strlit("\n");
    assert("\n"@ =~= seq!['\n']);
    containing_is_standing_between(c.buf, seq!['\n'] + marker + seq!['\n']);
}

/// The text of a marker.
pub open spec fn text_of(mark: Mark) -> Seq<char> {
    match mark {
        Mark::Booted => "KBUILD_MARK_BOOTED"@,
        Mark::Mounted => "KBUILD_MARK_MOUNTED"@,
        Mark::Loaded => "KBUILD_MARK_LOADED"@,
        Mark::Present => "KBUILD_MARK_PRESENT"@,
        Mark::Unloaded => "KBUILD_MARK_UNLOADED"@,
    }
}

/// What is typed once a marker was shown, and what is waited for then.
pub open spec fn line_behind(mark: Mark, ko_name: Seq<char>, module_name: Seq<char>) -> (
    Stage,
    Seq<char>,
) {
    match mark {
        Mark::Booted => (
            Stage::Mark(Mark::Mounted),
            "mount -t cd9660 /dev/cd0 /mnt"@ + " && echo "@ + "KBUILD_MARK_MOUNTED"@,
        ),
        Mark::Mounted => (
            Stage::Mark(Mark::Loaded),
            "kldload /mnt/"@ + ko_name + " && echo "@ + "KBUILD_MARK_LOADED"@,
        ),
        Mark::Loaded => (
            Stage::Mark(Mark::Present),
            "kldstat -n "@ + module_name + " >/dev/null && echo "@ + "KBUILD_MARK_PRESENT"@,
        ),
        Mark::Present => (
            Stage::Mark(Mark::Unloaded),
            "kldunload "@ + module_name + " && echo "@ + "KBUILD_MARK_UNLOADED"@,
        ),
        Mark::Unloaded => (Stage::Over, "poweroff"@),
    }
}

/// A session types its next line when the console has shown what it waits for, and not
/// before: the name at the login prompt, an empty password where one is asked for, and each
/// command behind the marker of the one before. It listens as long as there is time, and
/// fails when that is over, but for the password prompt, which need not come.
pub proof fn a_session_goes_on_when_it_is_shown_what_it_waits_for(
    s: SessionView,
    remaining: u128,
)
    ensures
        ({
            let (after, directive) = session_step(s, Happening::Polled(remaining));
            let echo = "echo "@ + "KBUILD_MARK_BOOTED"@;
            let listen = Some(DirectiveView::Listen(listening(remaining)));
            &&& s.stage == Stage::Login ==> if shows(s.console.buf, "login:"@) {
                directive == Some(DirectiveView::Send("root"@)) && after.stage == Stage::Password
            } else if remaining > 0 {
                directive == listen && after == s
            } else {
                directive == Some(
                    DirectiveView::Finish(
                        Some(in_vain(s.console, s.step_timeout, quoted_list(seq!["login:"@]))),
                    ),
                )
            }
            &&& s.stage == Stage::Password ==> if shows(s.console.buf, "Password:"@) {
                directive == Some(DirectiveView::Send(""@)) && after.stage == Stage::LoggedIn
            } else if remaining > 0 {
                directive == listen && after == s
            } else {
                directive == Some(DirectiveView::Send(echo)) && after.stage == Stage::Mark(
                    Mark::Booted,
                )
            }
            &&& s.stage == Stage::LoggedIn ==> directive == Some(DirectiveView::Send(echo))
                && after.stage == Stage::Mark(Mark::Booted)
            &&& s.stage matches Stage::Mark(mark) ==> if shows_line(
                s.console.buf,
                text_of(mark),
            ) {
                let (stage, line) = line_behind(mark, s.ko_name, s.module_name);
                directive == Some(DirectiveView::Send(line)) && after.stage == stage
            } else if remaining > 0 {
                directive == listen && after == s
            } else {
                directive == Some(
                    DirectiveView::Finish(
                        Some(
                            in_vain(
                                s.console,
                                s.step_timeout,
                                "marker "@ + quoted_text(text_of(mark)),
                            ),
                        ),
                    ),
                )
            }
            &&& s.stage == Stage::Over ==> directive == Some(DirectiveView::Finish(None))
            &&& after.console.buf == s.console.buf
            &&& after.console.pending == s.console.pending
            &&& after.ko_name == s.ko_name
            &&& after.module_name == s.module_name
            &&& after.step_timeout == s.step_timeout
        }),
{
    let c = s.console;
    match s.stage {
        Stage::Login => {
            lemma_wait_for(c, remaining, s.timeout(), "login:"@);
        },
        Stage::Password => {
            lemma_wait_for(c, remaining, s.timeout(), "Password:"@);
        },
        Stage::Mark(mark) => {
            a_marker_counts_on_its_own_line(c, remaining, s.timeout(), text_of(mark));
        },
        _ => {},
    }
}

proof fn lemma_wait_for(c: ConsoleView, remaining: u128, timeout: u64, text: Seq<char>)
    ensures
        ({
            let (after, wait) = c.expect(remaining, timeout, seq![text]);
            &&& shows(c.buf, text) ==> wait == WaitView::Matched && after == ConsoleView {
                last_matched: text,
                ..c
            }
            &&& !shows(c.buf, text) ==> after == c
            &&& !shows(c.buf, text) && remaining == 0 ==> wait == WaitView::Expired(
                in_vain(c, timeout, quoted_list(seq![text])),
            )
            &&& !shows(c.buf, text) && remaining > 0 ==> wait == WaitView::Listen(
                listening(remaining),
            )
        }),
{
    let none = Seq::<Seq<char>>::empty();
    if shows(c.buf, text) {
        a_wait_ends_when_one_text_is_shown(c, remaining, timeout, none, text, none);
        assert(none + seq![text] + none =~= seq![text]);
    } else {
        a_wait_ends_when_one_text_is_shown(c, remaining, timeout, seq![text], text, none);
    }
}

/// A session waits 8 seconds for the password prompt, and for anything else as long as was
/// asked for.
pub proof fn a_session_waits_as_long_as_was_asked_for(s: SessionView)
    ensures
        s.stage == Stage::Password ==> s.timeout() == 8,
        s.stage != Stage::Password ==> s.timeout() == s.step_timeout,
{
}

/// A console that closes ends a session that waits for something to be shown, but for the
/// password prompt, which need not come; what the console shows is only taken in.
pub proof fn a_closed_console_ends_a_session(s: SessionView, chunk: Seq<u8>)
    ensures
        ({
            let (after, directive) = session_step(s, Happening::Closed);
            let echo = "echo "@ + "KBUILD_MARK_BOOTED"@;
            let output = tail_of(s.console.buf + readable_text(s.console.pending), 20);
            &&& s.stage == Stage::Login ==> directive == Some(
                DirectiveView::Finish(
                    Some(ErrorView::closed(quoted_list(seq!["login:"@]), output)),
                ),
            )
            &&& s.stage == Stage::Password || s.stage == Stage::LoggedIn ==> directive == Some(
                DirectiveView::Send(echo),
            ) && after.stage == Stage::Mark(Mark::Booted)
            &&& s.stage matches Stage::Mark(mark) ==> directive == Some(
                DirectiveView::Finish(
                    Some(ErrorView::closed("marker "@ + quoted_text(text_of(mark)), output)),
                ),
            )
            &&& s.stage == Stage::Over ==> directive == Some(DirectiveView::Finish(None))
            &&& after.console == s.console
            &&& session_step(s, Happening::Heard(chunk)).1 is None
            &&& session_step(s, Happening::Heard(chunk)).0 == SessionView {
                console: s.console.received(chunk),
                ..s
            }
        }),
{
}

/// What is said of a wait: what was waited for, in quotes.
pub proof fn what_was_waited_for_is_quoted(text: Seq<char>)
    ensures
        quoted_list(seq![text]) == "["@ + quoted_text(text) + "]"@,
        quoted_marker(text) == "marker "@ + quoted_text(text),
        duration_text(0) == "0ns"@,
        forall|n: u64| n > 0 ==> #[trigger] duration_text(n) == decimal(n as nat) + "s"@,
{
    let list = seq![text].map_values(|p: Seq<char>| quoted_text(p));
    assert(list =~= seq![quoted_text(text)]);
}

/// A list of texts is shown in the order given, with commas between them.
pub proof fn a_list_is_shown_in_its_order(list: Seq<Seq<char>>, text: Seq<char>)
    requires
        list.len() > 0,
    ensures
        quoted_list(list.push(text)) == quoted_list(list).drop_last() + ", "@ + quoted_text(text)
            + "]"@,
{
    reveal_strlit("]");
    reveal_strlit("[");
    let quote = |p: Seq<char>| quoted_text(p);
    let a = list.map_values(quote);
    assert(list.push(text).map_values(quote) =~= a.push(quoted_text(text)));
    crate::text_laws::pieces_are_put_together(a, quoted_text(text), ", "@);
    let inner = crate::text::joined(a, ", "@);
    assert(quoted_list(list).drop_last() =~= "["@ + inner);
    assert("["@ + (inner + ", "@ + quoted_text(text)) + "]"@ =~= "["@ + inner + ", "@
        + quoted_text(text) + "]"@);
}

/// A session and its VM start with nothing shown, nothing typed and nothing judged.
pub proof fn a_session_starts_at_the_login_prompt(
    step_timeout: u64,
    ko_name: Seq<char>,
    module_name: Seq<char>,
    log: Seq<char>,
)
    ensures
        ({
            let s = new_session(step_timeout, ko_name, module_name);
            let vm = new_vm(s, log);
            &&& s.stage == Stage::Login
            &&& s.step_timeout == step_timeout
            &&& s.ko_name == ko_name
            &&& s.module_name == module_name
            &&& s.console.buf.len() == 0
            &&& s.console.pending.len() == 0
            &&& vm.stage == VmStage::Spawn
            &&& vm.session == s
            &&& vm.log == log
            &&& vm.result is None
        }),
{
}

/// What a VM does about the reply to what it asked for, up to the end of the test on its
/// console: the console is opened, every wait gets its full time, what the session wants is
/// done, and the session hears all that the console shows.
pub proof fn a_vm_carries_its_session(vm: VmView, reply: Reply)
    ensures
        ({
            let (after, step) = vm.step(reply);
            let (s, wanted) = match reply {
                Reply::Left(ns) => session_step(vm.session, Happening::Polled(ns)),
                _ => session_step(vm.session, Happening::Closed),
            };
            let asks = vm.stage == VmStage::Left && reply is Left || vm.stage == VmStage::Hear
                && reply is Closed;
            &&& vm.stage == VmStage::Spawn ==> if reply is Done {
                step == StepView::<()>::Do(ActionView::OpenConsole(vm.log)) && after.stage
                    == VmStage::Open
            } else {
                step is Fail
            }
            &&& vm.stage == VmStage::Open ==> if reply is Done {
                step == StepView::<()>::Do(ActionView::SetTimer(vm.session.timeout()))
                    && after.stage == VmStage::Timer
            } else {
                step is Fail
            }
            &&& vm.stage == VmStage::Timer ==> step == StepView::<()>::Do(ActionView::TimeLeft)
                && after.stage == VmStage::Left
            &&& asks ==> after.session == s
            &&& asks ==> (wanted matches Some(DirectiveView::Send(line)) ==> step
                == StepView::<()>::Do(ActionView::Type(line)) && after.stage == VmStage::Type
                && after.typed == line)
            &&& asks ==> (wanted matches Some(DirectiveView::Listen(ns)) ==> step
                == StepView::<()>::Do(ActionView::Hear(ns)) && after.stage == VmStage::Hear)
            &&& asks ==> (wanted matches Some(DirectiveView::Finish(result)) ==> step
                == StepView::<()>::Do(ActionView::SetTimer(30)) && after.stage == VmStage::OffTimer
                && after.result == result)
            &&& vm.stage == VmStage::Type && reply is Done ==> step == StepView::<()>::Do(
                ActionView::SetTimer(vm.session.timeout()),
            ) && after.stage == VmStage::Timer
            &&& vm.stage == VmStage::Type ==> (reply matches Reply::Failed(cause) ==> after.result
                == Some(
                ErrorView::failed(
                    "writing "@ + quoted_text(vm.typed) + " to qemu console"@,
                    cause@,
                ),
            ) && after.stage == VmStage::OffTimer)
            &&& vm.stage == VmStage::Hear ==> (reply matches Reply::Heard(chunk) ==> step
                == StepView::<()>::Do(ActionView::TimeLeft) && after.stage == VmStage::Left
                && after.session.console == vm.session.console.received(chunk@))
            &&& vm.stage == VmStage::Hear && reply is Silence ==> step == StepView::<()>::Do(
                ActionView::TimeLeft,
            ) && after.stage == VmStage::Left && after.session == vm.session
            &&& !asks && !(vm.stage == VmStage::Hear && reply is Heard) ==> after.session
                == vm.session
        }),
{
}

/// How a VM ends: it gets 30 seconds to power off and is looked at five times a second; it
/// is killed when it takes longer; then its console is closed and its log read.
pub proof fn a_vm_gets_time_to_power_off(vm: VmView, reply: Reply)
    ensures
        ({
            let (after, step) = vm.step(reply);
            &&& vm.stage == VmStage::OffTimer || vm.stage == VmStage::Pause ==> step
                == StepView::<()>::Do(ActionView::HasExited) && after.stage == VmStage::Exited
            &&& vm.stage == VmStage::Exited && reply == Reply::Is(true) ==> step == StepView::<
                (),
            >::Do(ActionView::CloseConsole) && after.stage == VmStage::Close
            &&& vm.stage == VmStage::Exited && reply != Reply::Is(true) ==> step == StepView::<
                (),
            >::Do(ActionView::TimeLeft) && after.stage == VmStage::OffLeft
            &&& vm.stage == VmStage::OffLeft ==> if reply is Left && reply->Left_0 > 0 {
                step == StepView::<()>::Do(ActionView::Pause(200)) && after.stage == VmStage::Pause
            } else {
                step == StepView::<()>::Do(ActionView::KillVm) && after.stage == VmStage::Kill
            }
            &&& vm.stage == VmStage::Kill ==> step == StepView::<()>::Do(ActionView::CloseConsole)
                && after.stage == VmStage::Close
            &&& vm.stage == VmStage::Close ==> step == StepView::<()>::Do(
                ActionView::ReadBytes(vm.log),
            ) && after.stage == VmStage::ReadLog
            &&& (vm.stage == VmStage::Left || vm.stage == VmStage::Type || vm.stage
                == VmStage::Hear || vm.stage == VmStage::ReadLog) || after.result == vm.result
            &&& after.log == vm.log
        }),
{
}

/// Whether bytes stand somewhere among others.
pub open spec fn holds(log: Seq<u8>, bytes: Seq<u8>) -> bool {
    exists|a: Seq<u8>, b: Seq<u8>| log == #[trigger] (a + bytes + b)
}

/// A test has failed if its console's log holds `panic:` anywhere, with the last 40 lines of
/// it; else it has ended as its session did, and the error says where the log is.
pub proof fn a_test_is_judged_by_its_log(
    log: Seq<u8>,
    path: Seq<char>,
    result: Option<ErrorView>,
)
    ensures
        holds(log, encode_utf8("panic:"@)) ==> verdict_of(log, path, result) == Some(
            ErrorView::kernel_panic(path, tail_of(readable_text(log), 40)),
        ),
        !holds(log, encode_utf8("panic:"@)) ==> match result {
            None => verdict_of(log, path, result) is None,
            Some(e) => verdict_of(log, path, result) == Some(e.logged(path)),
        },
{
    let needle = encode_utf8("panic:"@);
    if holds(log, needle) {
        let (a, b) = choose|a: Seq<u8>, b: Seq<u8>| log == #[trigger] (a + needle + b);
        let i = a.len() as int;
        assert(log.subrange(i, i + needle.len()) =~= needle);
        assert(bytes_at(log, needle, i));
    }
    if contains_bytes(log, needle) {
        let i = choose|i: int| bytes_at(log, needle, i);
        let a = log.take(i);
        let b = log.skip(i + needle.len());
        assert(log =~= a + needle + b);
    }
}

/// A VM is judged by the log that was read, and one that cannot be read tells nothing.
pub proof fn a_vm_is_judged_by_the_log_read(vm: VmView, bytes: Vec<u8>, other: Reply)
    requires
        vm.stage == VmStage::ReadLog,
        other !is Bytes,
    ensures
        vm.step(Reply::Bytes(bytes)).1 == outcome(verdict_of(bytes@, vm.log, vm.result)),
        vm.step(other).1 == outcome(verdict_of(Seq::empty(), vm.log, vm.result)),
        outcome(None) == StepView::Done(()),
        forall|e: ErrorView| #[trigger] outcome(Some(e)) == StepView::<()>::Fail(e),
{
}

} // verus!
