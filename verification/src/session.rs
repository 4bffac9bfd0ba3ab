//! The test of a module in a VM, typed on the serial console as a human would:
//! log in, mount the CD, load the module, look for it, unload it, power off.

use crate::console::{
    an_echoed_line_is_no_marker, first_shown, marker_line, new_console, quoted_list, quoted_marker,
    shown_text_stays_shown, Console, ConsoleView, Wait, WaitView,
};
use crate::error::{quoted, quoted_text, Error, ErrorView};
use crate::host::error_of;
use crate::stream::{bytes_at, contains_bytes, decodable, has_text, text_is_found_in_its_bytes};
use crate::text::{
    cat2, cat3, cat4, contains_text, lossy_text, push_text, readable, readable_text, tail, tail_of,
    texts, without,
};
use vstd::prelude::*;
use vstd::utf8::{decode_utf8, encode_utf8, valid_utf8};

verus! {

/// How many seconds to wait for a password prompt. Root has no password on the stock
/// images, so there is mostly none.
pub const PASSWORD_SECONDS: u64 = 8;

/// How many seconds the guest has to power off.
pub const POWEROFF_SECONDS: u64 = 30;

/// How many milliseconds lie between two looks at whether it has.
pub const POWEROFF_PAUSE_MS: u64 = 200;

/// A marker that the guest prints when a command has succeeded.
#[derive(Clone, Copy, Debug, PartialEq, Eq, Structural)]
pub enum Mark {
    Booted,
    Mounted,
    Loaded,
    Present,
    Unloaded,
}

/// What the test waits for.
#[derive(Clone, Copy, Debug, PartialEq, Eq, Structural)]
pub enum Stage {
    /// The login prompt.
    Login,
    /// The password prompt, which may not come.
    Password,
    /// Nothing: the empty password has been typed.
    LoggedIn,
    /// A marker.
    Mark(Mark),
    /// Nothing: the guest has been told to power off.
    Over,
}

/// A test under way.
#[derive(Debug)]
pub struct Session {
    console: Console,
    stage: Stage,
    step_timeout: u64,
    ko_name: String,
    module_name: String,
}

/// The contents of a [`Session`].
pub ghost struct SessionView {
    pub console: ConsoleView,
    pub stage: Stage,
    pub step_timeout: u64,
    pub ko_name: Seq<char>,
    pub module_name: Seq<char>,
}

impl View for Session {
    type V = SessionView;

    closed spec fn view(&self) -> SessionView {
        SessionView {
            console: self.console@,
            stage: self.stage,
            step_timeout: self.step_timeout,
            ko_name: self.ko_name@,
            module_name: self.module_name@,
        }
    }
}

/// What a test wants done.
#[derive(Debug)]
pub enum Directive {
    /// Type a line, and give the next wait its full time.
    Send(String),
    /// Listen to the console for the nanoseconds given.
    Listen(u128),
    /// Nothing: the test is over.
    Finish(Result<(), Error>),
}

/// The contents of a [`Directive`].
pub ghost enum DirectiveView {
    Send(Seq<char>),
    Listen(u128),
    Finish(Option<ErrorView>),
}

impl View for Directive {
    type V = DirectiveView;

    open spec fn view(&self) -> DirectiveView {
        match *self {
            Directive::Send(line) => DirectiveView::Send(line@),
            Directive::Listen(ns) => DirectiveView::Listen(ns),
            Directive::Finish(r) => DirectiveView::Finish(error_of(r)),
        }
    }
}

/// The text of a marker.
pub open spec fn mark_text(mark: Mark) -> Seq<char> {
    match mark {
        Mark::Booted => "KBUILD_MARK_BOOTED"@,
        Mark::Mounted => "KBUILD_MARK_MOUNTED"@,
        Mark::Loaded => "KBUILD_MARK_LOADED"@,
        Mark::Present => "KBUILD_MARK_PRESENT"@,
        Mark::Unloaded => "KBUILD_MARK_UNLOADED"@,
    }
}

/// The marker to wait for after `mark`.
pub open spec fn next_mark(mark: Mark) -> Option<Mark> {
    match mark {
        Mark::Booted => Some(Mark::Mounted),
        Mark::Mounted => Some(Mark::Loaded),
        Mark::Loaded => Some(Mark::Present),
        Mark::Present => Some(Mark::Unloaded),
        Mark::Unloaded => None,
    }
}

/// The command that prints a marker if it succeeds.
pub open spec fn mark_command(mark: Mark, ko_name: Seq<char>, module_name: Seq<char>) -> Seq<char> {
    match mark {
        Mark::Booted => "echo "@ + mark_text(mark),
        Mark::Mounted => "mount -t cd9660 /dev/cd0 /mnt"@ + " && echo "@ + mark_text(mark),
        Mark::Loaded => "kldload /mnt/"@ + ko_name + " && echo "@ + mark_text(mark),
        Mark::Present => "kldstat -n "@ + module_name + " >/dev/null && echo "@ + mark_text(mark),
        Mark::Unloaded => "kldunload "@ + module_name + " && echo "@ + mark_text(mark),
    }
}

/// A test that has not begun.
pub open spec fn new_session(
    step_timeout: u64,
    ko_name: Seq<char>,
    module_name: Seq<char>,
) -> SessionView {
    SessionView {
        console: new_console(),
        stage: Stage::Login,
        step_timeout,
        ko_name,
        module_name,
    }
}

impl SessionView {
    /// How many seconds the console has to show what is waited for.
    pub open spec fn timeout(self) -> u64 {
        if self.stage == Stage::Password {
            PASSWORD_SECONDS
        } else {
            self.step_timeout
        }
    }

    /// Types the command for `mark` and waits for that.
    pub open spec fn type_command(self, mark: Mark) -> (SessionView, DirectiveView) {
        (
            SessionView { stage: Stage::Mark(mark), ..self },
            DirectiveView::Send(mark_command(mark, self.ko_name, self.module_name)),
        )
    }

    /// What comes of a wait for `pattern` that has `remaining` nanoseconds left.
    pub open spec fn await_text(self, remaining: u128, pattern: Seq<char>) -> (
        SessionView,
        WaitView,
    ) {
        let (console, wait) = self.console.expect(remaining, self.timeout(), seq![pattern]);
        (SessionView { console, ..self }, wait)
    }

    /// What comes of a wait for `mark` that has `remaining` nanoseconds left.
    pub open spec fn await_mark(self, remaining: u128, mark: Mark) -> (SessionView, WaitView) {
        let (console, wait) = self.console.expect_marker(
            remaining,
            self.timeout(),
            mark_text(mark),
        );
        (SessionView { console, ..self }, wait)
    }

    /// What the test wants done, with `remaining` nanoseconds left for the wait.
    pub open spec fn poll(self, remaining: u128) -> (SessionView, DirectiveView) {
        match self.stage {
            Stage::Login => {
                let (s, wait) = self.await_text(remaining, "login:"@);
                match wait {
                    WaitView::Matched => (
                        SessionView { stage: Stage::Password, ..s },
                        DirectiveView::Send("root"@),
                    ),
                    WaitView::Listen(ns) => (s, DirectiveView::Listen(ns)),
                    WaitView::Expired(e) => (s, DirectiveView::Finish(Some(e))),
                }
            },
            Stage::Password => {
                let (s, wait) = self.await_text(remaining, "Password:"@);
                match wait {
                    WaitView::Matched => (
                        SessionView { stage: Stage::LoggedIn, ..s },
                        DirectiveView::Send(""@),
                    ),
                    WaitView::Listen(ns) => (s, DirectiveView::Listen(ns)),
                    WaitView::Expired(_) => s.type_command(Mark::Booted),
                }
            },
            Stage::LoggedIn => self.type_command(Mark::Booted),
            Stage::Mark(mark) => {
                let (s, wait) = self.await_mark(remaining, mark);
                match wait {
                    WaitView::Matched => match next_mark(mark) {
                        Some(next) => s.type_command(next),
                        None => (
                            SessionView { stage: Stage::Over, ..s },
                            DirectiveView::Send("poweroff"@),
                        ),
                    },
                    WaitView::Listen(ns) => (s, DirectiveView::Listen(ns)),
                    WaitView::Expired(e) => (s, DirectiveView::Finish(Some(e))),
                }
            },
            Stage::Over => (self, DirectiveView::Finish(None)),
        }
    }

    /// What the test wants done when the console closes while it is listened to.
    pub open spec fn closed(self) -> (SessionView, DirectiveView) {
        match self.stage {
            Stage::Login => (
                self,
                DirectiveView::Finish(
                    Some(self.console.closed_error(quoted_list(seq!["login:"@]))),
                ),
            ),
            Stage::Password => self.type_command(Mark::Booted),
            Stage::LoggedIn => self.type_command(Mark::Booted),
            Stage::Mark(mark) => (
                self,
                DirectiveView::Finish(
                    Some(self.console.closed_error(quoted_marker(mark_text(mark)))),
                ),
            ),
            Stage::Over => (self, DirectiveView::Finish(None)),
        }
    }

    /// The test after the console showed the bytes `chunk`.
    pub open spec fn received(self, chunk: Seq<u8>) -> SessionView {
        SessionView { console: self.console.received(chunk), ..self }
    }
}

impl Mark {
    /// The text of the marker.
    pub fn text(&self) -> (r: &'static str)
        ensures
            r@ == mark_text(*self),
    {
        match self {
            Mark::Booted => "KBUILD_MARK_BOOTED",
            Mark::Mounted => "KBUILD_MARK_MOUNTED",
            Mark::Loaded => "KBUILD_MARK_LOADED",
            Mark::Present => "KBUILD_MARK_PRESENT",
            Mark::Unloaded => "KBUILD_MARK_UNLOADED",
        }
    }

    /// The marker to wait for after this one.
    pub fn next(&self) -> (r: Option<Mark>)
        ensures
            r == next_mark(*self),
    {
        match self {
            Mark::Booted => Some(Mark::Mounted),
            Mark::Mounted => Some(Mark::Loaded),
            Mark::Loaded => Some(Mark::Present),
            Mark::Present => Some(Mark::Unloaded),
            Mark::Unloaded => None,
        }
    }

    /// The command that prints the marker if it succeeds.
    pub fn command(&self, ko_name: &str, module_name: &str) -> (r: String)
        ensures
            r@ == mark_command(*self, ko_name@, module_name@),
    {
        match self {
            Mark::Booted => cat2("echo ", self.text()),
            Mark::Mounted => cat3("mount -t cd9660 /dev/cd0 /mnt", " && echo ", self.text()),
            Mark::Loaded => cat4("kldload /mnt/", ko_name, " && echo ", self.text()),
            Mark::Present => cat4(
                "kldstat -n ",
                module_name,
                " >/dev/null && echo ",
                self.text(),
            ),
            Mark::Unloaded => cat4("kldunload ", module_name, " && echo ", self.text()),
        }
    }
}

/// A list of one text.
fn only(text: &str) -> (r: Vec<String>)
    ensures
        texts(r@) == seq![text@],
{
    let mut v: Vec<String> = Vec::new();
    push_text(&mut v, text);
    assert(texts(v@) =~= seq![text@]);
    v
}

impl Session {
    /// A test that has not begun, of the module `module_name` in the file `ko_name`.
    /// A step may take `step_timeout` seconds.
    pub fn new(step_timeout: u64, ko_name: &str, module_name: &str) -> (r: Session)
        ensures
            r@ == new_session(step_timeout, ko_name@, module_name@),
    {
        Session {
            console: Console::new(),
            stage: Stage::Login,
            step_timeout,
            ko_name: ko_name.to_owned(),
            module_name: module_name.to_owned(),
        }
    }

    /// How many seconds the console has to show what is waited for.
    pub fn timeout(&self) -> (r: u64)
        ensures
            r == self@.timeout(),
    {
        match self.stage {
            Stage::Password => PASSWORD_SECONDS,
            _ => self.step_timeout,
        }
    }

    fn type_command(&mut self, mark: Mark) -> (r: Directive)
        ensures
            (final(self)@, r@) == old(self)@.type_command(mark),
    {
        self.stage = Stage::Mark(mark);
        Directive::Send(mark.command(self.ko_name.as_str(), self.module_name.as_str()))
    }

    /// What to do next, with `remaining` nanoseconds left for the current wait.
    pub fn poll(&mut self, remaining: u128) -> (r: Directive)
        ensures
            (final(self)@, r@) == old(self)@.poll(remaining),
    {
        let timeout = self.timeout();
        match self.stage {
            Stage::Login => match self.console.expect(remaining, timeout, &only("login:")) {
                Wait::Matched => {
                    self.stage = Stage::Password;
                    Directive::Send("root".to_owned())
                },
                Wait::Listen(ns) => Directive::Listen(ns),
                Wait::Expired(e) => Directive::Finish(Err(e)),
            },
            Stage::Password => match self.console.expect(remaining, timeout, &only("Password:")) {
                Wait::Matched => {
                    self.stage = Stage::LoggedIn;
                    Directive::Send("".to_owned())
                },
                Wait::Listen(ns) => Directive::Listen(ns),
                Wait::Expired(_) => self.type_command(Mark::Booted),
            },
            Stage::LoggedIn => self.type_command(Mark::Booted),
            Stage::Mark(mark) => match self.console.expect_marker(
                remaining,
                timeout,
                mark.text(),
            ) {
                Wait::Matched => match mark.next() {
                    Some(next) => self.type_command(next),
                    None => {
                        self.stage = Stage::Over;
                        Directive::Send("poweroff".to_owned())
                    },
                },
                Wait::Listen(ns) => Directive::Listen(ns),
                Wait::Expired(e) => Directive::Finish(Err(e)),
            },
            Stage::Over => Directive::Finish(Ok(())),
        }
    }

    /// Takes in bytes that the console shows.
    pub fn receive(&mut self, chunk: &Vec<u8>)
        ensures
            final(self)@ == old(self)@.received(chunk@),
            old(self)@.console.pending.len() == 0 && valid_utf8(chunk@) ==> {
                final(self)@.console == old(self)@.console.shown(decode_utf8(chunk@))
            },
    {
        self.console.receive(chunk);
    }

    /// What to do when the console closes while it is listened to.
    pub fn closed(&mut self) -> (r: Directive)
        ensures
            (final(self)@, r@) == old(self)@.closed(),
    {
        match self.stage {
            Stage::Login => Directive::Finish(Err(self.console.closed(&only("login:")))),
            Stage::Password => self.type_command(Mark::Booted),
            Stage::LoggedIn => self.type_command(Mark::Booted),
            Stage::Mark(mark) => Directive::Finish(
                Err(self.console.closed_before_marker(mark.text())),
            ),
            Stage::Over => Directive::Finish(Ok(())),
        }
    }
}

/// The error of a line that could not be typed.
pub open spec fn send_error_of(line: Seq<char>, cause: Seq<char>) -> ErrorView {
    ErrorView::failed("writing "@ + quoted_text(line) + " to qemu console"@, cause)
}

/// The error of a line that could not be typed.
pub fn send_error(line: &str, cause: &str) -> (r: Error)
    ensures
        r@ == send_error_of(line@, cause@),
{
    let doing = cat3("writing ", quoted(line).as_str(), " to qemu console");
    Error::failed(doing.as_str(), cause)
}

/// What to do about a guest that was told to power off.
#[derive(Clone, Copy, Debug, PartialEq, Eq, Structural)]
pub enum Patience {
    /// It has powered off.
    Exited,
    /// Its time is over.
    GaveUp,
    /// Look again after a pause of the milliseconds given.
    Pause(u64),
}

/// Waits for the guest to power off: `late` says that its time is over.
pub fn wait_with_timeout(exited: bool, late: bool) -> (r: Patience)
    ensures
        r == (if exited {
            Patience::Exited
        } else if late {
            Patience::GaveUp
        } else {
            Patience::Pause(POWEROFF_PAUSE_MS)
        }),
{
    if exited {
        Patience::Exited
    } else if late {
        Patience::GaveUp
    } else {
        Patience::Pause(POWEROFF_PAUSE_MS)
    }
}

/// Whether the bytes of a console's log tell of a kernel panic.
pub open spec fn panicked(log: Seq<u8>) -> bool {
    contains_bytes(log, encode_utf8("panic:"@))
}

/// How a test ended whose console showed `log`: a kernel panic is a failure,
/// whatever else happened.
pub open spec fn verdict_of(
    log: Seq<u8>,
    log_path: Seq<char>,
    result: Option<ErrorView>,
) -> Option<ErrorView> {
    if panicked(log) {
        Some(ErrorView::kernel_panic(log_path, tail_of(readable_text(log), 40)))
    } else {
        match result {
            Some(e) => Some(e.logged(log_path)),
            None => None,
        }
    }
}

/// How a test ended whose console showed `log`. The bytes are searched as they are: one
/// that is not UTF-8 hides no panic.
pub fn verdict_on_bytes(log: &Vec<u8>, log_path: &str, result: Result<(), Error>) -> (r: Result<
    (),
    Error,
>)
    ensures
        error_of(r) == verdict_of(log@, log_path@, error_of(result)),
        panicked(log@) ==> error_of(r) == Some(
            ErrorView::kernel_panic(log_path@, tail_of(lossy_text(log@), 40)),
        ),
{
    if has_text(log, "panic:") {
        let text = readable(log);
        return Err(Error::kernel_panic(log_path, tail(text.as_str(), 40).as_str()));
    }
    match result {
        Ok(_) => Ok(()),
        Err(e) => Err(e.logged(log_path)),
    }
}

/// Something that happens to a test.
pub ghost enum Happening {
    /// It is asked what to do, with the nanoseconds given left.
    Polled(u128),
    /// The console shows bytes.
    Heard(Seq<u8>),
    /// The console closes.
    Closed,
}

/// What a test does about something that happens.
pub open spec fn session_step(s: SessionView, happening: Happening) -> (
    SessionView,
    Option<DirectiveView>,
) {
    match happening {
        Happening::Polled(remaining) => {
            let (after, directive) = s.poll(remaining);
            (after, Some(directive))
        },
        Happening::Heard(chunk) => (s.received(chunk), None),
        Happening::Closed => {
            let (after, directive) = s.closed();
            (after, Some(directive))
        },
    }
}

/// The test `s` after the happenings given.
pub open spec fn session_after(s: SessionView, happenings: Seq<Happening>) -> SessionView
    decreases happenings.len(),
{
    if happenings.len() == 0 {
        s
    } else {
        session_step(session_after(s, happenings.drop_last()), happenings.last()).0
    }
}

/// Whether the console has shown a marker on a line of its own.
pub open spec fn has_shown(s: SessionView, mark: Mark) -> bool {
    contains_text(s.console.buf, marker_line(mark_text(mark)))
}

/// A marker's place in the order of the test.
pub open spec fn rank(mark: Mark) -> int {
    match mark {
        Mark::Booted => 0,
        Mark::Mounted => 1,
        Mark::Loaded => 2,
        Mark::Present => 3,
        Mark::Unloaded => 4,
    }
}

/// Whether the console has shown every marker on a line of its own: the guest came up,
/// the CD was mounted, and the module was loaded, found and unloaded.
pub open spec fn all_marks_were_shown(s: SessionView) -> bool {
    forall|m: Mark| #[trigger] has_shown(s, m)
}

/// What every test keeps: it waits for a marker only when all those before it have
/// been shown, and ends only when all have.
pub open spec fn session_inv(s: SessionView) -> bool {
    match s.stage {
        Stage::Mark(mark) => forall|m: Mark| rank(m) < rank(mark) ==> #[trigger] has_shown(s, m),
        Stage::Over => all_marks_were_shown(s),
        _ => true,
    }
}

pub proof fn lemma_session_step(s: SessionView, happening: Happening)
    requires
        session_inv(s),
    ensures
        session_inv(session_step(s, happening).0),
        session_step(s, happening).1 == Some(DirectiveView::Finish(None)) ==> session_step(
            s,
            happening,
        ).0.stage == Stage::Over,
{
    match happening {
        Happening::Heard(chunk) => {
            let after = s.received(chunk);
            let text = readable_text(decodable(s.console.pending + chunk));
            assert forall|m: Mark| has_shown(s, m) implies #[trigger] has_shown(after, m) by {
                shown_text_stays_shown(
                    s.console.buf,
                    without(text, '\r'),
                    marker_line(mark_text(m)),
                );
            }
        },
        Happening::Polled(remaining) => {
            let after = s.poll(remaining).0;
            assert(after.console.buf == s.console.buf);
            assert forall|m: Mark| has_shown(s, m) implies #[trigger] has_shown(after, m) by {}
            match s.stage {
                Stage::Mark(mark) => {
                    if contains_text(s.console.buf, marker_line(mark_text(mark))) {
                        assert(has_shown(s, mark));
                        assert forall|m: Mark| rank(m) <= rank(mark) implies #[trigger] has_shown(
                            s,
                            m,
                        ) by {}
                        assert(forall|m: Mark| rank(m) <= rank(mark) ==> #[trigger] has_shown(
                            after,
                            m,
                        ));
                    }
                },
                _ => {},
            }
        },
        Happening::Closed => {},
    }
}

/// A test that passes has seen every marker on a line of its own: the guest came up,
/// the CD was mounted, and the module was loaded, found and unloaded.
pub proof fn a_passed_test_saw_every_mark(
    step_timeout: u64,
    ko_name: Seq<char>,
    module_name: Seq<char>,
    happenings: Seq<Happening>,
    last: Happening,
    mark: Mark,
)
    requires
        session_step(
            session_after(new_session(step_timeout, ko_name, module_name), happenings),
            last,
        ).1 == Some(DirectiveView::Finish(None)),
    ensures
        has_shown(
            session_after(
                new_session(step_timeout, ko_name, module_name),
                happenings.push(last),
            ),
            mark,
        ),
{
    let s = new_session(step_timeout, ko_name, module_name);
    lemma_session_run(s, happenings);
    lemma_session_step(session_after(s, happenings), last);
    assert(happenings.push(last).drop_last() =~= happenings);
}

proof fn lemma_session_run(s: SessionView, happenings: Seq<Happening>)
    requires
        session_inv(s),
    ensures
        session_inv(session_after(s, happenings)),
    decreases happenings.len(),
{
    if happenings.len() > 0 {
        lemma_session_run(s, happenings.drop_last());
        lemma_session_step(session_after(s, happenings.drop_last()), happenings.last());
    }
}

/// The lines that the test `s` has typed by the time of the happenings given.
pub open spec fn typed_lines(s: SessionView, happenings: Seq<Happening>) -> Seq<Seq<char>>
    decreases happenings.len(),
{
    if happenings.len() == 0 {
        Seq::empty()
    } else {
        let before = happenings.drop_last();
        let typed = typed_lines(s, before);
        match session_step(session_after(s, before), happenings.last()).1 {
            Some(DirectiveView::Send(line)) => typed.push(line),
            _ => typed,
        }
    }
}

/// Whether the test `s` has been asked for a password while it waited for that.
pub open spec fn was_asked(s: SessionView, happenings: Seq<Happening>) -> bool
    decreases happenings.len(),
{
    if happenings.len() == 0 {
        false
    } else {
        let before = session_after(s, happenings.drop_last());
        ||| was_asked(s, happenings.drop_last())
        ||| before.stage == Stage::Password && happenings.last() is Polled && contains_text(
            before.console.buf,
            "Password:"@,
        )
    }
}

/// The commands up to the one for `mark`.
pub open spec fn commands_up_to(mark: Mark, ko_name: Seq<char>, module_name: Seq<char>) -> Seq<
    Seq<char>,
>
    decreases rank(mark),
{
    let command = mark_command(mark, ko_name, module_name);
    match mark {
        Mark::Booted => seq![command],
        Mark::Mounted => commands_up_to(Mark::Booted, ko_name, module_name).push(command),
        Mark::Loaded => commands_up_to(Mark::Mounted, ko_name, module_name).push(command),
        Mark::Present => commands_up_to(Mark::Loaded, ko_name, module_name).push(command),
        Mark::Unloaded => commands_up_to(Mark::Present, ko_name, module_name).push(command),
    }
}

/// What is typed to log in: the user's name, and an empty password where one is asked
/// for.
pub open spec fn login_lines(asked: bool) -> Seq<Seq<char>> {
    if asked {
        seq!["root"@, ""@]
    } else {
        seq!["root"@]
    }
}

/// All that a test has typed that is in the stage of `s`.
pub open spec fn lines_so_far(s: SessionView, asked: bool) -> Seq<Seq<char>> {
    match s.stage {
        Stage::Login => Seq::empty(),
        Stage::Password => login_lines(false),
        Stage::LoggedIn => login_lines(true),
        Stage::Mark(mark) => login_lines(asked) + commands_up_to(mark, s.ko_name, s.module_name),
        Stage::Over => (login_lines(asked) + commands_up_to(
            Mark::Unloaded,
            s.ko_name,
            s.module_name,
        )).push("poweroff"@),
    }
}

proof fn lemma_typed(s: SessionView, happenings: Seq<Happening>)
    requires
        s.stage == Stage::Login,
    ensures
        ({
            let after = session_after(s, happenings);
            let asked = was_asked(s, happenings);
            &&& typed_lines(s, happenings) == lines_so_far(after, asked)
            &&& after.ko_name == s.ko_name
            &&& after.module_name == s.module_name
            &&& after.stage == Stage::Login || after.stage == Stage::Password ==> !asked
            &&& after.stage == Stage::LoggedIn ==> asked
        }),
    decreases happenings.len(),
{
    if happenings.len() > 0 {
        let less = happenings.drop_last();
        let before = session_after(s, less);
        let after = session_after(s, happenings);
        lemma_typed(s, less);
        let pattern = seq!["Password:"@];
        assert(first_shown(before.console.buf, pattern) is Some <==> contains_text(
            before.console.buf,
            "Password:"@,
        )) by {
            reveal_with_fuel(first_shown, 2);
        }
        reveal_with_fuel(commands_up_to, 6);
        assert(typed_lines(s, happenings) =~= lines_so_far(after, was_asked(s, happenings)));
    }
}

/// What a test that passes has typed, in this order and nothing else: the user's name,
/// an empty line where a password was asked for while that was waited for, the command
/// for each marker, and that the guest power off.
pub proof fn a_passed_test_typed_every_line(
    step_timeout: u64,
    ko_name: Seq<char>,
    module_name: Seq<char>,
    happenings: Seq<Happening>,
    last: Happening,
)
    requires
        session_step(
            session_after(new_session(step_timeout, ko_name, module_name), happenings),
            last,
        ).1 == Some(DirectiveView::Finish(None)),
    ensures
        ({
            let s = new_session(step_timeout, ko_name, module_name);
            typed_lines(s, happenings) == login_lines(was_asked(s, happenings)) + seq![
                mark_command(Mark::Booted, ko_name, module_name),
                mark_command(Mark::Mounted, ko_name, module_name),
                mark_command(Mark::Loaded, ko_name, module_name),
                mark_command(Mark::Present, ko_name, module_name),
                mark_command(Mark::Unloaded, ko_name, module_name),
                "poweroff"@,
            ]
        }),
{
    let s = new_session(step_timeout, ko_name, module_name);
    let before = session_after(s, happenings);
    lemma_typed(s, happenings);
    assert(before.stage == Stage::Over);
    reveal_with_fuel(commands_up_to, 6);
    assert(typed_lines(s, happenings) =~= login_lines(was_asked(s, happenings)) + seq![
        mark_command(Mark::Booted, ko_name, module_name),
        mark_command(Mark::Mounted, ko_name, module_name),
        mark_command(Mark::Loaded, ko_name, module_name),
        mark_command(Mark::Present, ko_name, module_name),
        mark_command(Mark::Unloaded, ko_name, module_name),
        "poweroff"@,
    ]);
}

/// The echo of a command is never taken for its success: where prompt and names are
/// on one line, the marker does not stand on a line of its own until it is printed.
pub proof fn an_echoed_command_is_no_success(
    mark: Mark,
    prompt: Seq<char>,
    ko_name: Seq<char>,
    module_name: Seq<char>,
)
    requires
        !prompt.contains('\n'),
        !ko_name.contains('\n'),
        !module_name.contains('\n'),
    ensures
        !contains_text(
            "\n"@ + prompt + mark_command(mark, ko_name, module_name) + "\n"@,
            marker_line(mark_text(mark)),
        ),
{
    let typed = mark_command(mark, ko_name, module_name);
    let text = mark_text(mark);
    reveal_strlit("echo ");
    reveal_strlit(" && echo ");
    reveal_strlit(" >/dev/null && echo ");
    reveal_strlit("mount -t cd9660 /dev/cd0 /mnt");
    reveal_strlit("kldload /mnt/");
    reveal_strlit("kldstat -n ");
    reveal_strlit("kldunload ");
    reveal_strlit("KBUILD_MARK_BOOTED");
    reveal_strlit("KBUILD_MARK_MOUNTED");
    reveal_strlit("KBUILD_MARK_LOADED");
    reveal_strlit("KBUILD_MARK_PRESENT");
    reveal_strlit("KBUILD_MARK_UNLOADED");
    assert(typed.len() > text.len());
    assert(typed.subrange(typed.len() - text.len(), typed.len() as int) =~= text);
    assert(!typed.contains('\n')) by {
        assert forall|k: int| 0 <= k < typed.len() implies typed[k] != '\n' by {
            lemma_no_line_feed_in_command(mark, ko_name, module_name, k);
        }
    }
    an_echoed_line_is_no_marker(prompt, typed, text);
}

proof fn lemma_no_line_feed_in_command(
    mark: Mark,
    ko_name: Seq<char>,
    module_name: Seq<char>,
    k: int,
)
    requires
        !ko_name.contains('\n'),
        !module_name.contains('\n'),
        0 <= k < mark_command(mark, ko_name, module_name).len(),
    ensures
        mark_command(mark, ko_name, module_name)[k] != '\n',
{
    reveal_strlit("echo ");
    reveal_strlit(" && echo ");
    reveal_strlit(" >/dev/null && echo ");
    reveal_strlit("mount -t cd9660 /dev/cd0 /mnt");
    reveal_strlit("kldload /mnt/");
    reveal_strlit("kldstat -n ");
    reveal_strlit("kldunload ");
    reveal_strlit("KBUILD_MARK_BOOTED");
    reveal_strlit("KBUILD_MARK_MOUNTED");
    reveal_strlit("KBUILD_MARK_LOADED");
    reveal_strlit("KBUILD_MARK_PRESENT");
    reveal_strlit("KBUILD_MARK_UNLOADED");
    let first = match mark {
        Mark::Booted => "echo "@,
        Mark::Mounted => "mount -t cd9660 /dev/cd0 /mnt"@,
        Mark::Loaded => "kldload /mnt/"@,
        Mark::Present => "kldstat -n "@,
        Mark::Unloaded => "kldunload "@,
    };
    let name = match mark {
        Mark::Loaded => ko_name,
        Mark::Present => module_name,
        Mark::Unloaded => module_name,
        _ => Seq::empty(),
    };
    if first.len() <= k < first.len() + name.len() {
        assert(mark_command(mark, ko_name, module_name)[k] == name[k - first.len()]);
    }
}

/// A kernel panic in the console's log is a failure of its own kind, whether or not
/// the test had passed, and whatever else the log holds.
pub proof fn a_kernel_panic_is_never_a_pass(
    before: Seq<u8>,
    after: Seq<u8>,
    log_path: Seq<char>,
    result: Option<ErrorView>,
)
    ensures
        ({
            let log = before + encode_utf8("panic:"@) + after;
            verdict_of(log, log_path, result) == Some(
                ErrorView::kernel_panic(log_path, tail_of(readable_text(log), 40)),
            )
        }),
{
    let found = encode_utf8("panic:"@);
    let log = before + found + after;
    let i = before.len() as int;
    assert(log.subrange(i, i + found.len()) =~= found);
    assert(bytes_at(log, found, i));
}

/// A kernel panic in the text of the console's log is found in its bytes.
pub proof fn a_readable_panic_is_found(log: Seq<u8>)
    requires
        valid_utf8(log),
        contains_text(decode_utf8(log), "panic:"@),
    ensures
        panicked(log),
{
    text_is_found_in_its_bytes(log, "panic:"@);
}

} // verus!
