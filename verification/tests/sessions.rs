use kbuild::console::{Console, Wait, LISTEN_NS};
use kbuild::error::{Error, ErrorKind};
use kbuild::session::{
    send_error, verdict_on_bytes, wait_with_timeout, Directive, Mark, Patience, Session, PASSWORD_SECONDS,
    POWEROFF_PAUSE_MS, POWEROFF_SECONDS,
};

const SECOND: u128 = 1_000_000_000;

trait Summary {
    fn summary(&self) -> String;
}

impl Summary for Error {
    fn summary(&self) -> String {
        let mut said = vec![self.message.clone()];
        said.extend(self.causes.iter().cloned());
        said.join(": ")
    }
}

fn patterns(list: &[&str]) -> Vec<String> {
    list.iter().map(|s| s.to_string()).collect()
}

fn sent(d: Directive) -> String {
    match d {
        Directive::Send(line) => line,
        other => panic!("{other:?}"),
    }
}

fn ended(d: Directive) -> Error {
    match d {
        Directive::Finish(Err(e)) => e,
        other => panic!("{other:?}"),
    }
}

/// A test that waits for its first marker.
fn logged_in() -> Session {
    let mut s = Session::new(120, "hello.ko", "hello");
    s.receive(&"FreeBSD\nlogin: ".as_bytes().to_vec());
    assert_eq!(sent(s.poll(SECOND)), "root");
    assert_eq!(sent(s.poll(0)), "echo KBUILD_MARK_BOOTED");
    s
}

#[test]
fn a_console_finds_what_it_was_shown() {
    let mut c = Console::new();
    let wanted = patterns(&["login:", "#"]);
    assert!(matches!(c.expect(2 * SECOND, 5, &wanted), Wait::Listen(LISTEN_NS)));
    assert!(matches!(c.expect(7, 5, &wanted), Wait::Listen(7)));
    c.show("log");
    assert!(matches!(c.expect(1, 5, &wanted), Wait::Listen(1)));
    c.show("in:");
    assert!(matches!(c.expect(0, 5, &wanted), Wait::Matched));
    c.show("\nmore\n");
    assert!(matches!(c.expect(0, 5, &wanted), Wait::Matched));
}

#[test]
fn received_bytes_lose_carriage_returns_and_bad_utf8() {
    let mut c = Console::new();
    c.receive(&b"a\r\nMARK\r\n\xff".to_vec());
    assert!(matches!(c.expect_marker(0, 5, "MARK"), Wait::Matched));
    match c.expect(0, 5, &patterns(&["zzz"])) {
        Wait::Expired(e) => assert_eq!(
            e.message,
            "timed out after 5s waiting for [\"zzz\"]; last output:\na\nMARK\n\u{fffd}"
        ),
        other => panic!("{other:?}"),
    }
}

#[test]
fn a_wait_expires() {
    let mut c = Console::new();
    for i in 0..30 {
        c.show(&format!("line {i}\n"));
    }
    let tail: Vec<String> = (10..30).map(|i| format!("line {i}")).collect();
    match c.expect(0, 8, &patterns(&["a\"b", "c"])) {
        Wait::Expired(e) => {
            assert_eq!(e.kind, ErrorKind::TimedOut);
            assert_eq!(
                e.message,
                format!(
                    "timed out after 8s waiting for {:?}; last output:\n{}",
                    ["a\"b", "c"],
                    tail.join("\n")
                )
            );
        }
        other => panic!("{other:?}"),
    }
    match c.expect_marker(0, 120, "M") {
        Wait::Expired(e) => assert!(e.message.starts_with("timed out after 120s waiting for marker \"M\"; ")),
        other => panic!("{other:?}"),
    }
    let e = c.closed(&patterns(&["x"]));
    assert_eq!(e.kind, ErrorKind::Closed);
    assert!(e.message.starts_with("qemu's console closed while waiting for [\"x\"]; last output:\nline 10\n"));
    let e = c.closed_before_marker("M");
    assert!(e.message.starts_with("qemu's console closed while waiting for marker \"M\"; last output:\n"));
}

#[test]
fn a_marker_is_a_line_of_its_own() {
    let mut c = Console::new();
    c.show("root@:~ # echo MARK\n");
    assert!(matches!(c.expect_marker(1, 5, "MARK"), Wait::Listen(1)));
    c.show(" MARK\n");
    assert!(matches!(c.expect_marker(1, 5, "MARK"), Wait::Listen(1)));
    c.show("MARK\n");
    assert!(matches!(c.expect_marker(1, 5, "MARK"), Wait::Matched));
}

#[test]
fn a_whole_session() {
    let mut s = Session::new(120, "hello.ko", "hello");
    assert_eq!(s.timeout(), 120);
    assert!(matches!(s.poll(SECOND), Directive::Listen(LISTEN_NS)));
    s.receive(&b"login: ".to_vec());
    assert_eq!(sent(s.poll(SECOND)), "root");
    assert_eq!(s.timeout(), PASSWORD_SECONDS);
    assert!(matches!(s.poll(3), Directive::Listen(3)));
    s.receive(&"Password:".as_bytes().to_vec());
    assert_eq!(sent(s.poll(3)), "");
    assert_eq!(sent(s.poll(3)), "echo KBUILD_MARK_BOOTED");
    assert_eq!(s.timeout(), 120);
    let steps = [
        ("BOOTED", "mount -t cd9660 /dev/cd0 /mnt && echo KBUILD_MARK_MOUNTED"),
        ("MOUNTED", "kldload /mnt/hello.ko && echo KBUILD_MARK_LOADED"),
        ("LOADED", "kldstat -n hello >/dev/null && echo KBUILD_MARK_PRESENT"),
        ("PRESENT", "kldunload hello && echo KBUILD_MARK_UNLOADED"),
        ("UNLOADED", "poweroff"),
    ];
    for (mark, command) in steps {
        assert!(matches!(s.poll(1), Directive::Listen(1)), "{mark}");
        s.receive(&format!("\r\nKBUILD_MARK_{mark}\r\n").into_bytes());
        assert_eq!(sent(s.poll(0)), command);
    }
    assert!(matches!(s.poll(1), Directive::Finish(Ok(()))));
}

#[test]
fn no_password_is_no_failure() {
    let mut s = Session::new(120, "hello.ko", "hello");
    s.receive(&"login:".as_bytes().to_vec());
    sent(s.poll(1));
    assert_eq!(sent(s.poll(0)), "echo KBUILD_MARK_BOOTED");
}

#[test]
fn an_echoed_command_is_not_taken_for_its_success() {
    let mut s = logged_in();
    for line in [
        "root@:~ # echo KBUILD_MARK_BOOTED\n",
        "root@:~ # kldload /mnt/hello.ko && echo KBUILD_MARK_LOADED\n",
    ] {
        s.receive(&line.as_bytes().to_vec());
        assert!(matches!(s.poll(1), Directive::Listen(1)));
    }
}

#[test]
fn a_step_without_its_marker_fails() {
    let mut s = logged_in();
    s.receive(&"\nKBUILD_MARK_LOADED\n".as_bytes().to_vec());
    let e = ended(s.poll(0));
    assert_eq!(e.kind, ErrorKind::TimedOut);
    assert_eq!(
        e.message,
        "timed out after 120s waiting for marker \"KBUILD_MARK_BOOTED\"; last output:\n\
         FreeBSD\nlogin: \nKBUILD_MARK_LOADED"
    );
}

#[test]
fn a_closed_console_fails_the_test() {
    let mut s = Session::new(120, "hello.ko", "hello");
    let e = ended(s.closed());
    assert_eq!(e.kind, ErrorKind::Closed);
    assert_eq!(
        e.message,
        "qemu's console closed while waiting for [\"login:\"]; last output:\n"
    );
    let e = ended(logged_in().closed());
    assert_eq!(
        e.message,
        "qemu's console closed while waiting for marker \"KBUILD_MARK_BOOTED\"; last output:\n\
         FreeBSD\nlogin: "
    );
}

#[test]
fn a_console_that_closes_before_the_password_is_still_written_to() {
    let mut s = Session::new(120, "hello.ko", "hello");
    s.receive(&"login:".as_bytes().to_vec());
    sent(s.poll(1));
    assert_eq!(sent(s.closed()), "echo KBUILD_MARK_BOOTED");
    assert_eq!(ended(s.closed()).kind, ErrorKind::Closed);
}

#[test]
fn marks_in_order() {
    let mut mark = Some(Mark::Booted);
    let mut texts = Vec::new();
    while let Some(m) = mark {
        texts.push(m.text());
        assert!(m.command("f.ko", "f").ends_with(&format!("echo {}", m.text())));
        mark = m.next();
    }
    assert_eq!(
        texts,
        [
            "KBUILD_MARK_BOOTED", "KBUILD_MARK_MOUNTED", "KBUILD_MARK_LOADED",
            "KBUILD_MARK_PRESENT", "KBUILD_MARK_UNLOADED",
        ]
    );
}

#[test]
fn a_refused_line_is_quoted() {
    let e = send_error("say \"x\"", "broken pipe");
    assert_eq!(e.summary(), "writing \"say \\\"x\\\"\" to qemu console: broken pipe");
}

#[test]
fn waiting_for_the_guest_to_power_off() {
    assert_eq!(POWEROFF_SECONDS, 30);
    assert_eq!(wait_with_timeout(true, false), Patience::Exited);
    assert_eq!(wait_with_timeout(true, true), Patience::Exited);
    assert_eq!(wait_with_timeout(false, true), Patience::GaveUp);
    assert_eq!(wait_with_timeout(false, false), Patience::Pause(POWEROFF_PAUSE_MS));
}

#[test]
fn a_panic_overrides_every_result() {
    let log: String = (0..50).map(|i| format!("{i}\n")).collect::<String>() + "panic: oh no\n";
    let tail: Vec<String> = (11..50).map(|i| i.to_string()).collect();
    let e = verdict_on_bytes(&log.as_bytes().to_vec(), "w/console.log", Ok(())).unwrap_err();
    assert_eq!(e.kind, ErrorKind::KernelPanic);
    assert_eq!(
        e.message,
        format!(
            "kernel panic detected in console output (see w/console.log):\n{}\npanic: oh no",
            tail.join("\n")
        )
    );
    let e = verdict_on_bytes(&log.as_bytes().to_vec(), "l", Err(Error::refused("x"))).unwrap_err();
    assert_eq!(e.kind, ErrorKind::KernelPanic);
}

#[test]
fn without_a_panic_the_result_stands() {
    assert!(verdict_on_bytes(&b"all fine, no panic".to_vec(), "l", Ok(())).is_ok());
    let e = verdict_on_bytes(&Vec::new(), "w/console.log", Err(Error::refused("late"))).unwrap_err();
    assert_eq!(e.summary(), "see full console log at w/console.log: late");
    assert_eq!(e.kind, ErrorKind::Io);
}

#[test]
fn a_panic_in_a_log_that_is_not_utf8_is_found() {
    let e = verdict_on_bytes(&b"a\n\xff\npanic: x\n".to_vec(), "l", Ok(())).unwrap_err();
    assert_eq!(e.kind, ErrorKind::KernelPanic);
    assert_eq!(
        e.message,
        "kernel panic detected in console output (see l):\na\n\u{fffd}\npanic: x"
    );
    assert!(verdict_on_bytes(&b"\xffpanic".to_vec(), "l", Ok(())).is_ok());
    assert!(verdict_on_bytes(&b"panic\xff:".to_vec(), "l", Ok(())).is_ok());
}

#[test]
fn a_character_split_over_two_reads_is_put_together() {
    let text = "a\u{e9}\u{20ac}\u{1f980}z";
    let bytes = text.as_bytes();
    for cut in 0..bytes.len() {
        for next in cut..bytes.len() {
            let mut c = Console::new();
            c.receive(&bytes[..cut].to_vec());
            c.receive(&bytes[cut..next].to_vec());
            c.receive(&bytes[next..].to_vec());
            assert!(matches!(c.expect(0, 5, &patterns(&[text])), Wait::Matched), "{cut} {next}");
        }
    }
    let mut c = Console::new();
    c.receive(&vec![0xc3]);
    c.receive(&vec![0xa9]);
    assert!(matches!(c.expect(0, 5, &patterns(&["\u{e9}"])), Wait::Matched));
}

#[test]
fn half_a_character_is_shown_as_a_replacement() {
    let mut c = Console::new();
    c.receive(&b"x\xe2\x82".to_vec());
    match c.expect(0, 5, &patterns(&["y"])) {
        Wait::Expired(e) => assert!(e.message.ends_with("\nx\u{fffd}"), "{}", e.message),
        other => panic!("{other:?}"),
    }
    c.receive(&b"\xac\xffz".to_vec());
    assert!(matches!(c.expect(0, 5, &patterns(&["x\u{20ac}\u{fffd}z"])), Wait::Matched));
}

#[test]
fn no_time_at_all_is_written_as_a_duration() {
    for (seconds, time) in [(0, "0ns"), (1, "1s"), (120, "120s")] {
        assert_eq!(format!("{:?}", std::time::Duration::from_secs(seconds)), time);
        match Console::new().expect(0, seconds, &patterns(&["x"])) {
            Wait::Expired(e) => {
                assert!(e.message.starts_with(&format!("timed out after {time} waiting for ")))
            }
            other => panic!("{other:?}"),
        }
    }
}

#[test]
fn a_logged_error_keeps_every_cause() {
    let e = verdict_on_bytes(&Vec::new(), "l", Err(send_error("root", "broken pipe"))).unwrap_err();
    assert_eq!(e.message, "see full console log at l");
    assert_eq!(e.causes, ["writing \"root\" to qemu console", "broken pipe"]);
}

#[test]
fn a_session_without_a_password_types_no_empty_line() {
    let mut s = Session::new(120, "m.ko", "m");
    let mut typed = Vec::new();
    s.receive(&b"login: ".to_vec());
    let mut left = SECOND;
    loop {
        match s.poll(left) {
            Directive::Send(line) => {
                left = if line == "root" { 0 } else { SECOND };
                if let Some((_, marker)) = line.rsplit_once("echo ") {
                    s.receive(&format!("\n{marker}\n").into_bytes());
                }
                typed.push(line);
            }
            Directive::Finish(result) => {
                assert!(result.is_ok());
                break;
            }
            other => panic!("{other:?}"),
        }
    }
    assert_eq!(
        typed,
        [
            "root",
            "echo KBUILD_MARK_BOOTED",
            "mount -t cd9660 /dev/cd0 /mnt && echo KBUILD_MARK_MOUNTED",
            "kldload /mnt/m.ko && echo KBUILD_MARK_LOADED",
            "kldstat -n m >/dev/null && echo KBUILD_MARK_PRESENT",
            "kldunload m && echo KBUILD_MARK_UNLOADED",
            "poweroff",
        ]
    );
}
