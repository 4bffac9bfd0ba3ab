//! The life of a kernel module: the events that the kernel sends it, what it
//! answers, and which kernels it loads on (`sys/sys/module.h`).

use vstd::prelude::*;

verus! {

/// An event of `modeventtype_t`.
#[derive(Debug, Clone, Copy, PartialEq, Eq, Structural)]
pub enum Event {
    Load,
    Unload,
    Shutdown,
    Quiesce,
}

/// `MOD_LOAD`
pub const MOD_LOAD: i32 = 0;

/// `MOD_UNLOAD`
pub const MOD_UNLOAD: i32 = 1;

/// `MOD_SHUTDOWN`
pub const MOD_SHUTDOWN: i32 = 2;

/// `MOD_QUIESCE`
pub const MOD_QUIESCE: i32 = 3;

/// `EOPNOTSUPP` (`sys/sys/errno.h`): the answer to an event that a module does not
/// know.
pub const EOPNOTSUPP: i32 = 45;

/// How many versions a major release has: `__FreeBSD_version` is the major release
/// times this, plus the version within it.
pub const RELEASE_SPAN: u32 = 100000;

/// The number that the kernel sends for an event.
pub open spec fn raw_of(event: Event) -> i32 {
    match event {
        Event::Load => MOD_LOAD,
        Event::Unload => MOD_UNLOAD,
        Event::Shutdown => MOD_SHUTDOWN,
        Event::Quiesce => MOD_QUIESCE,
    }
}

impl Event {
    /// The event that the kernel sends as `cmd`; `None` for a number that is none
    /// of the four.
    pub fn from_raw(cmd: i32) -> (r: Option<Event>)
        ensures
            match r {
                Some(event) => cmd == raw_of(event),
                None => forall|event: Event| cmd != #[trigger] raw_of(event),
            },
    {
        if cmd == MOD_LOAD {
            Some(Event::Load)
        } else if cmd == MOD_UNLOAD {
            Some(Event::Unload)
        } else if cmd == MOD_SHUTDOWN {
            Some(Event::Shutdown)
        } else if cmd == MOD_QUIESCE {
            Some(Event::Quiesce)
        } else {
            None
        }
    }
}

/// A module's answer to what the kernel sends as `cmd`: that of `handler` to the
/// event, or `EOPNOTSUPP` where there is no such event.
pub fn dispatch<F: Fn(Event) -> i32>(handler: F, cmd: i32) -> (r: i32)
    requires
        forall|event: Event| cmd == raw_of(event) ==> #[trigger] handler.requires((event,)),
    ensures
        forall|event: Event|
            cmd == #[trigger] raw_of(event) ==> handler.ensures((event,), r),
        (forall|event: Event| cmd != #[trigger] raw_of(event)) ==> r == EOPNOTSUPP,
{
    match Event::from_raw(cmd) {
        Some(event) => {
            let r: i32 = handler(event);
            proof {
                assert forall|other: Event| cmd == #[trigger] raw_of(other) implies handler.ensures(
                    (other,),
                    r,
                ) by {
                    lemma_raw_is_injective(event, other);
                }
            }
            r
        },
        None => EOPNOTSUPP,
    }
}

/// No two events are sent as the same number.
pub proof fn lemma_raw_is_injective(a: Event, b: Event)
    requires
        raw_of(a) == raw_of(b),
    ensures
        a == b,
{
}

/// The least multiple of `unit` that is not below `x`.
pub open spec fn roundup(x: int, unit: int) -> int
    recommends
        unit > 0,
{
    (x + (unit - 1)) / unit * unit
}

/// The 32 bits of a number below 2^32, read as a signed number.
pub open spec fn as_c_int(x: int) -> int {
    if x <= i32::MAX {
        x
    } else {
        x - 0x1_0000_0000
    }
}

/// `MODULE_KERNEL_MAXVER` for a module built on the kernel `version`: the last
/// version of the major release that it belongs to.
pub fn kernel_maxver(version: u32) -> (r: i32)
    requires
        0 < version,
        roundup(version as int, RELEASE_SPAN as int) <= u32::MAX,
    ensures
        r == as_c_int(roundup(version as int, RELEASE_SPAN as int) - 1),
{
    let releases: u32 = (version - 1) / RELEASE_SPAN + 1;
    assert(releases == (version + (RELEASE_SPAN - 1)) / RELEASE_SPAN as int);
    let last: u32 = releases * RELEASE_SPAN - 1;
    assert(last <= 0x7fff_ffff ==> last as i32 == last) by (bit_vector);
    assert(last > 0x7fff_ffff ==> last as i32 == last - 0x1_0000_0000) by (bit_vector);
    last as i32
}

/// The kernel versions that a module depends on (`struct mod_depend`).
#[derive(Debug, Clone, Copy, PartialEq, Eq, Structural)]
pub struct KernelDepend {
    pub minimum: i32,
    pub preferred: i32,
    pub maximum: i32,
}

impl KernelDepend {
    /// Whether a module with this dependency loads on the kernel `version`.
    pub open spec fn admits(self, version: int) -> bool {
        self.minimum <= version <= self.maximum
    }

    /// The dependency of a module that was built on the kernel `version`:
    /// `MODULE_DEPEND(name, kernel, __FreeBSD_version, __FreeBSD_version,
    /// MODULE_KERNEL_MAXVER)`.
    pub fn on(version: u32) -> (r: KernelDepend)
        requires
            0 < version,
            roundup(version as int, RELEASE_SPAN as int) <= u32::MAX,
        ensures
            r == kernel_depend(version),
    {
        assert(version <= 0x7fff_ffff ==> version as i32 == version) by (bit_vector);
        assert(version > 0x7fff_ffff ==> version as i32 == version - 0x1_0000_0000)
            by (bit_vector);
        KernelDepend {
            minimum: version as i32,
            preferred: version as i32,
            maximum: kernel_maxver(version),
        }
    }
}

/// The dependency of a module that was built on the kernel `version`.
pub open spec fn kernel_depend(version: u32) -> KernelDepend {
    KernelDepend {
        minimum: as_c_int(version as int) as i32,
        preferred: as_c_int(version as int) as i32,
        maximum: as_c_int(roundup(version as int, RELEASE_SPAN as int) - 1) as i32,
    }
}

/// A module built on version `x` of a major release loads on every version `y >= x`
/// of that release, and on no other kernel.
pub proof fn module_loads_within_its_release(built: u32, running: int)
    requires
        built % RELEASE_SPAN != 0,
        roundup(built as int, RELEASE_SPAN as int) - 1 <= i32::MAX,
    ensures
        kernel_depend(built).admits(running) <==> running >= built && running
            / RELEASE_SPAN as int == built as int / RELEASE_SPAN as int,
{
    let span = RELEASE_SPAN as int;
    let b = built as int;
    assert(roundup(b, span) == (b / span + 1) * span) by (nonlinear_arith)
        requires
            span == 100000,
            b >= 0,
            b % span != 0,
            roundup(b, span) == (b + (span - 1)) / span * span,
    ;
}

/// The numbers that the kernel sends and gets.
pub proof fn events_have_the_kernel_s_numbers()
    ensures
        raw_of(Event::Load) == 0,
        raw_of(Event::Unload) == 1,
        raw_of(Event::Shutdown) == 2,
        raw_of(Event::Quiesce) == 3,
        EOPNOTSUPP == 45,
{
}

/// Rounding up gives the least multiple that is not below a number.
pub proof fn rounding_up_gives_the_next_multiple(x: int, unit: int)
    requires
        unit > 0,
    ensures
        x <= roundup(x, unit) < x + unit,
        roundup(x, unit) % unit == 0,
{
    let y = x + (unit - 1);
    let q = y / unit;
    assert(q * unit <= y < q * unit + unit && (q * unit) % unit == 0) by (nonlinear_arith)
        requires
            unit > 0,
            q == y / unit,
    ;
}

/// A number below 2^32 and the C `int` with its bits differ by a multiple of 2^32.
pub proof fn a_c_int_has_the_same_bits(x: int)
    requires
        0 <= x <= u32::MAX,
    ensures
        i32::MIN <= as_c_int(x) <= i32::MAX,
        (x - as_c_int(x)) % 0x1_0000_0000 == 0,
{
}

/// A module that was built on a version of a major release depends on that version at least,
/// prefers it, and loads up to the last version of the release: for `major * 100000 + minor`
/// that is `major * 100000 + 99999`.
pub proof fn a_module_depends_on_its_release(major: u32, minor: u32)
    requires
        major < 20000,
        0 < minor < 100000,
    ensures
        ({
            let d = kernel_depend((major * 100000 + minor) as u32);
            &&& d.minimum == major * 100000 + minor
            &&& d.preferred == major * 100000 + minor
            &&& d.maximum == major * 100000 + 99999
        }),
{
    let version = major * 100000 + minor;
    assert(version <= i32::MAX);
    assert((version + 99999) / 100000 == major + 1);
    assert(roundup(version, 100000) == (major + 1) * 100000);
}

/// A module that was built on the very first version of a major release loads nowhere: the
/// last version that it admits is the one before.
pub proof fn a_module_of_a_first_version_loads_nowhere(major: u32, running: int)
    requires
        0 < major < 20000,
    ensures
        !kernel_depend((major * 100000) as u32).admits(running),
{
    let version = major * 100000;
    assert((version + 99999) / 100000 == major as int);
    assert(roundup(version, 100000) == version);
}

/// What a module does about an event.
#[derive(Debug, Clone, Copy)]
pub struct Reaction {
    /// The line that it prints, if any.
    pub line: Option<&'static str>,
    /// What it returns: 0, or a number of `sys/errno.h`.
    pub status: i32,
}

/// The smallest module there is: it says when it comes and goes, and never fails.
pub fn hello(event: Event) -> (r: Reaction)
    ensures
        r.status == 0,
        match event {
            Event::Load => r.line matches Some(l) && l@ == "hello: loaded"@,
            Event::Unload => r.line matches Some(l) && l@ == "hello: unloaded"@,
            Event::Shutdown => r.line is None,
            Event::Quiesce => r.line is None,
        },
{
    match event {
        Event::Load => Reaction { line: Some("hello: loaded"), status: 0 },
        Event::Unload => Reaction { line: Some("hello: unloaded"), status: 0 },
        Event::Shutdown => Reaction { line: None, status: 0 },
        Event::Quiesce => Reaction { line: None, status: 0 },
    }
}

} // verus!
