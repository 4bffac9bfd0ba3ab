use kbuild::module::{
    dispatch, hello, kernel_maxver, Event, KernelDepend, EOPNOTSUPP, MOD_LOAD, MOD_QUIESCE,
    MOD_SHUTDOWN, MOD_UNLOAD,
};

#[test]
fn events_by_number() {
    assert_eq!(Event::from_raw(MOD_LOAD), Some(Event::Load));
    assert_eq!(Event::from_raw(MOD_UNLOAD), Some(Event::Unload));
    assert_eq!(Event::from_raw(MOD_SHUTDOWN), Some(Event::Shutdown));
    assert_eq!(Event::from_raw(MOD_QUIESCE), Some(Event::Quiesce));
    for cmd in [-1, 4, 100, i32::MIN, i32::MAX] {
        assert_eq!(Event::from_raw(cmd), None);
    }
}

#[test]
fn unknown_events_are_not_supported() {
    assert_eq!(EOPNOTSUPP, 45);
    assert_eq!(dispatch(|_| 0, 4), 45);
    assert_eq!(dispatch(|_| 0, -1), 45);
    assert_eq!(dispatch(|_| 0, 3), 0);
    assert_eq!(dispatch(|e| if e == Event::Unload { 16 } else { 0 }, 1), 16);
}

#[test]
fn a_release_ends_before_the_next() {
    assert_eq!(kernel_maxver(1_500_068), 1_599_999);
    assert_eq!(kernel_maxver(1_600_001), 1_699_999);
    assert_eq!(kernel_maxver(1_500_000), 1_499_999);
    assert_eq!(kernel_maxver(1), 99_999);
    assert_eq!(kernel_maxver(2_147_500_001), 2_147_599_999_u32 as i32);
}

#[test]
fn a_module_depends_on_its_kernel() {
    let depend = KernelDepend::on(1_501_000);
    assert_eq!(depend.minimum, 1_501_000);
    assert_eq!(depend.preferred, 1_501_000);
    assert_eq!(depend.maximum, 1_599_999);
}

#[test]
fn the_hello_module_prints_on_load_and_unload() {
    assert_eq!(hello(Event::Load).line, Some("hello: loaded"));
    assert_eq!(hello(Event::Unload).line, Some("hello: unloaded"));
    for event in [Event::Shutdown, Event::Quiesce] {
        assert_eq!(hello(event).line, None);
    }
    for event in [Event::Load, Event::Unload, Event::Shutdown, Event::Quiesce] {
        assert_eq!(hello(event).status, 0);
    }
}
