use nulldm::console::{console_path, ConsoleAction, ConsoleEvent, ConsoleSwitch, OpenMode, VtChangeError};

#[test]
fn paths_in_order() {
    assert_eq!(console_path(0), Some("/dev/tty"));
    assert_eq!(console_path(1), Some("/dev/tty0"));
    assert_eq!(console_path(2), Some("/dev/vc/0"));
    assert_eq!(console_path(3), Some("/dev/console"));
    assert_eq!(console_path(4), None);
}

#[test]
fn first_path_console_switches() {
    let (s, a) = ConsoleSwitch::start();
    assert_eq!(a, ConsoleAction::Open { close: None, path: 0, mode: OpenMode::ReadWrite });
    let (s, a) = s.setvt(ConsoleEvent::Opened { fd: 5, is_console: true });
    assert_eq!(a, ConsoleAction::Activate { fd: 5 });
    let (s, a) = s.setvt(ConsoleEvent::Done { ok: true });
    assert_eq!(a, ConsoleAction::WaitActive { fd: 5 });
    let (s, a) = s.setvt(ConsoleEvent::Done { ok: true });
    assert_eq!(a, ConsoleAction::Close { fd: 5 });
    let (_, a) = s.setvt(ConsoleEvent::Done { ok: true });
    assert_eq!(a, ConsoleAction::Finish);
}

#[test]
fn permission_denied_tries_next_mode_then_path() {
    let (s, _) = ConsoleSwitch::start();
    let (s, a) = s.setvt(ConsoleEvent::PermissionDenied);
    assert_eq!(a, ConsoleAction::Open { close: None, path: 0, mode: OpenMode::ReadOnly });
    let (s, a) = s.setvt(ConsoleEvent::PermissionDenied);
    assert_eq!(a, ConsoleAction::Open { close: None, path: 0, mode: OpenMode::WriteOnly });
    let (s, a) = s.setvt(ConsoleEvent::PermissionDenied);
    assert_eq!(a, ConsoleAction::Open { close: None, path: 1, mode: OpenMode::ReadWrite });
    let (_, a) = s.setvt(ConsoleEvent::Opened { fd: 9, is_console: false });
    assert_eq!(a, ConsoleAction::Open { close: Some(9), path: 2, mode: OpenMode::ReadWrite });
}

#[test]
fn falls_back_to_standard_descriptors() {
    let (mut s, _) = ConsoleSwitch::start();
    for _ in 0..3 {
        s = s.setvt(ConsoleEvent::OpenFailed).0;
    }
    let (s, a) = s.setvt(ConsoleEvent::OpenFailed);
    assert_eq!(a, ConsoleAction::Check { close: None, fd: 0 });
    let (s, a) = s.setvt(ConsoleEvent::Checked { is_console: false });
    assert_eq!(a, ConsoleAction::Check { close: None, fd: 1 });
    let (_, a) = s.setvt(ConsoleEvent::Checked { is_console: true });
    assert_eq!(a, ConsoleAction::Activate { fd: 1 });
}

#[test]
fn no_console_found() {
    let (mut s, _) = ConsoleSwitch::start();
    for _ in 0..4 {
        s = s.setvt(ConsoleEvent::OpenFailed).0;
    }
    for _ in 0..2 {
        s = s.setvt(ConsoleEvent::Checked { is_console: false }).0;
    }
    let (_, a) = s.setvt(ConsoleEvent::Checked { is_console: false });
    assert_eq!(a, ConsoleAction::Fail { error: VtChangeError::GetFD });
}

#[test]
fn each_stage_has_its_error() {
    let start = || ConsoleSwitch::start().0.setvt(ConsoleEvent::Opened { fd: 4, is_console: true }).0;
    let (_, a) = start().setvt(ConsoleEvent::Done { ok: false });
    assert_eq!(a, ConsoleAction::Fail { error: VtChangeError::Activate });
    let (_, a) = start().setvt(ConsoleEvent::Done { ok: true }).0.setvt(ConsoleEvent::Done { ok: false });
    assert_eq!(a, ConsoleAction::Fail { error: VtChangeError::WaitActive });
    let s = start().setvt(ConsoleEvent::Done { ok: true }).0.setvt(ConsoleEvent::Done { ok: true }).0;
    let (s, a) = s.setvt(ConsoleEvent::Done { ok: false });
    assert_eq!(a, ConsoleAction::Fail { error: VtChangeError::Close });
    let (_, a) = s.setvt(ConsoleEvent::Done { ok: true });
    assert_eq!(a, ConsoleAction::Fail { error: VtChangeError::Close });
}
