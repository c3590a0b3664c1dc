//! Virtual console activation: the search for a console device and the
//! switch to the target console, as decisions on the outcome of each device
//! operation.
use vstd::prelude::*;

verus! {

/// Number of well-known console device paths, tried in order.
pub const CONSOLE_PATHS: usize = 4;

/// Number of standard descriptors probed when no path gives a console.
pub const STD_FDS: i32 = 3;

/// Stage at which switching the console failed.
#[derive(Clone, Copy, Debug, PartialEq, Eq, Structural)]
pub enum VtChangeError {
    Activate,
    WaitActive,
    Close,
    OpenConsole,
    NotAConsole,
    GetFD,
}

/// Access mode of an open attempt; a path is tried in this order.
#[derive(Clone, Copy, Debug, PartialEq, Eq, Structural)]
pub enum OpenMode {
    ReadWrite,
    ReadOnly,
    WriteOnly,
}

/// The well-known console device paths, by index.
pub fn console_path(index: usize) -> (r: Option<&'static str>)
    ensures
        index == 0 ==> r == Some("/dev/tty"),
        index == 1 ==> r == Some("/dev/tty0"),
        index == 2 ==> r == Some("/dev/vc/0"),
        index == 3 ==> r == Some("/dev/console"),
        index >= CONSOLE_PATHS ==> r is None,
{
    if index == 0 {
        Some("/dev/tty")
    } else if index == 1 {
        Some("/dev/tty0")
    } else if index == 2 {
        Some("/dev/vc/0")
    } else if index == 3 {
        Some("/dev/console")
    } else {
        None
    }
}

/// Where the switch stands.
#[derive(Clone, Copy, Debug, PartialEq, Eq, Structural)]
pub enum ConsolePhase {
    /// Opening path `path` in `mode`.
    Opening { path: usize, mode: OpenMode },
    /// Asking whether standard descriptor `fd` is a console.
    Checking { fd: i32 },
    /// Asking the console on `fd` to switch.
    Activating { fd: i32 },
    /// Waiting until the switch is done.
    WaitingActive { fd: i32 },
    /// Closing `fd`.
    Closing { fd: i32 },
    Done,
    Failed { error: VtChangeError },
}

/// The outcome of the operation last requested.
#[derive(Clone, Copy, Debug, PartialEq, Eq, Structural)]
pub enum ConsoleEvent {
    /// The path was opened as `fd`; whether the device is a console.
    Opened { fd: i32, is_console: bool },
    /// Opening the path was refused for lack of permission.
    PermissionDenied,
    /// Opening the path failed otherwise.
    OpenFailed,
    /// Whether the descriptor asked about is a console.
    Checked { is_console: bool },
    /// Whether the request (activate, wait, close) succeeded.
    Done { ok: bool },
}

/// The next operation.
#[derive(Clone, Copy, Debug, PartialEq, Eq, Structural)]
pub enum ConsoleAction {
    /// Close `close` if given (a device that is not a console), then open
    /// path `path` in `mode`.
    Open { close: Option<i32>, path: usize, mode: OpenMode },
    /// Close `close` if given, then ask whether `fd` is a console.
    Check { close: Option<i32>, fd: i32 },
    /// Ask the console on `fd` to switch to the target console.
    Activate { fd: i32 },
    /// Wait on `fd` until the target console is active.
    WaitActive { fd: i32 },
    /// Close `fd`.
    Close { fd: i32 },
    /// The switch is done.
    Finish,
    /// The switch failed at this stage.
    Fail { error: VtChangeError },
}

pub open spec fn next_mode(m: OpenMode) -> Option<OpenMode> {
    match m {
        OpenMode::ReadWrite => Some(OpenMode::ReadOnly),
        OpenMode::ReadOnly => Some(OpenMode::WriteOnly),
        OpenMode::WriteOnly => None,
    }
}

/// Moving on from path `path` (after closing `close`, if given): the next
/// path in its first mode, or the first standard descriptor.
pub open spec fn next_path(path: usize, close: Option<i32>) -> (ConsolePhase, ConsoleAction) {
    if path + 1 < CONSOLE_PATHS {
        (
            ConsolePhase::Opening { path: (path + 1) as usize, mode: OpenMode::ReadWrite },
            ConsoleAction::Open { close, path: (path + 1) as usize, mode: OpenMode::ReadWrite },
        )
    } else {
        (ConsolePhase::Checking { fd: 0 }, ConsoleAction::Check { close, fd: 0 })
    }
}

pub open spec fn fail_with(error: VtChangeError) -> (ConsolePhase, ConsoleAction) {
    (ConsolePhase::Failed { error }, ConsoleAction::Fail { error })
}

/// The step of the switch for each phase and outcome. A device that opens
/// but is not a console is closed and the next path tried; a permission
/// refusal tries the next mode of the same path; any other open failure
/// tries the next path. When no path gives a console the standard
/// descriptors are asked in order. Once a console is found it is switched,
/// waited on and closed, each failure reported with its own stage.
pub open spec fn console_step(p: ConsolePhase, e: ConsoleEvent) -> (ConsolePhase, ConsoleAction) {
    match p {
        ConsolePhase::Opening { path, mode } => match e {
            ConsoleEvent::Opened { fd, is_console } => if is_console {
                (ConsolePhase::Activating { fd }, ConsoleAction::Activate { fd })
            } else {
                next_path(path, Some(fd))
            },
            ConsoleEvent::PermissionDenied => match next_mode(mode) {
                Some(m) => (ConsolePhase::Opening { path, mode: m }, ConsoleAction::Open { close: None, path, mode: m }),
                None => next_path(path, None),
            },
            _ => next_path(path, None),
        },
        ConsolePhase::Checking { fd } => match e {
            ConsoleEvent::Checked { is_console } => if is_console {
                (ConsolePhase::Activating { fd }, ConsoleAction::Activate { fd })
            } else if fd + 1 < STD_FDS {
                (ConsolePhase::Checking { fd: (fd + 1) as i32 }, ConsoleAction::Check { close: None, fd: (fd + 1) as i32 })
            } else {
                fail_with(VtChangeError::GetFD)
            },
            _ => fail_with(VtChangeError::GetFD),
        },
        ConsolePhase::Activating { fd } => match e {
            ConsoleEvent::Done { ok: true } => (ConsolePhase::WaitingActive { fd }, ConsoleAction::WaitActive { fd }),
            _ => fail_with(VtChangeError::Activate),
        },
        ConsolePhase::WaitingActive { fd } => match e {
            ConsoleEvent::Done { ok: true } => (ConsolePhase::Closing { fd }, ConsoleAction::Close { fd }),
            _ => fail_with(VtChangeError::WaitActive),
        },
        ConsolePhase::Closing { fd } => match e {
            ConsoleEvent::Done { ok: true } => (ConsolePhase::Done, ConsoleAction::Finish),
            _ => fail_with(VtChangeError::Close),
        },
        ConsolePhase::Done => (ConsolePhase::Done, ConsoleAction::Finish),
        ConsolePhase::Failed { error } => fail_with(error),
    }
}

pub open spec fn phase_ok(p: ConsolePhase) -> bool {
    match p {
        ConsolePhase::Opening { path, .. } => path < CONSOLE_PATHS,
        ConsolePhase::Checking { fd } => 0 <= fd < STD_FDS,
        _ => true,
    }
}

/// The search for a console and the switch to the target console.
pub struct ConsoleSwitch {
    pub phase: ConsolePhase,
}

impl ConsoleSwitch {
    pub open spec fn wf(&self) -> bool {
        phase_ok(self.phase)
    }

    /// Starts with the first path in its first mode.
    pub fn start() -> (r: (ConsoleSwitch, ConsoleAction))
        ensures
            r.0.wf(),
            r.0.phase == (ConsolePhase::Opening { path: 0, mode: OpenMode::ReadWrite }),
            r.1 == (ConsoleAction::Open { close: None, path: 0, mode: OpenMode::ReadWrite }),
    {
        (
            ConsoleSwitch { phase: ConsolePhase::Opening { path: 0, mode: OpenMode::ReadWrite } },
            ConsoleAction::Open { close: None, path: 0, mode: OpenMode::ReadWrite },
        )
    }

    fn next_path(path: usize, close: Option<i32>) -> (r: (ConsoleSwitch, ConsoleAction))
        requires
            path < CONSOLE_PATHS,
        ensures
            r.0.wf(),
            (r.0.phase, r.1) == next_path(path, close),
    {
        if path + 1 < CONSOLE_PATHS {
            (
                ConsoleSwitch { phase: ConsolePhase::Opening { path: path + 1, mode: OpenMode::ReadWrite } },
                ConsoleAction::Open { close, path: path + 1, mode: OpenMode::ReadWrite },
            )
        } else {
            (ConsoleSwitch { phase: ConsolePhase::Checking { fd: 0 } }, ConsoleAction::Check { close, fd: 0 })
        }
    }

    fn fail(error: VtChangeError) -> (r: (ConsoleSwitch, ConsoleAction))
        ensures
            r.0.wf(),
            (r.0.phase, r.1) == fail_with(error),
    {
        (ConsoleSwitch { phase: ConsolePhase::Failed { error } }, ConsoleAction::Fail { error })
    }

    /// Feeds the outcome of the operation last requested and gives the next.
    pub fn setvt(self, event: ConsoleEvent) -> (r: (ConsoleSwitch, ConsoleAction))
        requires
            self.wf(),
        ensures
            r.0.wf(),
            (r.0.phase, r.1) == console_step(self.phase, event),
    {
        match self.phase {
            ConsolePhase::Opening { path, mode } => match event {
                ConsoleEvent::Opened { fd, is_console } => {
                    if is_console {
                        (ConsoleSwitch { phase: ConsolePhase::Activating { fd } }, ConsoleAction::Activate { fd })
                    } else {
                        Self::next_path(path, Some(fd))
                    }
                },
                ConsoleEvent::PermissionDenied => {
                    let next = match mode {
                        OpenMode::ReadWrite => Some(OpenMode::ReadOnly),
                        OpenMode::ReadOnly => Some(OpenMode::WriteOnly),
                        OpenMode::WriteOnly => None,
                    };
                    match next {
                        Some(m) => (
                            ConsoleSwitch { phase: ConsolePhase::Opening { path, mode: m } },
                            ConsoleAction::Open { close: None, path, mode: m },
                        ),
                        None => Self::next_path(path, None),
                    }
                },
                _ => Self::next_path(path, None),
            },
            ConsolePhase::Checking { fd } => match event {
                ConsoleEvent::Checked { is_console } => {
                    if is_console {
                        (ConsoleSwitch { phase: ConsolePhase::Activating { fd } }, ConsoleAction::Activate { fd })
                    } else if fd + 1 < STD_FDS {
                        (
                            ConsoleSwitch { phase: ConsolePhase::Checking { fd: fd + 1 } },
                            ConsoleAction::Check { close: None, fd: fd + 1 },
                        )
                    } else {
                        Self::fail(VtChangeError::GetFD)
                    }
                },
                _ => Self::fail(VtChangeError::GetFD),
            },
            ConsolePhase::Activating { fd } => match event {
                ConsoleEvent::Done { ok: true } => (
                    ConsoleSwitch { phase: ConsolePhase::WaitingActive { fd } },
                    ConsoleAction::WaitActive { fd },
                ),
                _ => Self::fail(VtChangeError::Activate),
            },
            ConsolePhase::WaitingActive { fd } => match event {
                ConsoleEvent::Done { ok: true } => (
                    ConsoleSwitch { phase: ConsolePhase::Closing { fd } },
                    ConsoleAction::Close { fd },
                ),
                _ => Self::fail(VtChangeError::WaitActive),
            },
            ConsolePhase::Closing { fd } => match event {
                ConsoleEvent::Done { ok: true } => (ConsoleSwitch { phase: ConsolePhase::Done }, ConsoleAction::Finish),
                _ => Self::fail(VtChangeError::Close),
            },
            ConsolePhase::Done => (ConsoleSwitch { phase: ConsolePhase::Done }, ConsoleAction::Finish),
            ConsolePhase::Failed { error } => Self::fail(error),
        }
    }
}

} // verus!
