use nulldm::terminal::{clean_line, prompt_password, prompt_username, HiddenInput, PromptError, TermMode};

fn mode() -> TermMode {
    let mut cc = [0u8; 32];
    cc[0] = 3;
    cc[2] = 0x7f;
    TermMode {
        input_flags: 0x500,
        output_flags: 0x5,
        control_flags: 0xbf,
        local_flags: 0x8a3b,
        line: 0,
        control_chars: cc,
        input_speed: 15,
        output_speed: 15,
    }
}

const ECHO: u32 = 0o10;
const ECHONL: u32 = 0o100;

#[test]
fn clean_line_strips_terminators() {
    assert_eq!(clean_line("alice\n"), "alice");
    assert_eq!(clean_line("alice\r\n"), "alice");
    assert_eq!(clean_line("alice\n\r\n"), "alice");
    assert_eq!(clean_line("al\nice\n"), "al\nice");
    assert_eq!(clean_line(""), "");
    assert_eq!(clean_line("\n"), "");
}

#[test]
fn clean_line_honours_line_kill() {
    assert_eq!(clean_line("wrong\u{15}alice\n"), "alice");
    assert_eq!(clean_line("a\u{15}b\u{15}carol\n"), "carol");
    assert_eq!(clean_line("dave\u{15}\n"), "");
    assert_eq!(clean_line("ünï\u{15}cödé\r\n"), "cödé");
}

#[test]
fn username_prompt_cleans_or_passes_error() {
    assert_eq!(prompt_username(Ok("bob\u{15}alice\n".to_string())), Ok("alice".to_string()));
    assert_eq!(prompt_username(Err(PromptError::Read)), Err(PromptError::Read));
}

#[test]
fn hidden_mode_turns_off_echo_only() {
    let before = mode();
    let (guard, hidden) = HiddenInput::new(before, ECHO, ECHONL);
    assert_eq!(hidden.local_flags, (0x8a3b & !ECHO) | ECHONL);
    assert_eq!(hidden.local_flags & ECHO, 0);
    assert_eq!(hidden.control_chars, before.control_chars);
    assert_eq!(hidden.input_flags, before.input_flags);
    assert_eq!(guard.restore(), before);
}

#[test]
fn password_prompt_restores_mode_on_success() {
    let before = mode();
    let (guard, _) = HiddenInput::new(before, ECHO, ECHONL);
    let (after, line) = prompt_password(guard, Ok("hunter2\n".to_string()));
    assert_eq!(after, before);
    assert_eq!(line, Ok("hunter2".to_string()));
}

#[test]
fn password_prompt_restores_mode_on_error() {
    let before = mode();
    let (guard, _) = HiddenInput::new(before, ECHO, ECHONL);
    let (after, line) = prompt_password(guard, Err(PromptError::Read));
    assert_eq!(after, before);
    assert_eq!(line, Err(PromptError::Read));
}
