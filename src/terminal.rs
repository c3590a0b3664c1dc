//! Line discipline of the credential prompts: cleaning of a raw line and the
//! scoped hidden-input mode.
use vstd::prelude::*;

verus! {

/// The line-kill control character (Ctrl-U): text before it is discarded.
pub const LINE_KILL: char = '\u{15}';

pub open spec fn is_terminator(c: char) -> bool {
    c == '\n' || c == '\r'
}

/// The line with every trailing newline and carriage return removed.
pub open spec fn strip_terminators(s: Seq<char>) -> Seq<char>
    decreases s.len(),
{
    if s.len() > 0 && is_terminator(s.last()) {
        strip_terminators(s.drop_last())
    } else {
        s
    }
}

/// The text after the last line-kill character (all of it if there is none).
pub open spec fn after_line_kill(s: Seq<char>) -> Seq<char>
    decreases s.len(),
{
    if s.len() == 0 {
        s
    } else if s.last() == LINE_KILL {
        Seq::empty()
    } else {
        after_line_kill(s.drop_last()).push(s.last())
    }
}

/// What a prompt hands back for the raw line read from the console.
pub open spec fn cleaned(s: Seq<char>) -> Seq<char> {
    after_line_kill(strip_terminators(s))
}

/// Relies on `String::from_iter`: the string holds exactly the given characters.
#[verifier::external_body]
fn string_from_chars(v: &Vec<char>) -> (r: String)
    ensures
        r@ == v@,
{
    String::from_iter(v.iter())
}

fn chars_of(s: &str) -> (r: Vec<char>)
    ensures
        r@ == s@,
{
    let mut v: Vec<char> = Vec::new();
    for c in it: s.chars()
        invariant
            v@ == it.seq().take(it.index() as int),
    {
        v.push(c);
    }
    v
}

/// Removes the line terminators and everything up to the last line-kill
/// character.
pub fn clean_line(raw: &str) -> (r: String)
    ensures
        r@ == cleaned(raw@),
{
    let chars = chars_of(raw);
    let mut end: usize = chars.len();
    assert(chars@ =~= chars@.take(chars@.len() as int));
    while end > 0 && (chars[end - 1] == '\n' || chars[end - 1] == '\r')
        invariant
            end <= chars.len(),
            strip_terminators(chars@) == strip_terminators(chars@.take(end as int)),
        decreases end,
    {
        assert(chars@.take(end as int).drop_last() =~= chars@.take(end - 1));
        end = end - 1;
    }
    assert(strip_terminators(chars@.take(end as int)) == chars@.take(end as int));
    let mut start: usize = end;
    while start > 0 && chars[start - 1] != LINE_KILL
        invariant
            start <= end <= chars.len(),
            after_line_kill(chars@.take(end as int)) == after_line_kill(chars@.take(start as int))
                + chars@.subrange(start as int, end as int),
        decreases start,
    {
        let ghost t = chars@.take(start as int);
        assert(t.drop_last() =~= chars@.take(start - 1));
        assert(chars@.subrange(start - 1, end as int) =~= seq![t.last()] + chars@.subrange(
            start as int,
            end as int,
        ));
        assert(after_line_kill(chars@.take(start - 1)).push(t.last()) =~= after_line_kill(
            chars@.take(start - 1),
        ) + seq![t.last()]);
        start = start - 1;
    }
    assert(after_line_kill(chars@.take(start as int)) =~= Seq::<char>::empty());
    let mut out: Vec<char> = Vec::new();
    let mut i: usize = start;
    while i < end
        invariant
            start <= i <= end <= chars.len(),
            out@ =~= chars@.subrange(start as int, i as int),
        decreases end - i,
    {
        out.push(chars[i]);
        i = i + 1;
    }
    assert(after_line_kill(chars@.take(end as int)) =~= out@);
    string_from_chars(&out)
}

/// Why a prompt produced no line.
#[derive(Clone, Copy, Debug, PartialEq, Eq)]
pub enum PromptError {
    /// The console device could not be opened.
    Open,
    /// The prompt text could not be written.
    Write,
    /// The line-discipline settings could not be read or changed.
    Mode,
    /// The line could not be read.
    Read,
}

/// The console's line-discipline settings, field for field.
#[derive(Clone, Copy, Debug, PartialEq, Eq)]
pub struct TermMode {
    pub input_flags: u32,
    pub output_flags: u32,
    pub control_flags: u32,
    pub local_flags: u32,
    pub line: u8,
    pub control_chars: [u8; 32],
    pub input_speed: u32,
    pub output_speed: u32,
}

/// The settings used while a hidden line is read: character echo off,
/// newline echo on, everything else as before.
pub open spec fn hidden_of(m: TermMode, echo: u32, echo_newline: u32) -> TermMode {
    TermMode { local_flags: (m.local_flags & !echo) | echo_newline, ..m }
}

/// Guard of a hidden read: holds the settings captured before it.
pub struct HiddenInput {
    pub saved: TermMode,
}

impl HiddenInput {
    /// Captures `current` and gives the settings to apply for the hidden read.
    pub fn new(current: TermMode, echo: u32, echo_newline: u32) -> (r: (HiddenInput, TermMode))
        ensures
            r.0.saved == current,
            r.1 == hidden_of(current, echo, echo_newline),
    {
        let hidden = TermMode {
            input_flags: current.input_flags,
            output_flags: current.output_flags,
            control_flags: current.control_flags,
            local_flags: (current.local_flags & !echo) | echo_newline,
            line: current.line,
            control_chars: current.control_chars,
            input_speed: current.input_speed,
            output_speed: current.output_speed,
        };
        (HiddenInput { saved: current }, hidden)
    }

    /// Ends the hidden read: gives back the settings to restore.
    pub fn restore(self) -> (r: TermMode)
        ensures
            r == self.saved,
    {
        self.saved
    }
}

/// What a prompt hands back for the outcome of reading one line.
pub open spec fn prompt_result(read: Result<String, PromptError>) -> Result<Seq<char>, PromptError> {
    match read {
        Ok(line) => Ok(cleaned(line@)),
        Err(e) => Err(e),
    }
}

pub open spec fn view_result(r: Result<String, PromptError>) -> Result<Seq<char>, PromptError> {
    match r {
        Ok(line) => Ok(line@),
        Err(e) => Err(e),
    }
}

/// Visible prompt: the line read, cleaned; a failed read is passed on.
pub fn prompt_username(read: Result<String, PromptError>) -> (r: Result<String, PromptError>)
    ensures
        view_result(r) == prompt_result(read),
{
    match read {
        Ok(line) => Ok(clean_line(line.as_str())),
        Err(e) => Err(e),
    }
}

/// Hidden prompt: whatever the read gave, the settings handed back for
/// restoring are exactly those captured before it.
pub fn prompt_password(guard: HiddenInput, read: Result<String, PromptError>) -> (r: (
    TermMode,
    Result<String, PromptError>,
))
    ensures
        r.0 == guard.saved,
        view_result(r.1) == prompt_result(read),
{
    let restored = guard.restore();
    let line = match read {
        Ok(line) => Ok(clean_line(line.as_str())),
        Err(e) => Err(e),
    };
    (restored, line)
}

} // verus!
