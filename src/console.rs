//! The text commands that the serial console accepts.
use vstd::prelude::*;
use vstd::string::StrSliceExecFns;

verus! {

/// The byte that a terminal sends for ctrl-c; it discards the typed line.
pub const CTRL_C: u8 = 3;

/// A console command.
#[derive(Clone, Copy, PartialEq, Eq, Structural, Debug)]
pub enum Command {
    Led1On,
    Led1Off,
    Led2On,
    Led2Off,
    Prog1On,
    Help,
}

/// The command that a line of text names, compared verbatim.
pub open spec fn command_of(text: Seq<char>) -> Option<Command> {
    if text == "led1 on"@ {
        Some(Command::Led1On)
    } else if text == "led1 off"@ {
        Some(Command::Led1Off)
    } else if text == "led2 on"@ {
        Some(Command::Led2On)
    } else if text == "led2 off"@ {
        Some(Command::Led2Off)
    } else if text == "prog1 on"@ {
        Some(Command::Prog1On)
    } else if text == "help"@ {
        Some(Command::Help)
    } else {
        None
    }
}

/// Whether two strings hold the same characters.
fn same_text(a: &str, b: &str) -> (r: bool)
    ensures
        r == (a@ == b@),
{
    let n = a.unicode_len();
    if n != b.unicode_len() {
        return false;
    }
    let mut i: usize = 0;
    while i < n
        invariant
            n == a@.len(),
            n == b@.len(),
            i <= n,
            a@.take(i as int) == b@.take(i as int),
        decreases n - i,
    {
        if a.get_char(i) != b.get_char(i) {
            return false;
        }
        assert(a@.take(i + 1) =~= a@.take(i as int).push(a@[i as int]));
        assert(b@.take(i + 1) =~= b@.take(i as int).push(b@[i as int]));
        i = i + 1;
    }
    assert(a@ =~= a@.take(n as int));
    assert(b@ =~= b@.take(n as int));
    true
}

/// The command that `text` names, if any.
pub fn parse_command(text: &str) -> (r: Option<Command>)
    ensures
        r == command_of(text@),
{
    if same_text(text, "led1 on") {
        Some(Command::Led1On)
    } else if same_text(text, "led1 off") {
        Some(Command::Led1Off)
    } else if same_text(text, "led2 on") {
        Some(Command::Led2On)
    } else if same_text(text, "led2 off") {
        Some(Command::Led2Off)
    } else if same_text(text, "prog1 on") {
        Some(Command::Prog1On)
    } else if same_text(text, "help") {
        Some(Command::Help)
    } else {
        None
    }
}

} // verus!
