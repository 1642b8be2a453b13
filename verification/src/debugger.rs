//! The step-debugger's logic: the command language and the breakpoint
//! table. The terminal around them lives with the host.

use vstd::prelude::*;

verus! {

use vstd::string::{StringExecFns, StrSliceExecFns};
use crate::debug::{
    is_ws,
    MemoryRange,
    parse_address,
    parse_range,
    spec_parse_address,
    spec_parse_range,
    spec_skip_ws,
    spec_ws,
};

/// A debugger command.
#[derive(Debug, Clone, PartialEq)]
pub enum Command {
    /// Execute one instruction.
    Step,
    /// Run until a breakpoint.
    Continue,
    /// Set a breakpoint at an address.
    Break(u16),
    /// Delete a breakpoint by its number.
    Delete(usize),
    /// List the breakpoints.
    List,
    /// Show the registers.
    Registers,
    /// Dump a memory range.
    Memory(MemoryRange),
    /// Show the command summary.
    Help,
    /// Leave the debugger.
    Quit,
}

/// What parsing one input line yields.
#[derive(Debug)]
pub enum ParseResult {
    /// A recognized command.
    Command(Command),
    /// A blank line.
    Empty,
    /// An unrecognized or malformed line, with a message.
    Error(String),
}

/// What a line of input means, without the diagnostic text.
pub enum ParsedLine {
    Blank,
    Recognized(Command),
    Rejected,
}

/// The end of the token starting at `i`: the first whitespace at or
/// past it, or the end of the text.
pub open spec fn spec_token_end(t: Seq<char>, i: int) -> int
    decreases t.len() - i when 0 <= i <= t.len()
{
    if i >= t.len() || spec_ws(t[i]) {
        i
    } else {
        spec_token_end(t, i + 1)
    }
}

/// The number a plain decimal numeral names, if any: at least one
/// digit, nothing else, the value within 32 bits.
pub open spec fn spec_parse_decimal(t: Seq<char>, acc: int) -> Option<u32>
    decreases t.len(),
{
    if t.len() == 0 {
        Some(acc as u32)
    } else {
        let u = t[0] as u32;
        if u < 48 || u > 57 {
            None::<u32>
        } else if acc * 10 + (u - 48) > 0xFFFF_FFFF {
            None::<u32>
        } else {
            spec_parse_decimal(t.subrange(1, t.len() as int), acc * 10 + (u - 48))
        }
    }
}

/// What a line of input means: the first word picks the command, the
/// word after it carries the argument of `break`, `delete` and `mem`.
pub open spec fn spec_parse_command(t: Seq<char>) -> ParsedLine {
    let a = spec_skip_ws(t, 0);
    if a >= t.len() {
        ParsedLine::Blank
    } else {
        let b = spec_token_end(t, a);
        let word = t.subrange(a, b);
        let c = spec_skip_ws(t, b);
        let d = spec_token_end(t, c);
        let arg = t.subrange(c, d);
        if word == "step"@ || word == "s"@ {
            ParsedLine::Recognized(Command::Step)
        } else if word == "continue"@ || word == "c"@ {
            ParsedLine::Recognized(Command::Continue)
        } else if word == "break"@ || word == "b"@ {
            if c >= t.len() {
                ParsedLine::Rejected
            } else if spec_parse_address(arg) is Some {
                ParsedLine::Recognized(Command::Break(spec_parse_address(arg)->0))
            } else {
                ParsedLine::Rejected
            }
        } else if word == "delete"@ || word == "d"@ {
            if c >= t.len() {
                ParsedLine::Rejected
            } else if spec_parse_decimal(arg, 0) is Some {
                ParsedLine::Recognized(
                    Command::Delete(spec_parse_decimal(arg, 0)->0 as usize),
                )
            } else {
                ParsedLine::Rejected
            }
        } else if word == "list"@ || word == "l"@ {
            ParsedLine::Recognized(Command::List)
        } else if word == "reg"@ || word == "r"@ {
            ParsedLine::Recognized(Command::Registers)
        } else if word == "mem"@ || word == "m"@ {
            if c >= t.len() {
                ParsedLine::Rejected
            } else if spec_parse_range(arg) is Some {
                ParsedLine::Recognized(Command::Memory(spec_parse_range(arg)->0))
            } else {
                ParsedLine::Rejected
            }
        } else if word == "help"@ || word == "h"@ {
            ParsedLine::Recognized(Command::Help)
        } else if word == "quit"@ || word == "q"@ {
            ParsedLine::Recognized(Command::Quit)
        } else {
            ParsedLine::Rejected
        }
    }
}

/// Parse one line of debugger input.
#[verifier::loop_isolation(false)]
pub fn parse_command(input: &str) -> (r: ParseResult)
    ensures
        r is Empty <==> spec_parse_command(input@) is Blank,
        r is Command ==> spec_parse_command(input@) == ParsedLine::Recognized(r->Command_0),
        spec_parse_command(input@) is Recognized ==> r is Command,
        r is Error <==> spec_parse_command(input@) is Rejected,
{
    let n = input.unicode_len();
    let mut a: usize = 0;
    while a < n && is_ws(input.get_char(a))
        invariant
            a <= n,
            n == input@.len(),
            spec_skip_ws(input@, 0) == spec_skip_ws(input@, a as int),
        decreases n - a,
    {
        a = a + 1;
    }
    proof {
        assert(spec_skip_ws(input@, a as int) == a as int);
    }
    if a >= n {
        return ParseResult::Empty;
    }
    let mut b: usize = a;
    while b < n && !is_ws(input.get_char(b))
        invariant
            a <= b <= n,
            n == input@.len(),
            spec_token_end(input@, a as int) == spec_token_end(input@, b as int),
        decreases n - b,
    {
        b = b + 1;
    }
    proof {
        assert(spec_token_end(input@, b as int) == b as int);
    }
    let mut c: usize = b;
    while c < n && is_ws(input.get_char(c))
        invariant
            b <= c <= n,
            n == input@.len(),
            spec_skip_ws(input@, b as int) == spec_skip_ws(input@, c as int),
        decreases n - c,
    {
        c = c + 1;
    }
    proof {
        assert(spec_skip_ws(input@, c as int) == c as int);
    }
    let mut d: usize = c;
    while d < n && !is_ws(input.get_char(d))
        invariant
            c <= d <= n,
            n == input@.len(),
            spec_token_end(input@, c as int) == spec_token_end(input@, d as int),
        decreases n - d,
    {
        d = d + 1;
    }
    proof {
        assert(spec_token_end(input@, d as int) == d as int);
    }
    let word = input.substring_char(a, b);
    let arg = input.substring_char(c, d);
    if str_is(word, "step") || str_is(word, "s") {
        ParseResult::Command(Command::Step)
    } else if str_is(word, "continue") || str_is(word, "c") {
        ParseResult::Command(Command::Continue)
    } else if str_is(word, "break") || str_is(word, "b") {
        if c >= n {
            return ParseResult::Error(usage_text());
        }
        match parse_address(arg) {
            Ok(addr) => ParseResult::Command(Command::Break(addr)),
            Err(e) => ParseResult::Error(e),
        }
    } else if str_is(word, "delete") || str_is(word, "d") {
        if c >= n {
            return ParseResult::Error(usage_text());
        }
        match parse_decimal(arg) {
            Some(id) => ParseResult::Command(Command::Delete(id as usize)),
            None => ParseResult::Error(usage_text()),
        }
    } else if str_is(word, "list") || str_is(word, "l") {
        ParseResult::Command(Command::List)
    } else if str_is(word, "reg") || str_is(word, "r") {
        ParseResult::Command(Command::Registers)
    } else if str_is(word, "mem") || str_is(word, "m") {
        if c >= n {
            return ParseResult::Error(usage_text());
        }
        match parse_range(arg) {
            Ok(range) => ParseResult::Command(Command::Memory(range)),
            Err(e) => ParseResult::Error(e),
        }
    } else if str_is(word, "help") || str_is(word, "h") {
        ParseResult::Command(Command::Help)
    } else if str_is(word, "quit") || str_is(word, "q") {
        ParseResult::Command(Command::Quit)
    } else {
        ParseResult::Error(usage_text())
    }
}

/// Whether the text equals the keyword.
fn str_is(t: &str, word: &str) -> (r: bool)
    ensures
        r == (t@ == word@),
{
    let a = t.to_owned();
    let b = word.to_owned();
    a == b
}

/// A short diagnostic for a malformed line.
fn usage_text() -> (r: String)
    ensures
        r@ == "unrecognized or malformed command"@,
{
    "unrecognized or malformed command".to_owned()
}

/// Parse a plain decimal numeral within 32 bits.
#[verifier::loop_isolation(false)]
fn parse_decimal(s: &str) -> (r: Option<u32>)
    ensures
        r == spec_parse_decimal(s@, 0),
{
    let n = s.unicode_len();
    if n == 0 {
        return Some(0);
    }
    proof {
        assert(s@.subrange(0, n as int) =~= s@);
    }
    let mut acc: u32 = 0;
    let mut i: usize = 0;
    while i < n
        invariant
            i <= n,
            n == s@.len(),
            spec_parse_decimal(s@, 0) == spec_parse_decimal(
                s@.subrange(i as int, n as int),
                acc as int,
            ),
        decreases n - i,
    {
        let u = s.get_char(i) as u32;
        proof {
            assert(s@.subrange(i as int, n as int)[0] == s@[i as int]);
        }
        if u < 48 || u > 57 {
            return None;
        }
        if acc > 0xFFFF_FFFFu32 / 10 || (acc == 0xFFFF_FFFFu32 / 10 && u - 48 > 0xFFFF_FFFFu32 % 10) {
            return None;
        }
        proof {
            assert(s@.subrange(i as int, n as int).subrange(
                1,
                s@.subrange(i as int, n as int).len() as int,
            ) =~= s@.subrange(i + 1, n as int));
        }
        acc = acc * 10 + (u - 48);
        i = i + 1;
    }
    proof {
        assert(s@.subrange(n as int, n as int).len() == 0);
    }
    Some(acc)
}

/// Whether the two sides of the breakpoint table line up.
pub open spec fn breakpoints_wf(breakpoints: Seq<u16>, enabled: Seq<bool>) -> bool {
    breakpoints.len() == enabled.len()
}

/// The breakpoint table: addresses in creation order, each with an
/// enabled mark. A deleted breakpoint keeps its slot, disabled, so
/// numbers stay stable.
pub struct BreakpointManager {
    /// Breakpoint addresses, in creation order.
    pub breakpoints: Vec<u16>,
    /// Whether each breakpoint is live.
    pub enabled: Vec<bool>,
}

impl BreakpointManager {
    /// An empty table.
    pub fn new() -> (r: BreakpointManager)
        ensures
            r.breakpoints@ == Seq::<u16>::empty(),
            r.enabled@ == Seq::<bool>::empty(),
    {
        BreakpointManager { breakpoints: Vec::new(), enabled: Vec::new() }
    }

    /// Add a live breakpoint at `addr`; its number is its slot.
    pub fn add(&mut self, addr: u16) -> (id: usize)
        requires
            breakpoints_wf(old(self).breakpoints@, old(self).enabled@),
        ensures
            id == old(self).breakpoints@.len(),
            final(self).breakpoints@ == old(self).breakpoints@.push(addr),
            final(self).enabled@ == old(self).enabled@.push(true),
    {
        let id = self.breakpoints.len();
        self.breakpoints.push(addr);
        self.enabled.push(true);
        id
    }

    /// Disable breakpoint `id` and hand back its address; an unknown
    /// number is an error.
    pub fn remove(&mut self, id: usize) -> (r: Result<u16, String>)
        requires
            breakpoints_wf(old(self).breakpoints@, old(self).enabled@),
        ensures
            r is Ok <==> id < old(self).breakpoints@.len(),
            r is Ok ==> r->Ok_0 == old(self).breakpoints@[id as int] && final(self).enabled@
                == old(self).enabled@.update(id as int, false),
            r is Ok ==> final(self).breakpoints@ == old(self).breakpoints@,
            r is Err ==> *final(self) == *old(self),
    {
        if id >= self.breakpoints.len() {
            return Err("no such breakpoint".to_owned());
        }
        self.enabled[id] = false;
        Ok(self.breakpoints[id])
    }

    /// Whether a live breakpoint sits at `addr`.
    pub fn should_break(&self, addr: u16) -> (r: bool)
        requires
            breakpoints_wf(self.breakpoints@, self.enabled@),
        ensures
            r == exists|i: int|
                0 <= i < self.breakpoints@.len() && self.enabled@[i] && self.breakpoints@[i]
                    == addr,
    {
        let mut i: usize = 0;
        while i < self.breakpoints.len()
            invariant
                i <= self.breakpoints@.len(),
                breakpoints_wf(self.breakpoints@, self.enabled@),
                forall|j: int|
                    0 <= j < i ==> !(self.enabled@[j] && self.breakpoints@[j] == addr),
            decreases self.breakpoints@.len() - i,
        {
            if self.enabled[i] && self.breakpoints[i] == addr {
                return true;
            }
            i = i + 1;
        }
        false
    }

    /// Every breakpoint with its number and whether it is live.
    pub fn list(&self) -> (r: Vec<(usize, u16, bool)>)
        requires
            breakpoints_wf(self.breakpoints@, self.enabled@),
        ensures
            r@.len() == self.breakpoints@.len(),
            forall|i: int|
                0 <= i < r@.len() ==> r@[i] == (i as usize, self.breakpoints@[i], self.enabled@[i]),
    {
        let mut out: Vec<(usize, u16, bool)> = Vec::new();
        let mut i: usize = 0;
        while i < self.breakpoints.len()
            invariant
                i <= self.breakpoints@.len(),
                breakpoints_wf(self.breakpoints@, self.enabled@),
                out@.len() == i,
                forall|j: int|
                    0 <= j < i ==> out@[j] == (
                        j as usize,
                        self.breakpoints@[j],
                        self.enabled@[j],
                    ),
            decreases self.breakpoints@.len() - i,
        {
            out.push((i, self.breakpoints[i], self.enabled[i]));
            i = i + 1;
        }
        out
    }

    /// Whether any breakpoint is live.
    pub fn has_enabled(&self) -> (r: bool)
        ensures
            r == exists|i: int| 0 <= i < self.enabled@.len() && self.enabled@[i],
    {
        let mut i: usize = 0;
        while i < self.enabled.len()
            invariant
                i <= self.enabled@.len(),
                forall|j: int| 0 <= j < i ==> !self.enabled@[j],
            decreases self.enabled@.len() - i,
        {
            if self.enabled[i] {
                return true;
            }
            i = i + 1;
        }
        false
    }
}

} // verus!
