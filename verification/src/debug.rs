//! Diagnostic helpers: address and range parsing for the debugger and
//! the memory-dump switches, and the hex-dump formatter.

use vstd::prelude::*;

verus! {

use vstd::string::{StringExecFns, StrSliceExecFns};
use crate::interconnect::{BusView, bus_wf, Interconnect, spec_bus_read};
use crate::text::{push_char, push_hex_byte, push_hex_word, push_str_piece, spec_hex_byte, spec_hex_word};

/// How the host runs the core: optional per-instruction tracing, the
/// verbose trace format, and an instruction budget.
#[derive(Debug, Clone, Default)]
pub struct DebugConfig {
    /// Print the processor state after each instruction.
    pub enabled: bool,
    /// Use the multi-line state format.
    pub verbose: bool,
    /// Stop after this many instructions.
    pub max_instructions: Option<u64>,
}

impl DebugConfig {
    /// The configuration with tracing switched as given.
    pub fn with_debug(self, enabled: bool) -> (r: DebugConfig)
        ensures
            r.enabled == enabled,
            r.verbose == self.verbose,
            r.max_instructions == self.max_instructions,
    {
        DebugConfig { enabled, ..self }
    }

    /// The configuration with the verbose format switched as given.
    pub fn with_verbose(self, verbose: bool) -> (r: DebugConfig)
        ensures
            r.enabled == self.enabled,
            r.verbose == verbose,
            r.max_instructions == self.max_instructions,
    {
        DebugConfig { verbose, ..self }
    }

    /// The configuration with the instruction budget as given.
    pub fn with_max_instructions(self, max_instructions: Option<u64>) -> (r: DebugConfig)
        ensures
            r.enabled == self.enabled,
            r.verbose == self.verbose,
            r.max_instructions == max_instructions,
    {
        DebugConfig { max_instructions, ..self }
    }
}

/// An inclusive address range.
#[derive(Debug, Clone, PartialEq, Eq, Structural)]
pub struct MemoryRange {
    /// First address of the range.
    pub start: u16,
    /// Last address of the range.
    pub end: u16,
}

impl MemoryRange {
    /// Whether the address falls inside the range, ends included.
    pub fn contains(&self, addr: u16) -> (r: bool)
        ensures
            r == (self.start <= addr && addr <= self.end),
    {
        addr >= self.start && addr <= self.end
    }
}

/// Whether the character is plain whitespace: blank, tab, or one of the
/// line-control characters.
pub open spec fn spec_ws(c: char) -> bool {
    c as u32 == 9 || c as u32 == 10 || c as u32 == 11 || c as u32 == 12 || c as u32 == 13 || (
    c as u32 == 32)
}

/// The index of the first non-whitespace character at or past `i`.
pub open spec fn spec_skip_ws(t: Seq<char>, i: int) -> int
    decreases t.len() - i when 0 <= i <= t.len()
{
    if i >= t.len() || !spec_ws(t[i]) {
        i
    } else {
        spec_skip_ws(t, i + 1)
    }
}

/// The end of the text once trailing whitespace before `j` is dropped.
pub open spec fn spec_rskip_ws(t: Seq<char>, j: int) -> int
    decreases j when 0 <= j <= t.len()
{
    if j <= 0 || !spec_ws(t[j - 1]) {
        j
    } else {
        spec_rskip_ws(t, j - 1)
    }
}

/// The value of a digit character, or a negative flag for a non-digit;
/// letters of either case carry their hexadecimal values.
pub open spec fn spec_digit_val(c: char) -> int {
    let u = c as u32;
    if 48 <= u <= 57 {
        u - 48
    } else if 65 <= u <= 90 {
        u - 55
    } else if 97 <= u <= 122 {
        u - 87
    } else {
        -1
    }
}

/// The digits folded into a value under `radix`, starting from `acc`:
/// nothing on the first bad digit or once the value leaves 16 bits.
pub open spec fn spec_fold_digits(d: Seq<char>, radix: int, acc: int) -> Option<u16>
    decreases d.len(),
{
    if d.len() == 0 {
        Some(acc as u16)
    } else {
        let v = spec_digit_val(d[0]);
        if v < 0 || v >= radix {
            None::<u16>
        } else if acc * radix + v > 0xFFFF {
            None::<u16>
        } else {
            spec_fold_digits(d.subrange(1, d.len() as int), radix, acc * radix + v)
        }
    }
}

/// The radix a prefix names, and the digits after it: 0x or 0X for
/// sixteen, 0b or 0B for two, none for ten.
pub open spec fn spec_split_radix(u: Seq<char>) -> (int, Seq<char>) {
    if u.len() >= 2 && u[0] == '0' && (u[1] == 'x' || u[1] == 'X') {
        (16, u.subrange(2, u.len() as int))
    } else if u.len() >= 2 && u[0] == '0' && (u[1] == 'b' || u[1] == 'B') {
        (2, u.subrange(2, u.len() as int))
    } else {
        (10, u)
    }
}

/// The address a trimmed, prefix-tagged numeral names, if any: at least
/// one digit, every digit under the radix, the value within 16 bits.
pub open spec fn spec_parse_address(t: Seq<char>) -> Option<u16> {
    let a = spec_skip_ws(t, 0);
    let b = spec_rskip_ws(t, t.len() as int);
    if a >= b {
        None::<u16>
    } else {
        let u = t.subrange(a, b);
        let rd = spec_split_radix(u);
        if rd.1.len() == 0 {
            None::<u16>
        } else {
            spec_fold_digits(rd.1, rd.0, 0)
        }
    }
}

/// The range a `START:END` text names, if any: both endpoints parse as
/// addresses around the first colon, and the start is not past the end.
pub open spec fn spec_parse_range(t: Seq<char>) -> Option<MemoryRange> {
    let k = spec_find_colon(t, 0);
    if k >= t.len() {
        None::<MemoryRange>
    } else {
        let sa = spec_parse_address(t.subrange(0, k));
        let sb = spec_parse_address(t.subrange(k + 1, t.len() as int));
        if sa is Some && sb is Some && sa->0 <= sb->0 {
            Some(MemoryRange { start: sa->0, end: sb->0 })
        } else {
            None::<MemoryRange>
        }
    }
}

/// The index of the first colon at or past `i`, or the length.
pub open spec fn spec_find_colon(t: Seq<char>, i: int) -> int
    decreases t.len() - i when 0 <= i <= t.len()
{
    if i >= t.len() {
        i
    } else if t[i] == ':' {
        i
    } else {
        spec_find_colon(t, i + 1)
    }
}

/// Parse an address written in hexadecimal with an 0x prefix, binary
/// with an 0b prefix, or plain decimal, around optional whitespace.
#[verifier::loop_isolation(false)]
pub fn parse_address(s: &str) -> (r: Result<u16, String>)
    ensures
        r is Ok <==> spec_parse_address(s@) is Some,
        r is Ok ==> Some(r->Ok_0) == spec_parse_address(s@),
{
    let n = s.unicode_len();
    let mut a: usize = 0;
    while a < n && is_ws(s.get_char(a))
        invariant
            a <= n,
            n == s@.len(),
            spec_skip_ws(s@, 0) == spec_skip_ws(s@, a as int),
        decreases n - a,
    {
        a = a + 1;
    }
    let mut b: usize = n;
    while b > a && is_ws(s.get_char(b - 1))
        invariant
            a <= b <= n,
            n == s@.len(),
            spec_rskip_ws(s@, n as int) == spec_rskip_ws(s@, b as int),
        decreases b,
    {
        b = b - 1;
    }
    proof {
        assert(spec_skip_ws(s@, a as int) == a as int);
        lemma_rskip_ws_bounds(s@, b as int);
    }
    if a >= b {
        return Err(error_text());
    }
    let (radix, d0): (u32, usize) = if b - a >= 2 && s.get_char(a) == '0' && (s.get_char(a + 1)
        == 'x' || s.get_char(a + 1) == 'X') {
        (16, a + 2)
    } else if b - a >= 2 && s.get_char(a) == '0' && (s.get_char(a + 1) == 'b' || s.get_char(a + 1)
        == 'B') {
        (2, a + 2)
    } else {
        (10, a)
    };
    proof {
        assert(s@.subrange(a as int, b as int).subrange(
            (d0 - a) as int,
            (b - a) as int,
        ) =~= s@.subrange(d0 as int, b as int));
    }
    if d0 >= b {
        return Err(error_text());
    }
    let mut acc: u32 = 0;
    let mut i: usize = d0;
    while i < b
        invariant
            d0 <= i <= b,
            b <= s@.len(),
            acc <= 0xFFFF,
            radix == 16 || radix == 10 || radix == 2,
            spec_fold_digits(s@.subrange(d0 as int, b as int), radix as int, 0)
                == spec_fold_digits(s@.subrange(i as int, b as int), radix as int, acc as int),
        decreases b - i,
    {
        let c = s.get_char(i);
        let v = digit_val(c);
        proof {
            assert(s@.subrange(i as int, b as int)[0] == s@[i as int]);
        }
        if v < 0 || v >= radix as i32 {
            return Err(error_text());
        }
        let next = if radix == 16 {
            acc * 16 + v as u32
        } else if radix == 10 {
            acc * 10 + v as u32
        } else {
            acc * 2 + v as u32
        };
        if next > 0xFFFF {
            return Err(error_text());
        }
        proof {
            assert(s@.subrange(i as int, b as int).subrange(
                1,
                s@.subrange(i as int, b as int).len() as int,
            ) =~= s@.subrange(i + 1, b as int));
        }
        acc = next;
        i = i + 1;
    }
    proof {
        assert(s@.subrange(i as int, b as int).len() == 0);
    }
    Ok(acc as u16)
}

/// Parse a `START:END` range: each endpoint an address, the start not
/// past the end.
#[verifier::loop_isolation(false)]
pub fn parse_range(s: &str) -> (r: Result<MemoryRange, String>)
    ensures
        r is Ok <==> spec_parse_range(s@) is Some,
        r is Ok ==> Some(r->Ok_0) == spec_parse_range(s@),
{
    let n = s.unicode_len();
    let mut k: usize = 0;
    while k < n && s.get_char(k) != ':'
        invariant
            k <= n,
            n == s@.len(),
            spec_find_colon(s@, 0) == spec_find_colon(s@, k as int),
        decreases n - k,
    {
        k = k + 1;
    }
    if k >= n {
        return Err(error_text());
    }
    let left = s.substring_char(0, k);
    let right = s.substring_char(k + 1, n);
    let start = match parse_address(left) {
        Ok(v) => v,
        Err(e) => {
            return Err(e);
        },
    };
    let end = match parse_address(right) {
        Ok(v) => v,
        Err(e) => {
            return Err(e);
        },
    };
    if start > end {
        return Err(error_text());
    }
    Ok(MemoryRange { start, end })
}

impl core::str::FromStr for MemoryRange {
    type Err = String;

    fn from_str(s: &str) -> Result<MemoryRange, String> {
        parse_range(s)
    }
}

/// Whether the character is plain whitespace.
pub fn is_ws(c: char) -> (r: bool)
    ensures
        r == spec_ws(c),
{
    let u = c as u32;
    u == 9 || u == 10 || u == 11 || u == 12 || u == 13 || u == 32
}

/// The value of a digit character, negative for a non-digit.
pub fn digit_val(c: char) -> (r: i32)
    ensures
        r as int == spec_digit_val(c),
{
    let u = c as u32;
    if 48 <= u && u <= 57 {
        (u - 48) as i32
    } else if 65 <= u && u <= 90 {
        (u - 55) as i32
    } else if 97 <= u && u <= 122 {
        (u - 87) as i32
    } else {
        -1
    }
}

/// A short diagnostic for any rejected numeral or range.
fn error_text() -> (r: String)
    ensures
        r@ == "invalid address or range"@,
{
    "invalid address or range".to_owned()
}

/// Dropping trailing whitespace never leaves the text.
proof fn lemma_rskip_ws_bounds(t: Seq<char>, j: int)
    requires
        0 <= j <= t.len(),
    ensures
        0 <= spec_rskip_ws(t, j) <= j,
        forall|m: int| spec_rskip_ws(t, j) <= m < j ==> spec_ws(t[m]),
        spec_rskip_ws(t, j) > 0 ==> !spec_ws(t[spec_rskip_ws(t, j) - 1]),
    decreases j,
{
    if j > 0 && spec_ws(t[j - 1]) {
        lemma_rskip_ws_bounds(t, j - 1);
    }
}


/// The two hexadecimal digits of the byte at `off` past the line start,
/// or two blanks where the range does not cover it.
pub open spec fn spec_dump_cell(b: BusView, r: MemoryRange, la: int, off: int) -> Seq<char> {
    let addr = (la + off) % 0x10000;
    if r.start <= addr <= r.end {
        spec_hex_byte(spec_bus_read(b, addr as u16))
    } else {
        seq![' ', ' ']
    }
}

/// The separator after a cell: wider after the eighth column.
pub open spec fn spec_dump_sep(off: int) -> Seq<char> {
    if off == 7 {
        seq![' ', ' ']
    } else {
        seq![' ']
    }
}

/// The hexadecimal half of a dump line, from column `off` on.
pub open spec fn spec_hex_cells(b: BusView, r: MemoryRange, la: int, off: int) -> Seq<char>
    decreases 16 - off,
{
    if off >= 16 {
        Seq::<char>::empty()
    } else {
        spec_dump_cell(b, r, la, off) + spec_dump_sep(off) + spec_hex_cells(b, r, la, off + 1)
    }
}

/// The character column of a dump line: printable bytes as themselves,
/// other bytes as a dot, uncovered columns as a blank.
pub open spec fn spec_ascii_cell(b: BusView, r: MemoryRange, la: int, off: int) -> char {
    let addr = (la + off) % 0x10000;
    if r.start <= addr <= r.end {
        let v = spec_bus_read(b, addr as u16);
        if 0x20 <= v <= 0x7E {
            v as char
        } else {
            '.'
        }
    } else {
        ' '
    }
}

/// The character half of a dump line, from column `off` on.
pub open spec fn spec_ascii_cells(b: BusView, r: MemoryRange, la: int, off: int) -> Seq<char>
    decreases 16 - off,
{
    if off >= 16 {
        Seq::<char>::empty()
    } else {
        seq![spec_ascii_cell(b, r, la, off)] + spec_ascii_cells(b, r, la, off + 1)
    }
}

/// One whole dump line for the sixteen bytes at `la`.
pub open spec fn spec_dump_line(b: BusView, r: MemoryRange, la: int) -> Seq<char> {
    spec_hex_word(la as u16) + "  "@ + spec_hex_cells(b, r, la, 0) + " |"@ + spec_ascii_cells(
        b,
        r,
        la,
        0,
    ) + "|"@ + "\n"@
}

/// Every dump line from `la` to the end of the range, sixteen bytes per
/// line.
pub open spec fn spec_dump_lines(b: BusView, r: MemoryRange, la: int) -> Seq<char>
    decreases r.end + 16 - la when la >= 0
{
    if la > r.end {
        Seq::<char>::empty()
    } else {
        spec_dump_line(b, r, la) + spec_dump_lines(b, r, la + 16)
    }
}

/// The whole dump: lines of sixteen bytes from the range's start,
/// aligned down to a sixteen-byte boundary.
pub open spec fn spec_format_memory_dump(b: BusView, r: MemoryRange) -> Seq<char> {
    spec_dump_lines(b, r, (r.start & 0xFFF0) as int)
}

/// Format the sixteen cells of one dump line: two digits or two blanks
/// per covered or uncovered byte, a separator after each, wider after
/// the eighth.
#[verifier::loop_isolation(false)]
pub fn format_hex_line(interconnect: &Interconnect, range: &MemoryRange, line_addr: u16) -> (r:
    String)
    requires
        bus_wf(interconnect@),
    ensures
        r@ == spec_hex_cells(interconnect@, *range, line_addr as int, 0),
{
    let mut s = String::new();
    let mut off: usize = 0;
    while off < 16
        invariant
            off <= 16,
            s@ + spec_hex_cells(interconnect@, *range, line_addr as int, off as int)
                == spec_hex_cells(interconnect@, *range, line_addr as int, 0),
        decreases 16 - off,
    {
        let addr = line_addr.wrapping_add(off as u16);
        let ghost s0 = s@;
        if range.contains(addr) {
            push_hex_byte(&mut s, interconnect.read(addr));
        } else {
            push_str_piece(&mut s, "  ");
            proof {
                reveal_strlit("  ");
                assert(s@ =~= s0 + seq![' ', ' ']);
            }
        }
        if off == 7 {
            push_str_piece(&mut s, "  ");
            proof {
                reveal_strlit("  ");
            }
        } else {
            push_str_piece(&mut s, " ");
            proof {
                reveal_strlit(" ");
            }
        }
        proof {
            assert(s@ =~= s0 + (spec_dump_cell(interconnect@, *range, line_addr as int, off as int)
                + spec_dump_sep(off as int)));
            assert(s@ + spec_hex_cells(interconnect@, *range, line_addr as int, off + 1)
                =~= s0 + spec_hex_cells(interconnect@, *range, line_addr as int, off as int));
        }
        off = off + 1;
    }
    proof {
        assert(s@ =~= s@ + spec_hex_cells(interconnect@, *range, line_addr as int, 16));
    }
    s
}

/// Format the character column of one dump line.
#[verifier::loop_isolation(false)]
fn format_ascii_line(interconnect: &Interconnect, range: &MemoryRange, line_addr: u16) -> (r:
    String)
    requires
        bus_wf(interconnect@),
    ensures
        r@ == spec_ascii_cells(interconnect@, *range, line_addr as int, 0),
{
    let mut s = String::new();
    let mut off: usize = 0;
    while off < 16
        invariant
            off <= 16,
            s@ + spec_ascii_cells(interconnect@, *range, line_addr as int, off as int)
                == spec_ascii_cells(interconnect@, *range, line_addr as int, 0),
        decreases 16 - off,
    {
        let addr = line_addr.wrapping_add(off as u16);
        let ghost s0 = s@;
        if range.contains(addr) {
            let v = interconnect.read(addr);
            if 0x20 <= v && v <= 0x7E {
                push_char(&mut s, v as char);
            } else {
                push_char(&mut s, '.');
            }
        } else {
            push_char(&mut s, ' ');
        }
        proof {
            assert(s@ =~= s0 + seq![
                spec_ascii_cell(interconnect@, *range, line_addr as int, off as int),
            ]);
            assert(s@ + spec_ascii_cells(interconnect@, *range, line_addr as int, off + 1)
                =~= s0 + spec_ascii_cells(interconnect@, *range, line_addr as int, off as int));
        }
        off = off + 1;
    }
    proof {
        assert(s@ =~= s@ + spec_ascii_cells(interconnect@, *range, line_addr as int, 16));
    }
    s
}

/// A hex dump of the range, sixteen bytes per line: the line address,
/// the bytes in hexadecimal, and their printable characters.
#[verifier::loop_isolation(false)]
pub fn format_memory_dump(interconnect: &Interconnect, range: MemoryRange) -> (r: String)
    requires
        bus_wf(interconnect@),
    ensures
        r@ == spec_format_memory_dump(interconnect@, range),
{
    let aligned_start = range.start & 0xFFF0;
    let mut s = String::new();
    let mut la: u32 = aligned_start as u32;
    while la <= range.end as u32
        invariant
            la <= 0x1000F,
            s@ + spec_dump_lines(interconnect@, range, la as int) == spec_format_memory_dump(
                interconnect@,
                range,
            ),
        decreases range.end + 16 - la,
    {
        let ghost s0 = s@;
        push_hex_word(&mut s, la as u16);
        push_str_piece(&mut s, "  ");
        let hex_part = format_hex_line(interconnect, &range, la as u16);
        push_str_piece(&mut s, hex_part.as_str());
        push_str_piece(&mut s, " |");
        let ascii_part = format_ascii_line(interconnect, &range, la as u16);
        push_str_piece(&mut s, ascii_part.as_str());
        push_str_piece(&mut s, "|");
        push_str_piece(&mut s, "\n");
        proof {
            assert(s@ =~= s0 + spec_dump_line(interconnect@, range, la as int));
            assert(s@ + spec_dump_lines(interconnect@, range, la as int + 16) =~= s0
                + spec_dump_lines(interconnect@, range, la as int));
        }
        la = la + 16;
    }
    proof {
        assert(s@ =~= s@ + spec_dump_lines(interconnect@, range, la as int));
    }
    s
}

} // verus!
