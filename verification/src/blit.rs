//! Cell-grid encoding for hosted (blit) mode: colours and text attributes
//! as packed values, key modifiers from the wire, and the diff of two
//! frames as runs of changed cells.

use vstd::prelude::*;
use crate::keys::{KeyCode, KeyEvent, MOD_ALT, MOD_CONTROL, MOD_SHIFT, MOD_SUPER};

verus! {

// ─── Colours ────────────────────────────────────────────────────────────

/// A terminal colour, as ratatui's `Color` has it.
#[derive(Debug, Clone, Copy, PartialEq, Eq)]
pub enum Color {
    Reset,
    Black,
    Red,
    Green,
    Yellow,
    Blue,
    Magenta,
    Cyan,
    Gray,
    DarkGray,
    LightRed,
    LightGreen,
    LightYellow,
    LightBlue,
    LightMagenta,
    LightCyan,
    White,
    Rgb(u8, u8, u8),
    Indexed(u8),
}

/// Colour components, in the order the wire packs them.
#[derive(Debug, Clone, Copy, PartialEq, Eq)]
pub struct Rgba {
    pub r: u8,
    pub g: u8,
    pub b: u8,
    pub a: u8,
}

pub open spec fn opaque(r: u8, g: u8, b: u8) -> Rgba {
    Rgba { r, g, b, a: 0xff }
}

/// The 16 base colours of the palette (the same as the named colours).
pub open spec fn base16(i: int) -> Rgba {
    if i == 0 {
        opaque(0x10, 0x11, 0x1c)
    } else if i == 1 {
        opaque(0xe0, 0x60, 0x60)
    } else if i == 2 {
        opaque(0x84, 0xc8, 0x6f)
    } else if i == 3 {
        opaque(0xee, 0xbb, 0x57)
    } else if i == 4 {
        opaque(0x6e, 0xa2, 0xe7)
    } else if i == 5 {
        opaque(0xc9, 0x7a, 0xea)
    } else if i == 6 {
        opaque(0x5f, 0xb3, 0xa1)
    } else if i == 7 {
        opaque(0xab, 0xb2, 0xbf)
    } else if i == 8 {
        opaque(0x42, 0x46, 0x4e)
    } else if i == 9 {
        opaque(0xff, 0x82, 0x82)
    } else if i == 10 {
        opaque(0xa6, 0xe2, 0x8c)
    } else if i == 11 {
        opaque(0xff, 0xd7, 0x71)
    } else if i == 12 {
        opaque(0x82, 0xb3, 0xff)
    } else if i == 13 {
        opaque(0xdc, 0xa5, 0xff)
    } else if i == 14 {
        opaque(0x84, 0xd6, 0xc5)
    } else {
        opaque(0xff, 0xff, 0xff)
    }
}

/// The xterm 256-colour palette: 16 base colours, a 6×6×6 cube in steps
/// of 51, then a grey ramp from 8 in steps of 10.
pub open spec fn ansi256(i: u8) -> Rgba {
    if i < 16 {
        base16(i as int)
    } else if i < 232 {
        let n = i - 16;
        opaque(((n / 36) * 51) as u8, (((n / 6) % 6) * 51) as u8, ((n % 6) * 51) as u8)
    } else {
        let v = (8 + (i - 232) * 10) as u8;
        opaque(v, v, v)
    }
}

pub fn ansi256_to_rgba(i: u8) -> (r: Rgba)
    ensures
        r == ansi256(i),
{
    if i < 16 {
        let (r, g, b) = if i == 0 {
            (0x10u8, 0x11u8, 0x1cu8)
        } else if i == 1 {
            (0xe0, 0x60, 0x60)
        } else if i == 2 {
            (0x84, 0xc8, 0x6f)
        } else if i == 3 {
            (0xee, 0xbb, 0x57)
        } else if i == 4 {
            (0x6e, 0xa2, 0xe7)
        } else if i == 5 {
            (0xc9, 0x7a, 0xea)
        } else if i == 6 {
            (0x5f, 0xb3, 0xa1)
        } else if i == 7 {
            (0xab, 0xb2, 0xbf)
        } else if i == 8 {
            (0x42, 0x46, 0x4e)
        } else if i == 9 {
            (0xff, 0x82, 0x82)
        } else if i == 10 {
            (0xa6, 0xe2, 0x8c)
        } else if i == 11 {
            (0xff, 0xd7, 0x71)
        } else if i == 12 {
            (0x82, 0xb3, 0xff)
        } else if i == 13 {
            (0xdc, 0xa5, 0xff)
        } else if i == 14 {
            (0x84, 0xd6, 0xc5)
        } else {
            (0xff, 0xff, 0xff)
        };
        Rgba { r, g, b, a: 0xff }
    } else if i < 232 {
        let n = i - 16;
        let r = (n / 36) * 51;
        let g = ((n / 6) % 6) * 51;
        let b = (n % 6) * 51;
        Rgba { r, g, b, a: 0xff }
    } else {
        let v = 8 + (i - 232) * 10;
        Rgba { r: v, g: v, b: v, a: 0xff }
    }
}

/// The packed colour of a cell; `Reset` is the theme's background or
/// foreground.
pub open spec fn color_rgba(c: Color, is_bg: bool) -> Rgba {
    match c {
        Color::Rgb(r, g, b) => opaque(r, g, b),
        Color::Reset => if is_bg {
            opaque(0x10, 0x11, 0x1c)
        } else {
            opaque(0xab, 0xb2, 0xbf)
        },
        Color::Black => base16(0),
        Color::Red => base16(1),
        Color::Green => base16(2),
        Color::Yellow => base16(3),
        Color::Blue => base16(4),
        Color::Magenta => base16(5),
        Color::Cyan => base16(6),
        Color::Gray => base16(7),
        Color::DarkGray => base16(8),
        Color::LightRed => base16(9),
        Color::LightGreen => base16(10),
        Color::LightYellow => base16(11),
        Color::LightBlue => base16(12),
        Color::LightMagenta => base16(13),
        Color::LightCyan => base16(14),
        Color::White => base16(15),
        Color::Indexed(i) => ansi256(i),
    }
}

pub fn color_to_rgba(c: Color, is_bg: bool) -> (r: Rgba)
    ensures
        r == color_rgba(c, is_bg),
{
    match c {
        Color::Rgb(r, g, b) => Rgba { r, g, b, a: 0xff },
        Color::Reset => if is_bg {
            Rgba { r: 0x10, g: 0x11, b: 0x1c, a: 0xff }
        } else {
            Rgba { r: 0xab, g: 0xb2, b: 0xbf, a: 0xff }
        },
        Color::Black => ansi256_to_rgba(0),
        Color::Red => ansi256_to_rgba(1),
        Color::Green => ansi256_to_rgba(2),
        Color::Yellow => ansi256_to_rgba(3),
        Color::Blue => ansi256_to_rgba(4),
        Color::Magenta => ansi256_to_rgba(5),
        Color::Cyan => ansi256_to_rgba(6),
        Color::Gray => ansi256_to_rgba(7),
        Color::DarkGray => ansi256_to_rgba(8),
        Color::LightRed => ansi256_to_rgba(9),
        Color::LightGreen => ansi256_to_rgba(10),
        Color::LightYellow => ansi256_to_rgba(11),
        Color::LightBlue => ansi256_to_rgba(12),
        Color::LightMagenta => ansi256_to_rgba(13),
        Color::LightCyan => ansi256_to_rgba(14),
        Color::White => ansi256_to_rgba(15),
        Color::Indexed(i) => ansi256_to_rgba(i),
    }
}

// ─── Text attributes ────────────────────────────────────────────────────

/// ratatui `Modifier` bits that the wire carries.
pub const MODIFIER_BOLD: u16 = 0b0000_0000_0001;
pub const MODIFIER_DIM: u16 = 0b0000_0000_0010;
pub const MODIFIER_ITALIC: u16 = 0b0000_0000_0100;
pub const MODIFIER_UNDERLINED: u16 = 0b0000_0000_1000;
pub const MODIFIER_REVERSED: u16 = 0b0000_0100_0000;
pub const MODIFIER_CROSSED_OUT: u16 = 0b0001_0000_0000;

/// Wire attribute bits.
pub const ATTR_BOLD: u32 = 1;
pub const ATTR_DIM: u32 = 2;
pub const ATTR_ITALIC: u32 = 4;
pub const ATTR_UNDERLINE: u32 = 8;
pub const ATTR_REVERSED: u32 = 16;
pub const ATTR_CROSSED_OUT: u32 = 32;

/// `flag` when `m` has `bit`, else 0.
pub open spec fn bit_if(m: u16, bit: u16, flag: u32) -> u32 {
    if m & bit != 0 {
        flag
    } else {
        0
    }
}

/// The wire attributes of a ratatui modifier set (blink and hidden are
/// not carried).
pub open spec fn attr_bits(m: u16) -> u32 {
    bit_if(m, MODIFIER_BOLD, ATTR_BOLD) | bit_if(m, MODIFIER_DIM, ATTR_DIM) | bit_if(
        m,
        MODIFIER_ITALIC,
        ATTR_ITALIC,
    ) | bit_if(m, MODIFIER_UNDERLINED, ATTR_UNDERLINE) | bit_if(m, MODIFIER_REVERSED, ATTR_REVERSED)
        | bit_if(m, MODIFIER_CROSSED_OUT, ATTR_CROSSED_OUT)
}

pub fn modifier_to_bits(m: u16) -> (a: u32)
    ensures
        a == attr_bits(m),
{
    let bold = if m & MODIFIER_BOLD != 0 { ATTR_BOLD } else { 0 };
    let dim = if m & MODIFIER_DIM != 0 { ATTR_DIM } else { 0 };
    let italic = if m & MODIFIER_ITALIC != 0 { ATTR_ITALIC } else { 0 };
    let underline = if m & MODIFIER_UNDERLINED != 0 { ATTR_UNDERLINE } else { 0 };
    let reversed = if m & MODIFIER_REVERSED != 0 { ATTR_REVERSED } else { 0 };
    let crossed = if m & MODIFIER_CROSSED_OUT != 0 { ATTR_CROSSED_OUT } else { 0 };
    bold | dim | italic | underline | reversed | crossed
}

// ─── Keys from the wire ────────────────────────────────────────────────

/// The bit values the wire protocol uses for modifiers.
#[derive(Debug, Clone, Copy)]
pub struct WireModBits {
    pub shift: u8,
    pub ctrl: u8,
    pub alt: u8,
    pub sup: u8,
}

pub open spec fn mod_if(m: u8, bit: u8, flag: u8) -> u8 {
    if m & bit != 0 {
        flag
    } else {
        0
    }
}

/// Terminal modifier bits of wire modifier bits.
pub open spec fn unpacked(m: u8, w: WireModBits) -> u8 {
    mod_if(m, w.shift, MOD_SHIFT) | mod_if(m, w.ctrl, MOD_CONTROL) | mod_if(m, w.alt, MOD_ALT) | mod_if(
        m,
        w.sup,
        MOD_SUPER,
    )
}

pub fn unpack_mods(m: u8, w: WireModBits) -> (r: u8)
    ensures
        r == unpacked(m, w),
{
    let shift = if m & w.shift != 0 { MOD_SHIFT } else { 0 };
    let ctrl = if m & w.ctrl != 0 { MOD_CONTROL } else { 0 };
    let alt = if m & w.alt != 0 { MOD_ALT } else { 0 };
    let sup = if m & w.sup != 0 { MOD_SUPER } else { 0 };
    shift | ctrl | alt | sup
}

/// A key press from the wire: its code and unpacked modifiers.
pub fn key_from_wire(code: KeyCode, mods: u8, w: WireModBits) -> (k: KeyEvent)
    ensures
        k.code == code,
        k.modifiers == unpacked(mods, w),
{
    KeyEvent { code, modifiers: unpack_mods(mods, w) }
}

/// Ctrl+C, which ends hosted mode whatever the key map says.
pub fn is_interrupt(k: KeyEvent) -> (b: bool)
    ensures
        b == (k.code == KeyCode::Char('c') && k.modifiers & MOD_CONTROL != 0),
{
    match k.code {
        KeyCode::Char(c) => c == 'c' && k.modifiers & MOD_CONTROL != 0,
        _ => false,
    }
}


// ─── Frame diffs ────────────────────────────────────────────────────────

/// One grid cell as the wire carries it.
#[derive(Debug, Clone, Copy, PartialEq, Eq, Structural, Default)]
pub struct Cell {
    pub ch: u32,
    pub fg: u32,
    pub bg: u32,
    pub attrs: u32,
}

/// Cells replacing those from `start` on.
#[derive(Debug, Clone)]
pub struct DiffRun {
    pub start: u32,
    pub cells: Vec<Cell>,
}

/// Up to this many unchanged cells between two changes stay in one run.
pub const MERGE_GAP: usize = 4;
/// Above this percentage of changed cells the whole grid is sent.
pub const FULL_REPLACE_THRESHOLD: usize = 70;

#[verifier::opaque]
pub open spec fn differs(prev: Seq<Cell>, cur: Seq<Cell>, i: int) -> bool {
    prev[i] != cur[i]
}

/// Some cell in `a..b` changed.
pub open spec fn change_in(prev: Seq<Cell>, cur: Seq<Cell>, a: int, b: int) -> bool {
    exists|x: int| a <= x < b && #[trigger] differs(prev, cur, x)
}

/// Cell indices `s..e` covered by a run.
pub open spec fn run_start(r: DiffRun) -> int {
    r.start as int
}

pub open spec fn run_end(r: DiffRun) -> int {
    r.start as int + r.cells@.len()
}

/// `s..e` is a run of changes: it starts and ends on a changed cell and
/// holds no more than `MERGE_GAP` unchanged cells in a row.
#[verifier::opaque]
pub open spec fn is_cluster(prev: Seq<Cell>, cur: Seq<Cell>, s: int, e: int) -> bool {
    &&& 0 <= s < e <= cur.len()
    &&& differs(prev, cur, s)
    &&& differs(prev, cur, e - 1)
    &&& forall|a: int| s <= a && a + 5 <= e ==> #[trigger] change_in(prev, cur, a, a + 5)
}

/// `runs` are the runs of changes from `prev` to `cur`, in order: each a
/// cluster carrying the current cells, consecutive ones more than
/// `MERGE_GAP` unchanged cells apart, every changed cell in one of them.
pub open spec fn change_runs(prev: Seq<Cell>, cur: Seq<Cell>, runs: Seq<DiffRun>) -> bool {
    &&& forall|k: int| 0 <= k < runs.len() ==> {
        &&& 0 <= run_start(#[trigger] runs[k]) < run_end(runs[k]) <= cur.len()
        &&& is_cluster(prev, cur, run_start(runs[k]), run_end(runs[k]))
        &&& runs[k].cells@ == cur.subrange(run_start(runs[k]), run_end(runs[k]))
    }
    &&& forall|k: int| 0 <= k < runs.len() - 1 ==> run_end(#[trigger] runs[k]) + 5 <= run_start(runs[k + 1])
    &&& forall|x: int| 0 <= x < cur.len() && #[trigger] differs(prev, cur, x) ==> exists|k: int|
        0 <= k < runs.len() && run_start(#[trigger] runs[k]) <= x < run_end(runs[k])
}

/// Number of cells the runs carry.
pub open spec fn run_cells(runs: Seq<DiffRun>) -> int
    decreases runs.len(),
{
    if runs.len() == 0 {
        0
    } else {
        run_cells(runs.drop_last()) + runs.last().cells@.len()
    }
}

/// A frame after one run is written into it (a run reaching past the end
/// is ignored).
pub open spec fn apply_run(base: Seq<Cell>, r: DiffRun) -> Seq<Cell> {
    if run_end(r) <= base.len() {
        base.take(run_start(r)) + r.cells@ + base.skip(run_end(r))
    } else {
        base
    }
}

/// A frame after the runs are written into it in order.
pub open spec fn apply_runs(base: Seq<Cell>, runs: Seq<DiffRun>) -> Seq<Cell>
    decreases runs.len(),
{
    if runs.len() == 0 {
        base
    } else {
        apply_runs(apply_run(base, runs[0]), runs.drop_first())
    }
}

proof fn lemma_apply_runs_rebuilds(base: Seq<Cell>, cur: Seq<Cell>, runs: Seq<DiffRun>)
    requires
        base.len() == cur.len(),
        forall|k: int| 0 <= k < runs.len() ==> {
            &&& 0 <= run_start(#[trigger] runs[k]) <= run_end(runs[k]) <= cur.len()
            &&& runs[k].cells@ == cur.subrange(run_start(runs[k]), run_end(runs[k]))
        },
        forall|x: int| 0 <= x < cur.len() && #[trigger] differs(base, cur, x) ==> exists|k: int|
            0 <= k < runs.len() && run_start(#[trigger] runs[k]) <= x < run_end(runs[k]),
    ensures
        apply_runs(base, runs) == cur,
    decreases runs.len(),
{
    reveal(differs);
    if runs.len() == 0 {
        assert forall|x: int| 0 <= x < cur.len() implies base[x] == cur[x] by {
            if base[x] != cur[x] {
                assert(differs(base, cur, x));
            }
        }
        assert(base =~= cur);
    } else {
        let r = runs[0];
        let next = apply_run(base, r);
        let rest = runs.drop_first();
        assert(0 <= run_start(runs[0]));
        assert forall|x: int| 0 <= x < cur.len() && #[trigger] differs(next, cur, x) implies exists|k: int|
            0 <= k < rest.len() && run_start(#[trigger] rest[k]) <= x < run_end(rest[k]) by {
            if run_start(r) <= x < run_end(r) {
                assert(next[x] == r.cells@[x - run_start(r)]);
            } else {
                if x < run_start(r) {
                    assert(next[x] == base[x]);
                } else {
                    assert(next[x] == base[x]);
                }
                assert(differs(base, cur, x));
                let k = choose|k: int| 0 <= k < runs.len() && run_start(#[trigger] runs[k]) <= x < run_end(runs[k]);
                assert(k != 0);
                assert(rest[k - 1] == runs[k]);
            }
        }
        assert forall|k: int| 0 <= k < rest.len() implies {
            &&& 0 <= run_start(#[trigger] rest[k]) <= run_end(rest[k]) <= cur.len()
            &&& rest[k].cells@ == cur.subrange(run_start(rest[k]), run_end(rest[k]))
        } by {
            assert(rest[k] == runs[k + 1]);
        }
        lemma_apply_runs_rebuilds(next, cur, rest);
    }
}

/// Where the run of changes that begins at `start` ends: after its last
/// changed cell, before more than `MERGE_GAP` unchanged cells in a row (or
/// the end of the grid).
fn scan_run(prev: &Vec<Cell>, cur: &Vec<Cell>, start: usize) -> (end: usize)
    requires
        prev@.len() == cur@.len(),
        start < cur@.len(),
        differs(prev@, cur@, start as int),
    ensures
        start < end <= cur@.len(),
        is_cluster(prev@, cur@, start as int, end as int),
        forall|x: int| end <= x < end + 5 && x < cur@.len() ==> !#[trigger] differs(prev@, cur@, x),
{
    let n = cur.len();
    let mut last_change = start + 1;
    let mut j = start + 1;
    while j < n && !(prev[j] == cur[j] && j - last_change >= MERGE_GAP)
        invariant
            n == cur@.len(),
            prev@.len() == n,
            start < last_change <= j <= n,
            differs(prev@, cur@, start as int),
            differs(prev@, cur@, last_change - 1),
            j - last_change <= 4,
            forall|x: int| last_change <= x < j ==> !#[trigger] differs(prev@, cur@, x),
            forall|a: int| start <= a && a + 5 <= last_change ==> #[trigger] change_in(prev@, cur@, a, a + 5),
        decreases n - j,
    {
        proof {
            reveal(differs);
        }
        if !(prev[j] == cur[j]) {
            proof {
                assert forall|a: int| start <= a && a + 5 <= j + 1 implies #[trigger] change_in(
                    prev@,
                    cur@,
                    a,
                    a + 5,
                ) by {
                    if a + 5 > last_change {
                        assert(differs(prev@, cur@, j as int));
                    }
                }
            }
            last_change = j + 1;
        }
        j += 1;
    }
    proof {
        reveal(differs);
        assert forall|x: int| last_change <= x < last_change + 5 && x < n implies !#[trigger] differs(
            prev@,
            cur@,
            x,
        ) by {
            if x >= j {
                assert(j < n);
                assert(x == j);
            }
        }
        reveal(is_cluster);
    }
    last_change
}

/// `cur[lo..hi]`, copied.
fn copy_cells(cur: &Vec<Cell>, lo: usize, hi: usize) -> (r: Vec<Cell>)
    requires
        lo <= hi <= cur@.len(),
    ensures
        r@ == cur@.subrange(lo as int, hi as int),
{
    let mut cells: Vec<Cell> = Vec::new();
    let mut k = lo;
    while k < hi
        invariant
            lo <= k <= hi <= cur@.len(),
            cells@ == cur@.subrange(lo as int, k as int),
        decreases hi - k,
    {
        cells.push(cur[k]);
        assert(cells@ =~= cur@.subrange(lo as int, k + 1));
        k += 1;
    }
    cells
}

/// The runs found before position `i`, with what is known of the cells
/// after the last of them.
pub open spec fn runs_upto(prev: Seq<Cell>, cur: Seq<Cell>, runs: Seq<DiffRun>, i: int) -> bool {
    &&& forall|k: int| 0 <= k < runs.len() ==> {
        &&& 0 <= run_start(#[trigger] runs[k]) < run_end(runs[k]) <= cur.len()
        &&& is_cluster(prev, cur, run_start(runs[k]), run_end(runs[k]))
        &&& runs[k].cells@ == cur.subrange(run_start(runs[k]), run_end(runs[k]))
        &&& run_end(runs[k]) <= i
    }
    &&& forall|k: int| 0 <= k < runs.len() - 1 ==> run_end(#[trigger] runs[k]) + 5 <= run_start(runs[k + 1])
    &&& forall|x: int| 0 <= x < i && #[trigger] differs(prev, cur, x) ==> exists|k: int|
        0 <= k < runs.len() && run_start(#[trigger] runs[k]) <= x < run_end(runs[k])
    &&& runs.len() > 0 ==> forall|x: int|
        run_end(runs.last()) <= x < run_end(runs.last()) + 5 && x < cur.len() ==> !#[trigger] differs(prev, cur, x)
    &&& runs.len() > 0 ==> forall|x: int| run_end(runs.last()) <= x < i ==> !#[trigger] differs(prev, cur, x)
}

proof fn lemma_skip_unchanged(prev: Seq<Cell>, cur: Seq<Cell>, runs: Seq<DiffRun>, i: int)
    requires
        runs_upto(prev, cur, runs, i),
        0 <= i < cur.len(),
        !differs(prev, cur, i),
    ensures
        runs_upto(prev, cur, runs, i + 1),
{
}

proof fn lemma_push_run(prev: Seq<Cell>, cur: Seq<Cell>, runs: Seq<DiffRun>, i: int, r: DiffRun)
    requires
        runs_upto(prev, cur, runs, i),
        0 <= i < cur.len(),
        differs(prev, cur, i),
        run_start(r) == i,
        i < run_end(r) <= cur.len(),
        is_cluster(prev, cur, i, run_end(r)),
        r.cells@ == cur.subrange(i, run_end(r)),
        forall|x: int| run_end(r) <= x < run_end(r) + 5 && x < cur.len() ==> !#[trigger] differs(prev, cur, x),
    ensures
        runs_upto(prev, cur, runs.push(r), run_end(r)),
        run_cells(runs.push(r)) == run_cells(runs) + r.cells@.len(),
{
    let nr = runs.push(r);
    assert(nr.drop_last() =~= runs);
    assert forall|k: int| 0 <= k < nr.len() - 1 implies run_end(#[trigger] nr[k]) + 5 <= run_start(nr[k + 1]) by {
        if k == nr.len() - 2 {
            assert(nr[k] == runs.last());
            if run_end(runs.last()) + 5 > i {
                assert(!differs(prev, cur, i));
            }
        }
    }
    assert forall|x: int| 0 <= x < run_end(r) && #[trigger] differs(prev, cur, x) implies exists|k: int|
        0 <= k < nr.len() && run_start(#[trigger] nr[k]) <= x < run_end(nr[k]) by {
        if x >= i {
            assert(run_start(nr[runs.len() as int]) <= x < run_end(nr[runs.len() as int]));
        } else {
            let k = choose|k: int| 0 <= k < runs.len() && run_start(#[trigger] runs[k]) <= x < run_end(runs[k]);
            assert(nr[k] == runs[k]);
        }
    }
}

/// The runs of changes from `prev` to `cur`, and how many cells they carry.
fn change_clusters(prev: &Vec<Cell>, cur: &Vec<Cell>) -> (res: (Vec<DiffRun>, usize))
    requires
        prev@.len() == cur@.len(),
        cur@.len() <= u32::MAX,
    ensures
        change_runs(prev@, cur@, res.0@),
        res.1 == run_cells(res.0@),
        res.1 <= cur@.len(),
{
    let n = cur.len();
    let mut runs: Vec<DiffRun> = Vec::new();
    let mut changed_total: usize = 0;
    let mut i: usize = 0;
    while i < n
        invariant
            n == cur@.len(),
            prev@.len() == n,
            n <= u32::MAX,
            i <= n,
            runs_upto(prev@, cur@, runs@, i as int),
            changed_total == run_cells(runs@),
            changed_total <= i,
        decreases n - i,
    {
        if prev[i] == cur[i] {
            proof {
                reveal(differs);
                lemma_skip_unchanged(prev@, cur@, runs@, i as int);
            }
            i += 1;
            continue;
        }
        let start = i;
        assert(differs(prev@, cur@, i as int)) by {
            reveal(differs);
        }
        let end = scan_run(prev, cur, start);
        let cells = copy_cells(cur, start, end);
        let run = DiffRun { start: start as u32, cells };
        proof {
            lemma_push_run(prev@, cur@, runs@, i as int, run);
        }
        runs.push(run);
        changed_total = changed_total + (end - start);
        i = end;
    }
    (runs, changed_total)
}

/// The runs that turn the previous frame into the current one: the runs
/// of changes, or one run with the whole grid when they would carry more
/// than `FULL_REPLACE_THRESHOLD` percent of it. Written into `prev` in
/// order, they give `cur`.
pub fn compute_runs(prev: &Vec<Cell>, cur: &Vec<Cell>) -> (runs: Vec<DiffRun>)
    requires
        prev@.len() == cur@.len(),
        cur@.len() <= u32::MAX,
        cur@.len() * 100 <= usize::MAX,
    ensures
        exists|clusters: Seq<DiffRun>| {
            &&& change_runs(prev@, cur@, clusters)
            &&& if cur@.len() > 0 && run_cells(clusters) * 100 / (cur@.len() as int) > 70 {
                runs@.len() == 1 && runs@[0].start == 0 && runs@[0].cells@ == cur@
            } else {
                runs@ == clusters
            }
        },
        apply_runs(prev@, runs@) == cur@,
{
    let n = cur.len();
    let (runs, changed_total) = change_clusters(prev, cur);
    let ghost clusters = runs@;
    proof {
        lemma_apply_runs_rebuilds(prev@, cur@, clusters);
    }
    if n > 0 && (changed_total * 100 / n) > FULL_REPLACE_THRESHOLD {
        let all = copy_cells(cur, 0, n);
        assert(all@ =~= cur@);
        let mut full: Vec<DiffRun> = Vec::new();
        full.push(DiffRun { start: 0, cells: all });
        proof {
            let r = full@[0];
            assert(apply_run(prev@, r) =~= cur@);
            assert(full@.drop_first() =~= Seq::<DiffRun>::empty());
            assert(apply_runs(cur@, full@.drop_first()) == cur@);
            assert(apply_runs(prev@, full@) == apply_runs(apply_run(prev@, r), full@.drop_first()));
        }
        return full;
    }
    runs
}


/// The runs of one frame: the whole grid when the grid's size changed,
/// else the diff against the previous frame.
pub fn frame_runs(prev: &Vec<Cell>, prev_dims: (u16, u16), cur: &Vec<Cell>, dims: (u16, u16)) -> (runs: Vec<DiffRun>)
    requires
        cur@.len() <= u32::MAX,
        cur@.len() * 100 <= usize::MAX,
    ensures
        if prev@.len() != cur@.len() || prev_dims != dims {
            runs@.len() == 1 && runs@[0].start == 0 && runs@[0].cells@ == cur@
        } else {
            &&& exists|clusters: Seq<DiffRun>| {
                &&& change_runs(prev@, cur@, clusters)
                &&& if cur@.len() > 0 && run_cells(clusters) * 100 / (cur@.len() as int) > 70 {
                    runs@.len() == 1 && runs@[0].start == 0 && runs@[0].cells@ == cur@
                } else {
                    runs@ == clusters
                }
            }
            &&& apply_runs(prev@, runs@) == cur@
        },
{
    if prev.len() != cur.len() || prev_dims.0 != dims.0 || prev_dims.1 != dims.1 {
        let all = copy_cells(cur, 0, cur.len());
        assert(all@ =~= cur@);
        let mut full: Vec<DiffRun> = Vec::new();
        full.push(DiffRun { start: 0, cells: all });
        full
    } else {
        compute_runs(prev, cur)
    }
}

/// The grid size after the latest resize request: taken when it differs
/// from the current size and has no zero dimension.
pub fn accept_resize(cols: u16, rows: u16, latest: Option<(u16, u16)>) -> (r: Option<(u16, u16)>)
    ensures
        r == match latest {
            Some((c, w)) => if (c != cols || w != rows) && c > 0 && w > 0 {
                Some((c, w))
            } else {
                None
            },
            None => None,
        },
{
    match latest {
        Some((c, w)) => if (c != cols || w != rows) && c > 0 && w > 0 {
            Some((c, w))
        } else {
            None
        },
        None => None,
    }
}

/// Hosted mode's timed refresh: an interval is set and at least that many
/// whole seconds passed since `since` (monotonic nanoseconds).
pub fn refresh_due(interval_secs: u64, since: u64, now: u64) -> (b: bool)
    ensures
        b == (interval_secs > 0 && crate::app::elapsed_secs(since, now) >= interval_secs),
{
    if interval_secs == 0 {
        return false;
    }
    let el = if now >= since {
        (now - since) / 1_000_000_000
    } else {
        0
    };
    el >= interval_secs
}

} // verus!
