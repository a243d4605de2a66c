//! 4x4 matrix keypad: decode table, row-strobe schedule, and
//! edge-triggered key-change reporting.

use vstd::prelude::*;

verus! {

/// One of the sixteen keys of the 4x4 pad.
#[derive(Clone, Copy, Debug, PartialEq, Eq, Structural)]
pub enum Key {
    One,
    Two,
    Three,
    A,
    Four,
    Five,
    Six,
    B,
    Seven,
    Eight,
    Nine,
    C,
    Wildcard,
    Zero,
    Pound,
    D,
}

impl Key {
    /// The character printed on the key's cap.
    pub open spec fn spec_char(self) -> char {
        match self {
            Key::A => 'A',
            Key::B => 'B',
            Key::C => 'C',
            Key::D => 'D',
            Key::One => '1',
            Key::Two => '2',
            Key::Three => '3',
            Key::Four => '4',
            Key::Five => '5',
            Key::Six => '6',
            Key::Seven => '7',
            Key::Eight => '8',
            Key::Nine => '9',
            Key::Zero => '0',
            Key::Wildcard => '*',
            Key::Pound => '#',
        }
    }

    /// The character printed on the key's cap, for display or logging.
    pub fn to_char(self) -> (c: char)
        ensures
            c == self.spec_char(),
    {
        match self {
            Key::A => 'A',
            Key::B => 'B',
            Key::C => 'C',
            Key::D => 'D',
            Key::One => '1',
            Key::Two => '2',
            Key::Three => '3',
            Key::Four => '4',
            Key::Five => '5',
            Key::Six => '6',
            Key::Seven => '7',
            Key::Eight => '8',
            Key::Nine => '9',
            Key::Zero => '0',
            Key::Wildcard => '*',
            Key::Pound => '#',
        }
    }
}

/// The key at a given position of the pad, row-major:
/// row 0 = {1, 2, 3, A}, row 1 = {4, 5, 6, B},
/// row 2 = {7, 8, 9, C}, row 3 = {*, 0, #, D}.
pub open spec fn key_at(row: int, col: int) -> Key
    recommends
        0 <= row < 4,
        0 <= col < 4,
{
    if row == 0 {
        if col == 0 {
            Key::One
        } else if col == 1 {
            Key::Two
        } else if col == 2 {
            Key::Three
        } else {
            Key::A
        }
    } else if row == 1 {
        if col == 0 {
            Key::Four
        } else if col == 1 {
            Key::Five
        } else if col == 2 {
            Key::Six
        } else {
            Key::B
        }
    } else if row == 2 {
        if col == 0 {
            Key::Seven
        } else if col == 1 {
            Key::Eight
        } else if col == 2 {
            Key::Nine
        } else {
            Key::C
        }
    } else {
        if col == 0 {
            Key::Wildcard
        } else if col == 1 {
            Key::Zero
        } else if col == 2 {
            Key::Pound
        } else {
            Key::D
        }
    }
}

/// Looks a key up in the decode table.
pub fn key_map(row: usize, col: usize) -> (k: Key)
    requires
        row < 4,
        col < 4,
    ensures
        k == key_at(row as int, col as int),
{
    if row == 0 {
        if col == 0 {
            Key::One
        } else if col == 1 {
            Key::Two
        } else if col == 2 {
            Key::Three
        } else {
            Key::A
        }
    } else if row == 1 {
        if col == 0 {
            Key::Four
        } else if col == 1 {
            Key::Five
        } else if col == 2 {
            Key::Six
        } else {
            Key::B
        }
    } else if row == 2 {
        if col == 0 {
            Key::Seven
        } else if col == 1 {
            Key::Eight
        } else if col == 2 {
            Key::Nine
        } else {
            Key::C
        }
    } else {
        if col == 0 {
            Key::Wildcard
        } else if col == 1 {
            Key::Zero
        } else if col == 2 {
            Key::Pound
        } else {
            Key::D
        }
    }
}

/// The row and column on which a key sits, inverse of [`key_at`].
pub open spec fn key_position(k: Key) -> (int, int) {
    match k {
        Key::One => (0, 0),
        Key::Two => (0, 1),
        Key::Three => (0, 2),
        Key::A => (0, 3),
        Key::Four => (1, 0),
        Key::Five => (1, 1),
        Key::Six => (1, 2),
        Key::B => (1, 3),
        Key::Seven => (2, 0),
        Key::Eight => (2, 1),
        Key::Nine => (2, 2),
        Key::C => (2, 3),
        Key::Wildcard => (3, 0),
        Key::Zero => (3, 1),
        Key::Pound => (3, 2),
        Key::D => (3, 3),
    }
}

/// The decode table is a bijection over the sixteen positions of the pad:
/// [`key_position`] inverts it, so distinct positions carry distinct keys.
pub proof fn lemma_key_table_bijective()
    ensures
        forall|row: int, col: int|
            0 <= row < 4 && 0 <= col < 4 ==> #[trigger] key_position(key_at(row, col)) == (
            row,
            col,
            ),
        forall|r1: int, c1: int, r2: int, c2: int|
            0 <= r1 < 4 && 0 <= c1 < 4 && 0 <= r2 < 4 && 0 <= c2 < 4 && #[trigger] key_at(r1, c1)
                == #[trigger] key_at(r2, c2) ==> r1 == r2 && c1 == c2,
{
    assert forall|row: int, col: int| 0 <= row < 4 && 0 <= col < 4 implies #[trigger] key_position(
        key_at(row, col),
    ) == (row, col) by {
        assert(key_position(key_at(row, col)) == (row, col));
    }
}

/// Whether cell `i` of the grid, in row-major order, is pressed.
pub open spec fn cell(grid: [[bool; 4]; 4], i: int) -> bool
    recommends
        0 <= i < 16,
{
    grid[i / 4][i % 4]
}

/// The decoded key after visiting the first `n` cells in row-major
/// order, each pressed cell overwriting the candidate found so far:
/// the last pressed cell among `0 .. n` wins.
pub open spec fn decode_prefix(grid: [[bool; 4]; 4], n: int) -> Option<Key>
    recommends
        0 <= n <= 16,
    decreases n,
{
    if n <= 0 {
        None
    } else if cell(grid, n - 1) {
        Some(key_at((n - 1) / 4, (n - 1) % 4))
    } else {
        decode_prefix(grid, n - 1)
    }
}

/// The key a full grid decodes to: the last pressed cell in
/// row-major order, or `None` when nothing is pressed.
pub open spec fn decoded(grid: [[bool; 4]; 4]) -> Option<Key> {
    decode_prefix(grid, 16)
}

/// A prefix decodes to nothing exactly when none of its cells is
/// pressed.
pub proof fn lemma_decode_prefix_none(grid: [[bool; 4]; 4], n: int)
    requires
        0 <= n <= 16,
    ensures
        decode_prefix(grid, n) is None <==> (forall|i: int| 0 <= i < n ==> !#[trigger] cell(
            grid,
            i,
        )),
    decreases n,
{
    if n > 0 {
        lemma_decode_prefix_none(grid, n - 1);
    }
}

/// A grid decodes to nothing exactly when no key is pressed — which
/// is why a release cannot be told apart from an idle scan.
pub proof fn lemma_decoded_none_iff_idle(grid: [[bool; 4]; 4])
    ensures
        decoded(grid) is None <==> (forall|i: int| 0 <= i < 16 ==> !#[trigger] cell(grid, i)),
{
    lemma_decode_prefix_none(grid, 16);
}

/// Decodes a sampled grid: visits the cells row-major, every pressed
/// cell overwriting the candidate, so the last pressed cell wins.
pub fn decode(grid: &[[bool; 4]; 4]) -> (k: Option<Key>)
    ensures
        k == decoded(*grid),
{
    let mut candidate: Option<Key> = None;
    for row in 0..4usize
        invariant
            candidate == decode_prefix(*grid, 4 * row as int),
    {
        for col in 0..4usize
            invariant
                row < 4,
                candidate == decode_prefix(*grid, 4 * row as int + col as int),
        {
            let i: usize = 4 * row + col;
            if grid[row][col] {
                candidate = Some(key_map(row, col));
            }
            assert(candidate == decode_prefix(*grid, i as int + 1));
        }
    }
    candidate
}

/// One step of the row-strobe schedule: drive a row output line to a
/// level, or sample all four column input lines into row `row` of the
/// grid.
#[derive(Clone, Copy, Debug, PartialEq, Eq, Structural)]
pub enum ScanOp {
    Drive { row: usize, high: bool },
    Sample { row: usize },
}

/// The full strobe schedule of one scan: for each row in fixed order,
/// drive it high, sample the columns, drive it back low.
pub open spec fn scan_ops() -> Seq<ScanOp> {
    seq![
        ScanOp::Drive { row: 0, high: true },
        ScanOp::Sample { row: 0 },
        ScanOp::Drive { row: 0, high: false },
        ScanOp::Drive { row: 1, high: true },
        ScanOp::Sample { row: 1 },
        ScanOp::Drive { row: 1, high: false },
        ScanOp::Drive { row: 2, high: true },
        ScanOp::Sample { row: 2 },
        ScanOp::Drive { row: 2, high: false },
        ScanOp::Drive { row: 3, high: true },
        ScanOp::Sample { row: 3 },
        ScanOp::Drive { row: 3, high: false },
    ]
}

/// Whether row line `r` is high once every operation of `ops` has
/// run: the last drive of that line decides, and the lines idle low.
pub open spec fn row_high_after(ops: Seq<ScanOp>, r: int) -> bool
    decreases ops.len(),
{
    if ops.len() == 0 {
        false
    } else {
        match ops.last() {
            ScanOp::Drive { row, high } => if row == r {
                high
            } else {
                row_high_after(ops.drop_last(), r)
            },
            ScanOp::Sample { .. } => row_high_after(ops.drop_last(), r),
        }
    }
}

/// Which lines are high at each instant of the schedule: after `i`
/// operations, no line is high between rows, and while row `i / 3` is
/// being strobed it is the one high line.
pub proof fn lemma_scan_row_levels(i: int)
    requires
        0 <= i <= scan_ops().len(),
    ensures
        forall|r: int| row_high_after(scan_ops().take(i), r) <==> (i % 3 != 0 && r == i / 3),
    decreases i,
{
    if i == 0 {
        assert(scan_ops().take(0) =~= Seq::<ScanOp>::empty());
    } else {
        lemma_scan_row_levels(i - 1);
        let p = scan_ops().take(i);
        assert(p.len() == i);
        assert(p.drop_last() =~= scan_ops().take(i - 1));
        assert(p.last() == scan_ops()[i - 1]);
        assert forall|r: int| row_high_after(p, r) <==> (i % 3 != 0 && r == i / 3) by {
            assert(row_high_after(p, r) == (match p.last() {
                ScanOp::Drive { row, high } => if row == r {
                    high
                } else {
                    row_high_after(p.drop_last(), r)
                },
                ScanOp::Sample { .. } => row_high_after(p.drop_last(), r),
            }));
            if i == 1 {
                assert(p.last() == ScanOp::Drive { row: 0, high: true });
            } else if i == 2 {
                assert(p.last() == ScanOp::Sample { row: 0 });
            } else if i == 3 {
                assert(p.last() == ScanOp::Drive { row: 0, high: false });
            } else if i == 4 {
                assert(p.last() == ScanOp::Drive { row: 1, high: true });
            } else if i == 5 {
                assert(p.last() == ScanOp::Sample { row: 1 });
            } else if i == 6 {
                assert(p.last() == ScanOp::Drive { row: 1, high: false });
            } else if i == 7 {
                assert(p.last() == ScanOp::Drive { row: 2, high: true });
            } else if i == 8 {
                assert(p.last() == ScanOp::Sample { row: 2 });
            } else if i == 9 {
                assert(p.last() == ScanOp::Drive { row: 2, high: false });
            } else if i == 10 {
                assert(p.last() == ScanOp::Drive { row: 3, high: true });
            } else if i == 11 {
                assert(p.last() == ScanOp::Sample { row: 3 });
            } else {
                assert(i == 12);
                assert(p.last() == ScanOp::Drive { row: 3, high: false });
            }
        }
    }
}

/// At most one row output line is high at any instant of the scan.
pub proof fn lemma_at_most_one_row_high(i: int, r1: int, r2: int)
    requires
        0 <= i <= scan_ops().len(),
        row_high_after(scan_ops().take(i), r1),
        row_high_after(scan_ops().take(i), r2),
    ensures
        r1 == r2,
{
    lemma_scan_row_levels(i);
}

/// Each sample is taken while its own row, and no other, is high.
pub proof fn lemma_sample_sees_own_row(j: int)
    requires
        0 <= j < scan_ops().len(),
        scan_ops()[j] is Sample,
    ensures
        forall|r: int|
            row_high_after(scan_ops().take(j), r) <==> r == scan_ops()[j]->Sample_row as int,
{
    lemma_scan_row_levels(j);
}

/// The strobe schedule as a list for the scan loop to carry out.
pub fn scan_schedule() -> (ops: Vec<ScanOp>)
    ensures
        ops@ == scan_ops(),
{
    let mut ops: Vec<ScanOp> = Vec::new();
    let mut row: usize = 0;
    while row < 4
        invariant
            row <= 4,
            ops@ =~= scan_ops().take(3 * row as int),
        decreases 4 - row,
    {
        ops.push(ScanOp::Drive { row, high: true });
        ops.push(ScanOp::Sample { row });
        ops.push(ScanOp::Drive { row, high: false });
        row = row + 1;
    }
    assert(ops@ =~= scan_ops());
    ops
}

/// What a scan of `grid` reports when `last` was the key reported
/// before: the decoded candidate when it differs from `last`, and
/// nothing when it is unchanged (held key or still-idle pad).
pub open spec fn report_of(last: Option<Key>, grid: [[bool; 4]; 4]) -> Option<Key> {
    if decoded(grid) == last {
        None
    } else {
        decoded(grid)
    }
}

/// The edge-detection state after a scan of `grid` when `last` was
/// the key reported before.
pub open spec fn next_last(last: Option<Key>, grid: [[bool; 4]; 4]) -> Option<Key> {
    if decoded(grid) == last {
        last
    } else {
        decoded(grid)
    }
}

/// A key transition is reported at most once: a second scan of the
/// same grid, right after any scan of it, reports nothing.
pub proof fn lemma_repeat_scan_suppressed(last: Option<Key>, grid: [[bool; 4]; 4])
    ensures
        report_of(next_last(last, grid), grid) == None::<Key>,
{
}

/// Edge-detection state of the keypad scanner. The grids it consumes
/// come from strobing the pad as [`scan_ops`] prescribes.
pub struct KeyPad {
    last_pressed_key: Option<Key>,
}

impl KeyPad {
    /// The key most recently reported by [`KeyPad::pressed_key`],
    /// `None` while no press has been reported.
    pub closed spec fn last_reported(self) -> Option<Key> {
        self.last_pressed_key
    }

    /// A fresh scanner that has reported nothing yet.
    pub fn new() -> (pad: KeyPad)
        ensures
            pad.last_reported() == None::<Key>,
    {
        KeyPad { last_pressed_key: None }
    }

    /// Decodes one sampled grid and reports the key change, if any:
    /// the decoded candidate when it differs from the key reported
    /// last, and `None` while the decode is unchanged. A release is
    /// indistinguishable from an idle scan: both decode to `None`.
    pub fn pressed_key(&mut self, grid: &[[bool; 4]; 4]) -> (r: Option<Key>)
        ensures
            r == report_of(old(self).last_reported(), *grid),
            final(self).last_reported() == next_last(old(self).last_reported(), *grid),
    {
        let candidate = decode(grid);
        let unchanged: bool = match (&candidate, &self.last_pressed_key) {
            (Option::None, Option::None) => true,
            (Option::Some(a), Option::Some(b)) => *a == *b,
            _ => false,
        };
        if unchanged {
            None
        } else {
            self.last_pressed_key = candidate;
            candidate
        }
    }
}

} // verus!
