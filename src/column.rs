use vstd::prelude::*;

use crate::palette::{
    HEAD_COLOR, REGEN_SYMBOLS, in_alphabet, nucleotide, symbol_at, trail_color, trail_color_spec,
};
use crate::random::random_in;

verus! {

/// One character cell to paint: put `ch` at column `x`, row `row`, in
/// `color`, or in the colour already set when `color` is `None`.
#[derive(Clone, Copy, Debug, PartialEq, Eq)]
pub struct Cell {
    pub x: u16,
    pub row: u16,
    pub ch: char,
    pub color: Option<(u8, u8, u8)>,
}

/// One falling stream of letters.
///
/// `y` is the row of the head (negative while the stream is still above the
/// screen); `trail_len` rows behind it stay lit; `characters` holds one
/// letter per screen row.
#[derive(Debug)]
pub struct Column {
    pub x: u16,
    pub y: i32,
    pub speed: u16,
    pub trail_len: u16,
    pub characters: Vec<char>,
}

/// The trail length of a column on a screen `height` rows tall.
pub open spec fn trail_length_of(height: int) -> int {
    if height / 3 >= 4 {
        height / 3
    } else {
        4
    }
}

/// Whether `row` lies on a screen `height` rows tall.
pub open spec fn on_screen(row: int, height: int) -> bool {
    0 <= row < height
}

/// The longest trail: a third of the tallest screen.
pub const MAX_TRAIL: u16 = 21845;

/// The trail length of a column on a screen `height` rows tall: a third of
/// the height, and never below four.
pub fn trail_length_for(height: u16) -> (r: u16)
    ensures
        r as int == trail_length_of(height as int),
        4 <= r <= MAX_TRAIL,
{
    let third = height / 3;
    if third >= 4 {
        third
    } else {
        4
    }
}

/// `n` letters, each drawn at random from the first `count` symbols of the
/// alphabet.
fn random_symbols(n: usize, count: usize) -> (r: Vec<char>)
    requires
        0 < count <= 5,
    ensures
        r@.len() == n,
        forall|k: int| 0 <= k < n ==> in_alphabet(#[trigger] r@[k], count as int),
{
    let mut out: Vec<char> = Vec::new();
    let mut k: usize = 0;
    while k < n
        invariant
            0 < count <= 5,
            k <= n,
            out@.len() == k,
            forall|j: int| 0 <= j < k ==> in_alphabet(#[trigger] out@[j], count as int),
        decreases n - k,
    {
        let idx = random_in(0, count as i32) as usize;
        let c = symbol_at(idx);
        assert(nucleotide(idx as int) == c);
        out.push(c);
        k = k + 1;
    }
    out
}

impl Column {
    /// The column's own invariant: a trail of at least four rows, a head
    /// that is never more than a trail above the screen nor far below it,
    /// a speed of at least one row, and letters of the alphabet only.
    pub open spec fn wf(&self) -> bool {
        &&& 4 <= self.trail_len <= MAX_TRAIL
        &&& -(self.trail_len as int) <= self.y <= 65535 + self.trail_len
        &&& 1 <= self.speed
        &&& forall|k: int|
            0 <= k < self.characters@.len() ==> in_alphabet(
                #[trigger] self.characters@[k],
                5,
            )
    }

    /// Whether the step after this state carries the tail below a screen
    /// `height` rows tall.
    pub open spec fn wraps(&self, height: int) -> bool {
        self.y + self.speed - self.trail_len > height
    }

    /// `next` is a state that one `update` on a screen `height` rows tall can
    /// reach from this one: the head moves down by `speed`; once the tail has
    /// left the screen, the head restarts above the screen and the letters are
    /// drawn anew from the first four symbols.
    pub open spec fn steps_to(&self, next: Column, height: int) -> bool {
        &&& next.x == self.x
        &&& next.speed == self.speed
        &&& next.trail_len == self.trail_len
        &&& next.characters@.len() == self.characters@.len()
        &&& if self.wraps(height) {
            &&& -(self.trail_len as int) <= next.y < 0
            &&& forall|k: int|
                0 <= k < next.characters@.len() ==> in_alphabet(
                    #[trigger] next.characters@[k],
                    4,
                )
        } else {
            &&& next.y == self.y + self.speed
            &&& next.characters@ == self.characters@
        }
    }

    /// The cell of trail row `i` (0 is the head).
    pub open spec fn trail_cell(&self, i: int) -> Cell {
        let row = self.y - i;
        Cell {
            x: self.x,
            row: row as u16,
            ch: self.characters@[row],
            color: Some(trail_color_spec(self.characters@[row], i, self.trail_len as int)),
        }
    }

    /// The cells of trail rows `0 .. n` that lie on a screen `height` rows
    /// tall, head first.
    pub open spec fn trail_cells(&self, height: int, n: int) -> Seq<Cell>
        decreases n,
    {
        if n <= 0 {
            seq![]
        } else {
            let before = self.trail_cells(height, n - 1);
            if on_screen(self.y - (n - 1), height) {
                before.push(self.trail_cell(n - 1))
            } else {
                before
            }
        }
    }

    /// The row just beyond the end of the trail.
    pub open spec fn erase_row(&self) -> int {
        self.y - self.trail_len - 1
    }

    /// What one frame paints of this column: the visible rows of head and
    /// trail, then a blank over the row just beyond the trail if it is on
    /// the screen.
    pub open spec fn draw_spec(&self, height: int) -> Seq<Cell> {
        let trail = self.trail_cells(height, self.trail_len + 1);
        if on_screen(self.erase_row(), height) {
            trail.push(Cell { x: self.x, row: self.erase_row() as u16, ch: ' ', color: None })
        } else {
            trail
        }
    }
}

impl Column {
    /// A column at `x` on a screen `height` rows tall: its head starts at a
    /// random row in `[-trail_len, 0)`, above the screen, and each of its
    /// `height` letters is drawn at random from the whole alphabet.
    pub fn new(x: u16, height: u16) -> (r: Column)
        ensures
            r.wf(),
            r.x == x,
            r.trail_len as int == trail_length_of(height as int),
            -(r.trail_len as int) <= r.y < 0,
            r.speed == 1,
            r.characters@.len() == height,
    {
        let trail_len = trail_length_for(height);
        let y = random_in(-(trail_len as i32), 0);
        let speed = random_in(1, 2) as u16;
        let characters = random_symbols(height as usize, 5);
        Column { x, y, speed, trail_len, characters }
    }

    /// The cells that one frame paints of this column on a screen `height`
    /// rows tall: rows `y - i` for `i` in `0 ..= trail_len` that lie on the
    /// screen, the head in white and the rest in their letter's colour faded
    /// toward the tail, then a blank just beyond the trail.
    pub fn draw(&self, height: u16) -> (r: Vec<Cell>)
        requires
            self.wf(),
            height as int <= self.characters@.len(),
        ensures
            r@ == self.draw_spec(height as int),
            forall|k: int|
                0 <= k < r@.len() ==> {
                    &&& (#[trigger] r@[k]).x == self.x
                    &&& on_screen(r@[k].row as int, height as int)
                    &&& r@[k].row == self.y ==> r@[k].color == Some(HEAD_COLOR)
                },
    {
        let t = self.trail_len;
        let mut out: Vec<Cell> = Vec::new();
        let mut i: u16 = 0;
        while i <= t
            invariant
                self.wf(),
                t == self.trail_len,
                height as int <= self.characters@.len(),
                i <= t + 1,
                out@ == self.trail_cells(height as int, i as int),
                forall|k: int|
                    0 <= k < out@.len() ==> {
                        &&& (#[trigger] out@[k]).x == self.x
                        &&& on_screen(out@[k].row as int, height as int)
                        &&& out@[k].row == self.y ==> out@[k].color == Some(HEAD_COLOR)
                    },
            decreases t + 1 - i,
        {
            let row = self.y - i as i32;
            if row >= 0 && row < height as i32 {
                let ch = self.characters[row as usize];
                let color = trail_color(ch, i, t);
                out.push(Cell { x: self.x, row: row as u16, ch, color: Some(color) });
            }
            i = i + 1;
        }
        let erase = self.y - t as i32 - 1;
        if erase >= 0 && erase < height as i32 {
            out.push(Cell { x: self.x, row: erase as u16, ch: ' ', color: None });
        }
        out
    }

    /// Moves the head down by `speed`; once the tail has left a screen
    /// `height` rows tall, restarts the head at a random row in
    /// `[-trail_len, 0)` and draws every letter anew from the first four
    /// symbols of the alphabet.
    pub fn update(&mut self, height: u16)
        requires
            old(self).wf(),
        ensures
            final(self).wf(),
            old(self).steps_to(*final(self), height as int),
    {
        self.y = self.y + self.speed as i32;
        if self.y - self.trail_len as i32 > height as i32 {
            self.y = random_in(-(self.trail_len as i32), 0);
            self.characters = random_symbols(self.characters.len(), REGEN_SYMBOLS);
        }
    }
}

} // verus!
