use vstd::prelude::*;

use crate::column::{Cell, Column, on_screen, trail_length_of};

verus! {

/// A key press, as far as the animation cares about it.
#[derive(Clone, Copy, Debug, PartialEq, Eq)]
pub enum Key {
    Char(char),
    Esc,
    Other,
}

/// Whether `key` ends the animation: `q` or `Esc`.
pub open spec fn quits(key: Key) -> bool {
    key == Key::Char('q') || key == Key::Esc
}

/// Whether `key` ends the animation: `q` or `Esc`.
pub fn is_quit(key: Key) -> (r: bool)
    ensures
        r == quits(key),
{
    match key {
        Key::Char(c) => c == 'q',
        Key::Esc => true,
        Key::Other => false,
    }
}

/// Whether the input of a frame asks to quit.
pub open spec fn quit_requested(key: Option<Key>) -> bool {
    match key {
        Some(k) => quits(k),
        None => false,
    }
}

/// What one frame paints of `columns`, column after column.
pub open spec fn scene_cells(columns: Seq<Column>, height: int) -> Seq<Cell>
    decreases columns.len(),
{
    if columns.len() == 0 {
        seq![]
    } else {
        scene_cells(columns.drop_last(), height) + columns.last().draw_spec(height)
    }
}

/// All the columns of a screen `height` rows tall, one every second cell.
#[derive(Debug)]
pub struct Scene {
    pub height: u16,
    pub columns: Vec<Column>,
}

impl Scene {
    /// Every column is well formed and holds a letter for each row.
    pub open spec fn wf(&self) -> bool {
        forall|k: int|
            0 <= k < self.columns@.len() ==> {
                &&& (#[trigger] self.columns@[k]).wf()
                &&& self.columns@[k].characters@.len() == self.height
            }
    }

    /// One column at each even `x` in `[0, width)`, in order, all for a
    /// screen `height` rows tall.
    pub fn new(width: u16, height: u16) -> (r: Scene)
        ensures
            r.wf(),
            r.height == height,
            r.columns@.len() == (width as int + 1) / 2,
            forall|k: int|
                0 <= k < r.columns@.len() ==> {
                    &&& (#[trigger] r.columns@[k]).x == 2 * k
                    &&& r.columns@[k].trail_len as int == trail_length_of(height as int)
                    &&& -(r.columns@[k].trail_len as int) <= r.columns@[k].y < 0
                },
    {
        let mut columns: Vec<Column> = Vec::new();
        let mut x: u32 = 0;
        while x < width as u32
            invariant
                x % 2 == 0,
                x <= width + 1,
                columns@.len() == x / 2,
                forall|k: int|
                    0 <= k < columns@.len() ==> {
                        &&& (#[trigger] columns@[k]).wf()
                        &&& columns@[k].characters@.len() == height
                        &&& columns@[k].x == 2 * k
                        &&& columns@[k].trail_len as int == trail_length_of(height as int)
                        &&& -(columns@[k].trail_len as int) <= columns@[k].y < 0
                    },
            decreases width + 1 - x,
        {
            columns.push(Column::new(x as u16, height));
            x = x + 2;
        }
        Scene { height, columns }
    }

    /// One frame. A quit key (`q` or `Esc`) returns `None` and leaves every
    /// column as it was. Otherwise each column, in order, is drawn and then
    /// updated, and all the cells drawn are returned, column after column.
    pub fn frame(&mut self, key: Option<Key>) -> (r: Option<Vec<Cell>>)
        requires
            old(self).wf(),
        ensures
            final(self).wf(),
            final(self).height == old(self).height,
            final(self).columns@.len() == old(self).columns@.len(),
            quit_requested(key) ==> r is None && *final(self) == *old(self),
            !quit_requested(key) ==> {
                &&& r is Some
                &&& r->0@ == scene_cells(old(self).columns@, old(self).height as int)
                &&& forall|k: int|
                    0 <= k < old(self).columns@.len() ==> #[trigger] old(
                        self,
                    ).columns@[k].steps_to(final(self).columns@[k], old(self).height as int)
                &&& forall|k: int|
                    0 <= k < r->0@.len() ==> on_screen(
                        (#[trigger] r->0@[k]).row as int,
                        old(self).height as int,
                    )
            },
    {
        if let Some(k) = key {
            if is_quit(k) {
                return None;
            }
        }
        let height = self.height;
        let n = self.columns.len();
        let mut cells: Vec<Cell> = Vec::new();
        let mut i: usize = 0;
        while i < n
            invariant
                self.wf(),
                self.height == height,
                height == old(self).height,
                n == old(self).columns@.len(),
                self.columns@.len() == n,
                i <= n,
                cells@ == scene_cells(old(self).columns@.take(i as int), height as int),
                forall|k: int|
                    0 <= k < i ==> #[trigger] old(self).columns@[k].steps_to(
                        self.columns@[k],
                        height as int,
                    ),
                forall|k: int| i <= k < n ==> #[trigger] self.columns@[k] == old(self).columns@[k],
                forall|k: int|
                    0 <= k < cells@.len() ==> on_screen(
                        (#[trigger] cells@[k]).row as int,
                        height as int,
                    ),
            decreases n - i,
        {
            let mut drawn = self.columns[i].draw(height);
            proof {
                let done = old(self).columns@.take(i as int + 1);
                assert(done.drop_last() =~= old(self).columns@.take(i as int));
                assert(done.last() == self.columns@[i as int]);
            }
            cells.append(&mut drawn);
            self.columns[i].update(height);
            i = i + 1;
        }
        assert(old(self).columns@.take(n as int) =~= old(self).columns@);
        Some(cells)
    }
}

} // verus!
