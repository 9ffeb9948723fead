//! The cursor's visibility state and its dirty mark.

use vstd::prelude::*;

verus! {

/// Whether the cursor is to be shown, and whether what is drawn of it is stale.
///
/// Every change of `show` made through the methods sets `dirty` in the same
/// call; only the per-frame update clears it.
#[derive(Clone, Copy, Debug, PartialEq, Eq, Structural)]
pub struct Cursor {
    pub show: bool,
    pub dirty: bool,
}

/// One call that gameplay code makes on a cursor.
pub enum Mark {
    SetShow(bool),
    Hide,
    Dirty,
}

impl Default for Cursor {
    /// Not shown, and nothing to redraw.
    fn default() -> (c: Self)
        ensures
            c == (Cursor { show: false, dirty: false }),
    {
        Cursor { show: false, dirty: false }
    }
}

impl Cursor {
    /// The cursor after one call.
    pub open spec fn after(self, mark: Mark) -> Cursor {
        match mark {
            Mark::SetShow(show) => Cursor { show, dirty: true },
            Mark::Hide => Cursor { show: false, dirty: true },
            Mark::Dirty => Cursor { show: self.show, dirty: true },
        }
    }

    /// The cursor after a sequence of calls, made in order.
    pub open spec fn after_all(self, marks: Seq<Mark>) -> Cursor
        decreases marks.len(),
    {
        if marks.len() == 0 {
            self
        } else {
            self.after_all(marks.drop_last()).after(marks.last())
        }
    }

    /// Sets `show` and marks the cursor for redraw, whatever it held before.
    pub fn set_show(&mut self, show: bool)
        ensures
            final(self).show == show,
            final(self).dirty,
            *final(self) == old(self).after(Mark::SetShow(show)),
    {
        self.show = show;
        self.dirty();
    }

    /// The same as `set_show(false)`.
    pub fn hide_cursor(&mut self)
        ensures
            !final(self).show,
            final(self).dirty,
            *final(self) == old(self).after(Mark::Hide),
    {
        self.show = false;
        self.dirty();
    }

    /// Marks the cursor for redraw and leaves `show` as it is.
    pub fn dirty(&mut self)
        ensures
            final(self).show == old(self).show,
            final(self).dirty,
            *final(self) == old(self).after(Mark::Dirty),
    {
        self.dirty = true;
    }

    /// Whatever the cursor held and whatever calls are made on it, it is dirty
    /// after each of them.
    pub proof fn lemma_dirty_after_every_call(self, marks: Seq<Mark>)
        ensures
            forall|n: int| 0 < n <= marks.len() ==> (#[trigger] self.after_all(marks.take(n))).dirty,
    {
    }

    /// After a sequence of calls that ends in `set_show(show)`, the cursor
    /// holds `show`.
    pub proof fn lemma_last_set_show_decides(self, marks: Seq<Mark>, show: bool)
        ensures
            self.after_all(marks.push(Mark::SetShow(show))).show == show,
    {
    }
}

} // verus!
