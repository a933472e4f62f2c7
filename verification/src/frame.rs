use vstd::prelude::*;

verus! {

/// One rendered output row: a glyph byte per column, and the row's index
/// from the top of the frame.
pub struct Row {
    pub index: usize,
    pub glyphs: Vec<u8>,
}

impl Row {
    /// A fresh row of `width` blank glyphs (spaces) at `index`.
    pub fn blank(index: usize, width: usize) -> (r: Row)
        ensures
            r.index == index,
            r.glyphs@.len() == width,
            forall|i: int| 0 <= i < width ==> r.glyphs@[i] == 32u8,
    {
        let mut glyphs: Vec<u8> = Vec::new();
        for c in 0..width
            invariant
                glyphs@.len() == c,
                forall|i: int| 0 <= i < c ==> glyphs@[i] == 32u8,
        {
            glyphs.push(32u8);
        }
        Row { index, glyphs }
    }

    /// Writes the glyph of one column.
    pub fn set_glyph(&mut self, column: usize, g: u8)
        requires
            column < old(self).glyphs@.len(),
        ensures
            final(self).index == old(self).index,
            final(self).glyphs@ == old(self).glyphs@.update(column as int, g),
    {
        self.glyphs.set(column, g);
    }

    /// The number of columns the row has.
    pub fn width(&self) -> (w: usize)
        ensures
            w == self.glyphs@.len(),
    {
        self.glyphs.len()
    }
}

/// Collects the rows of one frame into an index-addressed buffer, so that
/// the output sink receives them top to bottom in index order, no matter in
/// which order the row tasks finished.
pub struct FrameCollector {
    slots: Vec<Option<Vec<u8>>>,
}

impl FrameCollector {
    /// The number of rows the frame has.
    pub closed spec fn height(self) -> nat {
        self.slots@.len()
    }

    /// The glyphs delivered for row `i` so far, if any.
    pub closed spec fn slot(self, i: int) -> Option<Seq<u8>> {
        match self.slots@[i] {
            Some(v) => Some(v@),
            None => None,
        }
    }

    /// An empty collector for a frame of `height` rows.
    pub fn new(height: usize) -> (c: FrameCollector)
        ensures
            c.height() == height,
            forall|i: int| 0 <= i < height ==> c.slot(i) is None,
    {
        let mut slots: Vec<Option<Vec<u8>>> = Vec::new();
        for k in 0..height
            invariant
                slots@.len() == k,
                forall|i: int| 0 <= i < k ==> slots@[i] is None,
        {
            slots.push(None);
        }
        FrameCollector { slots }
    }

    /// The number of rows the frame has.
    pub fn height_count(&self) -> (h: usize)
        ensures
            h == self.height(),
    {
        self.slots.len()
    }

    /// Accepts one finished row, storing it at its index; delivering the
    /// same index again overwrites the earlier glyphs.
    pub fn deliver(&mut self, row: Row)
        requires
            (row.index as int) < old(self).height(),
        ensures
            final(self).height() == old(self).height(),
            final(self).slot(row.index as int) == Some(row.glyphs@),
            forall|i: int|
                0 <= i < old(self).height() && i != row.index
                    ==> final(self).slot(i) == old(self).slot(i),
    {
        let idx = row.index;
        self.slots.set(idx, Some(row.glyphs));
    }

    /// Whether every row of the frame has been delivered.
    pub fn is_complete(&self) -> (b: bool)
        ensures
            b == (forall|i: int| 0 <= i < self.height() ==> self.slot(i) is Some),
    {
        let n = self.slots.len();
        let mut k: usize = 0;
        while k < n
            invariant
                n == self.height(),
                k <= n,
                forall|i: int| 0 <= i < k ==> self.slot(i) is Some,
            decreases n - k,
        {
            if self.slots[k].is_none() {
                proof {
                    assert(self.slot(k as int) is None);
                }
                return false;
            }
            k += 1;
        }
        true
    }

    /// Hands the frame's rows back in index order, top to bottom: the row
    /// delivered for index `i` comes `i`-th. The frame must be complete.
    pub fn into_rows(self) -> (rows: Vec<Row>)
        requires
            forall|i: int| 0 <= i < self.height() ==> self.slot(i) is Some,
        ensures
            rows@.len() == self.height(),
            forall|i: int|
                0 <= i < rows@.len()
                    ==> (#[trigger] rows@[i]).index == i && Some(rows@[i].glyphs@) == self.slot(i),
    {
        let ghost whole = self;
        let FrameCollector { mut slots } = self;
        let n = slots.len();
        let mut rows: Vec<Row> = Vec::new();
        for k in 0..n
            invariant
                n == whole.height(),
                slots@.len() == n,
                forall|i: int| k <= i < n ==> slots@[i] == whole.slots@[i],
                forall|i: int| 0 <= i < n ==> whole.slot(i) is Some,
                rows@.len() == k,
                forall|i: int|
                    0 <= i < k
                        ==> (#[trigger] rows@[i]).index == i
                            && Some(rows@[i].glyphs@) == whole.slot(i),
        {
            let taken = slots[k].take();
            proof {
                assert(whole.slot(k as int) is Some);
                assert(taken == whole.slots@[k as int]);
            }
            let glyphs = taken.unwrap();
            rows.push(Row { index: k, glyphs });
        }
        rows
    }
}

/// One frame's update of the running frame-rate readout: the new estimate is
/// the mean of the old one and this frame's instantaneous rate in frames per
/// second, from the frame's duration in microseconds.
pub fn update_fps(fps: u64, frame_micros: u64) -> (r: u64)
    requires
        1 <= frame_micros,
        fps <= u64::MAX - 1_000_000,
    ensures
        r == ((fps + 1_000_000u64 / frame_micros) / 2) as u64,
        fps <= 1_000_000 ==> r <= 1_000_000,
{
    (fps + 1_000_000 / frame_micros) / 2
}

} // verus!
