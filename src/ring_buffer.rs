//! A fixed-capacity first-in first-out store of stereo sample pairs, between
//! the synthesis and whoever consumes its output.

use vstd::prelude::*;

verus! {

/// The chip's output rate in samples per second.
pub const SAMPLE_RATE: usize = 32000;

/// How many stereo pairs the buffer holds: two seconds of output.
pub const BUFFER_LEN: usize = SAMPLE_RATE * 2;

/// The place of the `k`-th oldest pair, counting from `read_pos` and wrapping once.
pub open spec fn slot(read_pos: int, k: int) -> int {
    if read_pos + k < BUFFER_LEN {
        read_pos + k
    } else {
        read_pos + k - BUFFER_LEN
    }
}

pub struct RingBuffer {
    pub left: Vec<i16>,
    pub right: Vec<i16>,
    pub read_pos: usize,
    pub count: usize,
}

impl RingBuffer {
    pub open spec fn wf(&self) -> bool {
        &&& self.left@.len() == BUFFER_LEN
        &&& self.right@.len() == BUFFER_LEN
        &&& self.read_pos < BUFFER_LEN
        &&& self.count <= BUFFER_LEN
    }

    /// The stored pairs, oldest first.
    pub open spec fn view(&self) -> Seq<(i16, i16)> {
        Seq::new(
            self.count as nat,
            |k: int|
                (
                    self.left@[slot(self.read_pos as int, k)],
                    self.right@[slot(self.read_pos as int, k)],
                ),
        )
    }

    pub fn new() -> (r: RingBuffer)
        ensures
            r.wf(),
            r@ == Seq::<(i16, i16)>::empty(),
    {
        let r = RingBuffer {
            left: vec![0i16; BUFFER_LEN],
            right: vec![0i16; BUFFER_LEN],
            read_pos: 0,
            count: 0,
        };
        assert(r@ =~= Seq::<(i16, i16)>::empty());
        r
    }

    /// How many pairs are stored.
    pub fn get_sample_count(&self) -> (r: usize)
        requires
            self.wf(),
        ensures
            r == self@.len(),
    {
        self.count
    }

    /// How many more pairs fit.
    pub fn free_space(&self) -> (r: usize)
        requires
            self.wf(),
        ensures
            r == BUFFER_LEN - self@.len(),
    {
        BUFFER_LEN - self.count
    }

    /// Appends one pair; the buffer must not be full.
    pub fn write_sample(&mut self, left: i16, right: i16)
        requires
            old(self).wf(),
            old(self)@.len() < BUFFER_LEN,
        ensures
            final(self).wf(),
            final(self)@ == old(self)@.push((left, right)),
    {
        let ghost before = self@;
        let pos: usize = if self.read_pos + self.count < BUFFER_LEN {
            self.read_pos + self.count
        } else {
            self.read_pos + self.count - BUFFER_LEN
        };
        self.left.set(pos, left);
        self.right.set(pos, right);
        self.count = self.count + 1;
        assert(self@ =~= before.push((left, right)));
    }

    /// Takes out the oldest pair, if there is one.
    pub fn read_sample(&mut self) -> (r: Option<(i16, i16)>)
        requires
            old(self).wf(),
        ensures
            final(self).wf(),
            old(self)@.len() == 0 ==> r is None && final(self)@ == old(self)@,
            old(self)@.len() > 0 ==> r == Some(old(self)@[0]) && final(self)@ == old(
                self,
            )@.drop_first(),
    {
        if self.count == 0 {
            return None;
        }
        let ghost before = self@;
        let pair = (self.left[self.read_pos], self.right[self.read_pos]);
        self.read_pos = if self.read_pos + 1 < BUFFER_LEN { self.read_pos + 1 } else { 0 };
        self.count = self.count - 1;
        assert(self@ =~= before.drop_first());
        Some(pair)
    }
}

} // verus!
