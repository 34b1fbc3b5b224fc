//! Cell stream demultiplexer.
//!
//! The device delivers events in whole cells of `CELL_SIZE` bytes into a
//! fixed-capacity buffer; one read fills the buffer, and the consumer
//! advances a cell cursor through it.  A fixed event takes one cell; an
//! extension event takes one cell for the record plus as many whole cells
//! as its payload needs, rounded up.  The cursor never passes the filled
//! region: an extension record that claims more cells than remain is
//! reported as a protocol error, never read past.

use vstd::prelude::*;

use crate::codec::{decode_ok, ext_overrun, ProtocolError, CELL_SIZE};
use crate::event::{ext_len_of, Event, EventData};

verus! {

/// Number of cells the input buffer holds.
pub const SEQ_INPUT_BUF_SIZE: usize = 500;

/// Whole cells needed to hold `n` payload bytes: `n / CELL_SIZE`, rounded
/// up.
pub open spec fn spec_cells_for(n: int) -> int {
    (n + CELL_SIZE - 1) / (CELL_SIZE as int)
}

/// Whole cells needed to hold `n` payload bytes.
pub fn cells_for_bytes(n: usize) -> (r: usize)
    requires
        n + CELL_SIZE - 1 <= usize::MAX,
    ensures
        r == spec_cells_for(n as int),
{
    (n + (CELL_SIZE - 1)) / CELL_SIZE
}

/// Rounding up to whole cells never exceeds the cells that can hold the
/// bytes: a payload that fits in `c` cells needs at most `c` cells.
proof fn lemma_cells_for_bound(l: int, c: int)
    requires
        0 <= l,
        1 <= c,
        l <= (c - 1) * CELL_SIZE,
    ensures
        spec_cells_for(l) <= c - 1,
{
    let d = CELL_SIZE as int;
    vstd::arithmetic::div_mod::lemma_div_is_ordered(l + d - 1, (c - 1) * d + d - 1, d);
    vstd::arithmetic::div_mod::lemma_fundamental_div_mod_converse_div((c - 1) * d + d - 1, d, c - 1, d - 1);
}

/// The input side of a sequencer stream: a fixed arena of cells, filled
/// wholesale by the caller's reads, consumed one event at a time.
pub struct SeqInput {
    buffer: Vec<u8>,
    cell_count: usize,
    cell_id: usize,
}

impl SeqInput {
    /// The index of the next unconsumed cell.
    pub closed spec fn cursor(&self) -> int {
        self.cell_id as int
    }

    /// How many filled cells are still unconsumed.
    pub closed spec fn remaining_cells(&self) -> int {
        self.cell_count as int
    }

    /// The bytes of the filled, unconsumed region.
    pub closed spec fn remaining_bytes(&self) -> Seq<u8> {
        self.buffer@.subrange(
            self.cursor() * CELL_SIZE,
            (self.cursor() + self.remaining_cells()) * CELL_SIZE,
        )
    }

    /// Well-formedness: the arena has its fixed size and the unconsumed
    /// region lies inside it.
    pub closed spec fn wf(&self) -> bool {
        &&& self.buffer@.len() == SEQ_INPUT_BUF_SIZE * CELL_SIZE
        &&& self.cursor() + self.remaining_cells() <= SEQ_INPUT_BUF_SIZE
    }

    /// A fresh, empty demultiplexer.
    pub fn new() -> (r: SeqInput)
        ensures
            r.wf(),
            r.remaining_cells() == 0,
            r.cursor() == 0,
    {
        let mut buffer: Vec<u8> = Vec::new();
        let mut i: usize = 0;
        while i < SEQ_INPUT_BUF_SIZE * CELL_SIZE
            invariant
                buffer@.len() == i,
                i <= SEQ_INPUT_BUF_SIZE * CELL_SIZE,
            decreases SEQ_INPUT_BUF_SIZE * CELL_SIZE - i,
        {
            buffer.push(0);
            i += 1;
        }
        SeqInput { buffer, cell_count: 0, cell_id: 0 }
    }

    /// Accept the bytes one device read delivered: they fill the buffer
    /// from the start, the cursor rewinds, and only the whole cells among
    /// them count as available.
    pub fn refill(&mut self, data: &[u8])
        requires
            old(self).wf(),
            data@.len() <= SEQ_INPUT_BUF_SIZE * CELL_SIZE,
        ensures
            final(self).wf(),
            final(self).cursor() == 0,
            final(self).remaining_cells() == data@.len() as int / (CELL_SIZE as int),
            final(self).remaining_bytes() == data@.subrange(
                0,
                (data@.len() as int / (CELL_SIZE as int)) * CELL_SIZE,
            ),
    {
        let len = data.len();
        let mut i: usize = 0;
        while i < len
            invariant
                old(self).wf(),
                len == data@.len(),
                len <= SEQ_INPUT_BUF_SIZE * CELL_SIZE,
                i <= len,
                self.buffer@.len() == old(self).buffer@.len(),
                self.cell_count == old(self).cell_count,
                self.cell_id == old(self).cell_id,
                self.buffer@.subrange(0, i as int) == data@.subrange(0, i as int),
            decreases len - i,
        {
            self.buffer.set(i, data[i]);
            proof {
                assert(self.buffer@.subrange(0, i + 1) =~= data@.subrange(0, i + 1));
            }
            i += 1;
        }
        self.cell_count = len / CELL_SIZE;
        self.cell_id = 0;
        proof {
            let d = CELL_SIZE as int;
            let l = data@.len() as int;
            vstd::arithmetic::div_mod::lemma_fundamental_div_mod(l, d);
            vstd::arithmetic::div_mod::lemma_div_is_ordered(0, l, d);
            assert((l / d) * d <= l);
            assert(self.remaining_bytes() =~= data@.subrange(0, (l / d) * d));
        }
    }

    /// Whether any filled cells are still unconsumed.
    pub fn has_input_events(&self) -> (r: bool)
        ensures
            r == (self.remaining_cells() > 0),
    {
        self.cell_count != 0
    }

    /// Decode the event at the cursor and advance past it: one cell for
    /// the record, plus its payload's whole cells for an extension event.
    ///
    /// Returns `Ok(None)` when nothing is available (not an error), and a
    /// protocol error when an extension record claims more cells than the
    /// filled region still holds; the remaining cells are then dropped so
    /// that the next call does not re-read the malformed region, and the
    /// cursor never passes the filled region.
    pub fn input_event(&mut self) -> (r: Result<Option<Event>, ProtocolError>)
        requires
            old(self).wf(),
        ensures
            final(self).wf(),
            match r {
                Ok(opt) => match opt {
                    Option::None => {
                        &&& old(self).remaining_cells() == 0
                        &&& final(self).cursor() == old(self).cursor()
                        &&& final(self).remaining_cells() == 0
                    },
                    Option::Some(e) => {
                        &&& old(self).remaining_cells() > 0
                        &&& e.wf()
                        &&& decode_ok(old(self).remaining_bytes(), e)
                        &&& !ext_overrun(old(self).remaining_bytes())
                        &&& final(self).cursor() == old(self).cursor() + 1 + spec_cells_for(
                            ext_len_of(e.data),
                        )
                        &&& final(self).remaining_cells() == old(self).remaining_cells() - 1
                            - spec_cells_for(ext_len_of(e.data))
                        &&& final(self).cursor() + final(self).remaining_cells() == old(
                            self,
                        ).cursor() + old(self).remaining_cells()
                        &&& final(self).remaining_bytes() == old(self).remaining_bytes().skip(
                            (1 + spec_cells_for(ext_len_of(e.data))) * CELL_SIZE,
                        )
                    },
                },
                Err(pe) => {
                    &&& old(self).remaining_cells() > 0
                    &&& ext_overrun(old(self).remaining_bytes())
                    &&& pe == ProtocolError::ExtensionCells
                    &&& final(self).cursor() == old(self).cursor()
                    &&& final(self).remaining_cells() == 0
                },
            },
    {
        if self.cell_count == 0 {
            return Ok(None);
        }
        let offset = self.cell_id * CELL_SIZE;
        let end = (self.cell_id + self.cell_count) * CELL_SIZE;
        let slice = vstd::slice::slice_subrange(self.buffer.as_slice(), offset, end);
        match Event::decode(slice) {
            Err(_) => {
                self.cell_count = 0;
                Err(ProtocolError::ExtensionCells)
            },
            Ok(e) => {
                let extra: usize = match &e.data {
                    EventData::Ext(p) => {
                        proof {
                            lemma_cells_for_bound(p@.len() as int, self.cell_count as int);
                        }
                        cells_for_bytes(p.len())
                    },
                    _ => 0,
                };
                self.cell_id = self.cell_id + 1 + extra;
                self.cell_count = self.cell_count - 1 - extra;
                proof {
                    assert(self.remaining_bytes() =~= old(self).remaining_bytes().skip(
                        ((1 + extra) * CELL_SIZE) as int,
                    ));
                }
                Ok(Some(e))
            },
        }
    }
}

} // verus!
