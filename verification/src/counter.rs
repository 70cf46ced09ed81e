//! A bounded counter: a lazy, finite, one-shot producer of the unsigned
//! integers in `[start, end)`, in ascending or descending order.

use vstd::prelude::*;
use crate::UtilError;

verus! {

/// The sequence a counter over `[start, end)` hands out: `end - start`
/// values, ascending from `start` or, when `rev` is set, descending from
/// `end - 1`.
pub open spec fn counting_seq(start: u32, end: u32, rev: bool) -> Seq<u32>
    recommends
        start <= end,
{
    Seq::new((end - start) as nat, |i: int| if rev {
        (end - 1 - i) as u32
    } else {
        (start + i) as u32
    })
}

/// A one-shot counting cursor: `remaining` values are still owed, the next
/// being `cursor`, after which the cursor steps down (`rev`) or up.
pub struct BoundedRange {
    cursor: u32,
    remaining: u32,
    rev: bool,
}

impl View for BoundedRange {
    type V = Seq<u32>;

    /// The values the counter has still to produce, in order.
    closed spec fn view(&self) -> Seq<u32> {
        Seq::new(self.remaining as nat, |i: int| if self.rev {
            (self.cursor - i) as u32
        } else {
            (self.cursor + i) as u32
        })
    }
}

impl BoundedRange {
    /// The counter can hand out all owed values without leaving `u32`.
    pub closed spec fn wf(&self) -> bool {
        if self.rev {
            self.remaining <= self.cursor + 1
        } else {
            self.cursor + self.remaining <= u32::MAX + 1
        }
    }

    /// Hands out the next owed value, or `None` once all are spent.
    pub fn next(&mut self) -> (r: Option<u32>)
        requires
            old(self).wf(),
        ensures
            final(self).wf(),
            old(self)@.len() == 0 ==> r is None && final(self)@ == old(self)@,
            old(self)@.len() > 0 ==> r == Some(old(self)@[0]) && final(self)@ == old(
                self,
            )@.drop_first(),
    {
        if self.remaining == 0 {
            proof {
                assert(final(self)@ =~= old(self)@);
            }
            return None;
        }
        let value = self.cursor;
        self.remaining = self.remaining - 1;
        if self.rev {
            if self.cursor > 0 {
                self.cursor = self.cursor - 1;
            }
        } else {
            if self.cursor < u32::MAX {
                self.cursor = self.cursor + 1;
            }
        }
        proof {
            assert(final(self)@ =~= old(self)@.drop_first());
        }
        Some(value)
    }
}

/// Builds the counter over `[start, end)`, descending when `rev` is set.
///
/// A range whose end lies before its start is rejected explicitly; a valid
/// range yields a counter owing exactly `counting_seq(start, end, rev)`.
pub fn range(start: u32, end: u32, rev: bool) -> (r: Result<BoundedRange, UtilError>)
    ensures
        start <= end ==> (r matches Ok(c) && c.wf() && c@ == counting_seq(start, end, rev)),
        start > end ==> r == Err::<BoundedRange, UtilError>(UtilError::InvalidCounterRange),
{
    if start > end {
        return Err(UtilError::InvalidCounterRange);
    }
    let remaining = end - start;
    let cursor = if rev {
        if end > 0 {
            end - 1
        } else {
            0
        }
    } else {
        start
    };
    let c = BoundedRange { cursor, remaining, rev };
    proof {
        assert(c@ =~= counting_seq(start, end, rev));
    }
    Ok(c)
}

} // verus!
