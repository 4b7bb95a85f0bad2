//! Per-frame input: a mapping from participant handles to 8-bit action
//! bitmasks, valid for exactly one simulation frame.

use vstd::prelude::*;
use crate::state::Handle;

verus! {

/// The input recorded for one participant for one frame.
#[derive(Clone, Copy, Debug, PartialEq, Eq, Structural)]
pub struct PlayerInput {
    pub handle: Handle,
    pub buttons: u8,
}

/// The inputs of one simulation frame. The contract of frame advancement
/// requires an entry for every registered handle; absence is an upstream
/// contract violation, not a soft error.
pub struct InputSet {
    pub entries: Vec<PlayerInput>,
}

/// The bitmask recorded for `h` in `entries`: the first entry whose handle
/// equals `h`, or `None` if there is none.
pub open spec fn input_for(entries: Seq<PlayerInput>, h: Handle) -> Option<u8>
    decreases entries.len(),
{
    if entries.len() == 0 {
        None
    } else if entries[0].handle == h {
        Some(entries[0].buttons)
    } else {
        input_for(entries.drop_first(), h)
    }
}

impl InputSet {
    /// Look up the input recorded for `h`.
    pub fn get(&self, h: Handle) -> (r: Option<u8>)
        ensures
            r == input_for(self.entries@, h),
    {
        let n: usize = self.entries.len();
        let mut i: usize = 0;
        proof {
            assert(self.entries@.skip(0) =~= self.entries@);
        }
        while i < n
            invariant
                i <= n,
                n == self.entries@.len(),
                input_for(self.entries@, h) == input_for(self.entries@.skip(i as int), h),
            decreases n - i,
        {
            let e = self.entries[i];
            proof {
                assert(self.entries@.skip(i as int)[0] == self.entries@[i as int]);
                assert(self.entries@.skip(i as int).drop_first() =~= self.entries@.skip(i as int + 1));
            }
            if e.handle == h {
                return Some(e.buttons);
            }
            i += 1;
        }
        proof {
            assert(self.entries@.skip(n as int) =~= Seq::<PlayerInput>::empty());
        }
        None
    }
}

} // verus!
