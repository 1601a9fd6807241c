//! Bit-packing of ordered boolean flag groups: flag `k` maps to bit `k % 8`
//! (least significant bit first) of byte `k / 8`, and the unused high bits of
//! the final byte are zero. Names are introspection only and carry no wire
//! meaning.

use vstd::prelude::*;

verus! {

/// The bit a flag contributes: 1 when the flag at `i` exists and is set,
/// otherwise 0.
pub open spec fn flag_bit(bs: Seq<bool>, i: int) -> u8 {
    if 0 <= i < bs.len() && bs[i] {
        1
    } else {
        0
    }
}

/// The packed byte whose flags start at `base`: least-significant-bit first.
pub open spec fn flags_byte(bs: Seq<bool>, base: int) -> u8 {
    (flag_bit(bs, base) + 2 * flag_bit(bs, base + 1) + 4 * flag_bit(bs, base + 2) + 8 * flag_bit(
        bs,
        base + 3,
    ) + 16 * flag_bit(bs, base + 4) + 32 * flag_bit(bs, base + 5) + 64 * flag_bit(bs, base + 6)
        + 128 * flag_bit(bs, base + 7)) as u8
}

/// The packed form of an ordered flag sequence: `ceil(n / 8)` bytes.
pub open spec fn flags_bytes(bs: Seq<bool>) -> Seq<u8> {
    Seq::new(((bs.len() + 7) / 8) as nat, |j: int| flags_byte(bs, 8 * j))
}

/// An ordered sequence of named boolean flags.
#[derive(Debug, PartialEq)]
pub struct AMQPFlags {
    /// The flags, in the order they were added.
    pub flags: Vec<(String, bool)>,
}

impl AMQPFlags {
    /// The boolean sequence, in order; names carry no wire meaning.
    pub open spec fn spec_bools(self) -> Seq<bool> {
        Seq::new(self.flags@.len(), |i: int| self.flags@[i].1)
    }

    /// An empty flag group.
    pub fn new() -> (f: AMQPFlags)
        ensures
            f.spec_bools() == Seq::<bool>::empty(),
            f.flags@.len() == 0,
    {
        let f = AMQPFlags { flags: Vec::new() };
        proof {
            assert(f.spec_bools() =~= Seq::<bool>::empty());
        }
        f
    }

    /// Appends a named flag at the end of the group.
    pub fn add_flag(&mut self, name: String, flag: bool)
        ensures
            final(self).flags@ == old(self).flags@.push((name, flag)),
            final(self).spec_bools() == old(self).spec_bools().push(flag),
    {
        self.flags.push((name, flag));
        proof {
            assert(self.spec_bools() =~= old(self).spec_bools().push(flag));
        }
    }

    /// Packs the flags into `ceil(n / 8)` bytes, least-significant-bit first
    /// within each byte.
    pub fn get_bytes(&self) -> (r: Vec<u8>)
        ensures
            r@ == flags_bytes(self.spec_bools()),
    {
        let ghost bools = self.spec_bools();
        let n = self.flags.len();
        let nbytes = n / 8 + (if n % 8 != 0 {
            1usize
        } else {
            0usize
        });
        proof {
            assert(nbytes == (bools.len() + 7) / 8);
        }
        let mut out: Vec<u8> = Vec::new();
        let mut j: usize = 0;
        while j < nbytes
            invariant
                bools == self.spec_bools(),
                n == bools.len(),
                nbytes == (bools.len() + 7) / 8,
                j <= nbytes,
                out@.len() == j,
                forall|k: int| 0 <= k < j ==> out@[k] == flags_byte(bools, 8 * k),
            decreases nbytes - j,
        {
            proof {
                assert(8 * j + 7 < 8 * nbytes);
                assert(8 * nbytes <= n + 7);
            }
            let base = j * 8;
            let mut b: u8 = 0;
            if base < n && self.flags[base].1 {
                b = b + 1;
            }
            if base + 1 < n && self.flags[base + 1].1 {
                b = b + 2;
            }
            if base + 2 < n && self.flags[base + 2].1 {
                b = b + 4;
            }
            if base + 3 < n && self.flags[base + 3].1 {
                b = b + 8;
            }
            if base + 4 < n && self.flags[base + 4].1 {
                b = b + 16;
            }
            if base + 5 < n && self.flags[base + 5].1 {
                b = b + 32;
            }
            if base + 6 < n && self.flags[base + 6].1 {
                b = b + 64;
            }
            if base + 7 < n && self.flags[base + 7].1 {
                b = b + 128;
            }
            proof {
                assert(b == flags_byte(bools, 8 * (j as int)));
            }
            out.push(b);
            j = j + 1;
        }
        proof {
            assert(out@ =~= flags_bytes(bools));
        }
        out
    }
}

} // verus!
