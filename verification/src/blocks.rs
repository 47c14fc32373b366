use vstd::prelude::*;
use vstd::std_specs::ops::BitXorSpecImpl;

verus! {

broadcast use vstd::array::group_array_axioms;

/// Two 64-bit lanes, handled together.
#[derive(Clone, Copy)]
pub struct U64x2(pub u64, pub u64);

/// A 1 KiB memory block, as 64 pairs of 64-bit lanes.
#[derive(Clone, Copy)]
pub struct Block(pub [U64x2; 64]);

/// Lane-wise exclusive or of two lane pairs.
pub open spec fn lane_xor(a: U64x2, b: U64x2) -> U64x2 {
    U64x2(a.0 ^ b.0, a.1 ^ b.1)
}

/// Lane-wise exclusive or of two sequences of lane pairs, as long as the first.
pub open spec fn lanes_xor(a: Seq<U64x2>, b: Seq<U64x2>) -> Seq<U64x2> {
    Seq::new(a.len(), |i: int| lane_xor(a[i], b[i]))
}

/// The 64 lane pairs of the zero block.
pub open spec fn zero_lanes() -> Seq<U64x2> {
    Seq::new(64, |i: int| U64x2(0, 0))
}

/// The block whose lanes are the lane-wise exclusive or of those of `a` and `b`.
pub open spec fn xor_blocks(a: Block, b: Block) -> Block {
    choose|c: Block| c.0@ == lanes_xor(a.0@, b.0@)
}

/// Blocks with the same lanes are the same block.
pub proof fn lemma_block_ext(a: Block, b: Block)
    requires
        a.0@ == b.0@,
    ensures
        a == b,
{
    assert(a.0 =~= b.0);
}

/// A block whose first `n` lanes are those of `xor_blocks(a, b)` and whose
/// other lanes are `a`'s.
proof fn lemma_xor_prefix(a: Block, b: Block, n: nat) -> (c: Block)
    requires
        n <= 64,
    ensures
        forall|i: int| 0 <= i < n ==> #[trigger] c.0@[i] == lane_xor(a.0@[i], b.0@[i]),
        forall|i: int| n <= i < 64 ==> #[trigger] c.0@[i] == a.0@[i],
    decreases n,
{
    if n == 0 {
        a
    } else {
        let p = lemma_xor_prefix(a, b, (n - 1) as nat);
        let k = n - 1;
        let arr = vstd::array::spec_array_update(p.0, k, lane_xor(a.0@[k], b.0@[k]));
        assert(arr@ == p.0@.update(k, lane_xor(a.0@[k], b.0@[k])));
        Block(arr)
    }
}

/// `xor_blocks(a, b)` has exactly the lanes `lanes_xor(a, b)`.
pub proof fn lemma_xor_blocks_lanes(a: Block, b: Block)
    ensures
        xor_blocks(a, b).0@ == lanes_xor(a.0@, b.0@),
{
    let w = lemma_xor_prefix(a, b, 64);
    assert(w.0@ =~= lanes_xor(a.0@, b.0@));
}

/// The block whose lanes are all zero.
pub fn zero() -> (z: Block)
    ensures
        z.0@ == zero_lanes(),
{
    let z = Block([U64x2(0, 0); 64]);
    assert(z.0@ =~= zero_lanes());
    z
}

impl core::ops::BitXor for Block {
    type Output = Self;

    /// Lane-wise exclusive or of two blocks.
    fn bitxor(self, r: Self) -> (out: Self) {
        let mut inner: [U64x2; 64] = self.0;
        let mut i: usize = 0;
        while i < 64
            invariant
                i <= 64,
                forall|j: int| 0 <= j < i ==> #[trigger] inner@[j] == lane_xor(self.0@[j], r.0@[j]),
                forall|j: int| i <= j < 64 ==> #[trigger] inner@[j] == self.0@[j],
            decreases 64 - i,
        {
            let l = self.0[i];
            let m = r.0[i];
            inner[i] = U64x2(l.0 ^ m.0, l.1 ^ m.1);
            i = i + 1;
        }
        let out = Block(inner);
        proof {
            assert(out.0@ =~= lanes_xor(self.0@, r.0@));
            lemma_xor_blocks_lanes(self, r);
            lemma_block_ext(out, xor_blocks(self, r));
        }
        out
    }
}

impl BitXorSpecImpl for Block {
    open spec fn obeys_bitxor_spec() -> bool {
        true
    }

    open spec fn bitxor_req(self, rhs: Block) -> bool {
        true
    }

    open spec fn bitxor_spec(self, rhs: Block) -> Block {
        xor_blocks(self, rhs)
    }
}

/// Facts about exclusive or on one 64-bit lane.
proof fn lemma_u64_xor(x: u64, y: u64, w: u64)
    ensures
        x ^ x == 0,
        x ^ 0 == x,
        x ^ y == y ^ x,
        (x ^ y) ^ w == x ^ (y ^ w),
        (x ^ y) ^ y == x,
{
    assert(x ^ x == 0) by (bit_vector);
    assert(x ^ 0 == x) by (bit_vector);
    assert(x ^ y == y ^ x) by (bit_vector);
    assert((x ^ y) ^ w == x ^ (y ^ w)) by (bit_vector);
    assert((x ^ y) ^ y == x) by (bit_vector);
}

/// A block xored with itself is the zero block.
pub proof fn law_xor_self_is_zero(a: Block)
    ensures
        xor_blocks(a, a).0@ == zero_lanes(),
{
    lemma_xor_blocks_lanes(a, a);
    assert forall|i: int| 0 <= i < 64 implies #[trigger] xor_blocks(a, a).0@[i] == zero_lanes()[i] by {
        lemma_u64_xor(a.0@[i].0, 0, 0);
        lemma_u64_xor(a.0@[i].1, 0, 0);
    }
    assert(xor_blocks(a, a).0@ =~= zero_lanes());
}

/// The zero block is neutral: xoring a block with it gives the block back.
pub proof fn law_xor_zero_is_neutral(a: Block, z: Block)
    requires
        z.0@ == zero_lanes(),
    ensures
        xor_blocks(a, z) == a,
{
    lemma_xor_blocks_lanes(a, z);
    assert forall|i: int| 0 <= i < 64 implies #[trigger] xor_blocks(a, z).0@[i] == a.0@[i] by {
        lemma_u64_xor(a.0@[i].0, 0, 0);
        lemma_u64_xor(a.0@[i].1, 0, 0);
    }
    assert(xor_blocks(a, z).0@ =~= a.0@);
    lemma_block_ext(xor_blocks(a, z), a);
}

/// Exclusive or of blocks is commutative.
pub proof fn law_xor_commutative(a: Block, b: Block)
    ensures
        xor_blocks(a, b) == xor_blocks(b, a),
{
    lemma_xor_blocks_lanes(a, b);
    lemma_xor_blocks_lanes(b, a);
    assert forall|i: int| 0 <= i < 64 implies #[trigger] xor_blocks(a, b).0@[i] == xor_blocks(b, a).0@[i] by {
        lemma_u64_xor(a.0@[i].0, b.0@[i].0, 0);
        lemma_u64_xor(a.0@[i].1, b.0@[i].1, 0);
    }
    assert(xor_blocks(a, b).0@ =~= xor_blocks(b, a).0@);
    lemma_block_ext(xor_blocks(a, b), xor_blocks(b, a));
}

/// Exclusive or of blocks is associative.
pub proof fn law_xor_associative(a: Block, b: Block, c: Block)
    ensures
        xor_blocks(xor_blocks(a, b), c) == xor_blocks(a, xor_blocks(b, c)),
{
    let ab = xor_blocks(a, b);
    let bc = xor_blocks(b, c);
    lemma_xor_blocks_lanes(a, b);
    lemma_xor_blocks_lanes(b, c);
    lemma_xor_blocks_lanes(ab, c);
    lemma_xor_blocks_lanes(a, bc);
    assert forall|i: int| 0 <= i < 64 implies #[trigger] xor_blocks(ab, c).0@[i] == xor_blocks(a, bc).0@[i] by {
        lemma_u64_xor(a.0@[i].0, b.0@[i].0, c.0@[i].0);
        lemma_u64_xor(a.0@[i].1, b.0@[i].1, c.0@[i].1);
    }
    assert(xor_blocks(ab, c).0@ =~= xor_blocks(a, bc).0@);
    lemma_block_ext(xor_blocks(ab, c), xor_blocks(a, bc));
}

/// Xoring with the same block twice gives the first block back.
pub proof fn law_xor_cancels(a: Block, b: Block)
    ensures
        xor_blocks(xor_blocks(a, b), b) == a,
{
    let ab = xor_blocks(a, b);
    lemma_xor_blocks_lanes(a, b);
    lemma_xor_blocks_lanes(ab, b);
    assert forall|i: int| 0 <= i < 64 implies #[trigger] xor_blocks(ab, b).0@[i] == a.0@[i] by {
        lemma_u64_xor(a.0@[i].0, b.0@[i].0, 0);
        lemma_u64_xor(a.0@[i].1, b.0@[i].1, 0);
    }
    assert(xor_blocks(ab, b).0@ =~= a.0@);
    lemma_block_ext(xor_blocks(ab, b), a);
}

/// Each lane of the xor of two blocks is the machine exclusive or of the two
/// lanes at the same place: `(a ^ b).0[i].0 == a.0[i].0 ^ b.0[i].0`, and
/// likewise for the second lane of each pair.
pub proof fn law_xor_is_lane_wise(a: Block, b: Block)
    ensures
        xor_blocks(a, b).0@.len() == 64,
        forall|i: int| 0 <= i < 64 ==> (#[trigger] xor_blocks(a, b).0@[i]).0 == a.0@[i].0 ^ b.0@[i].0,
        forall|i: int| 0 <= i < 64 ==> (#[trigger] xor_blocks(a, b).0@[i]).1 == a.0@[i].1 ^ b.0@[i].1,
{
    lemma_xor_blocks_lanes(a, b);
}

/// Every lane of the zero block is 0.
pub proof fn law_zero_lanes_are_zero()
    ensures
        zero_lanes().len() == 64,
        forall|i: int| 0 <= i < 64 ==> (#[trigger] zero_lanes()[i]).0 == 0 && zero_lanes()[i].1 == 0,
{
}

} // verus!
