//! Scalars of secp256k1 as 32 big-endian bytes, and the test that one is a
//! usable secret: neither zero nor at or above the group order.

use vstd::prelude::*;

verus! {

/// The number of bytes in an encoded scalar.
pub const SCALAR_SIZE: usize = 32;

/// The order `n` of the group, most significant byte first:
/// `FFFFFFFF FFFFFFFF FFFFFFFF FFFFFFFE BAAEDCE6 AF48A03B BFD25E8C D0364141`.
pub const GROUP_ORDER: [u8; 32] = [
    0xff, 0xff, 0xff, 0xff, 0xff, 0xff, 0xff, 0xff,
    0xff, 0xff, 0xff, 0xff, 0xff, 0xff, 0xff, 0xfe,
    0xba, 0xae, 0xdc, 0xe6, 0xaf, 0x48, 0xa0, 0x3b,
    0xbf, 0xd2, 0x5e, 0x8c, 0xd0, 0x36, 0x41, 0x41,
];

/// The number that `bytes` writes in base 256, most significant byte first.
pub open spec fn be_value(bytes: Seq<u8>) -> nat
    decreases bytes.len(),
{
    if bytes.len() == 0 {
        0
    } else {
        be_value(bytes.drop_last()) * 256 + bytes.last() as nat
    }
}

/// The order `n` of the group as a number.
pub open spec fn group_order() -> nat {
    0xFFFFFFFFFFFFFFFFFFFFFFFFFFFFFFFEBAAEDCE6AF48A03BBFD25E8CD0364141nat
}

/// Whether `bytes` encodes a scalar in `[1, n - 1]`.
pub open spec fn scalar_in_range(bytes: Seq<u8>) -> bool {
    &&& bytes.len() == SCALAR_SIZE
    &&& 0 < be_value(bytes)
    &&& be_value(bytes) < group_order()
}

/// The bytes of `GROUP_ORDER` write the group order.
pub proof fn lemma_group_order_bytes()
    ensures
        be_value(GROUP_ORDER@) == group_order(),
{
    reveal_with_fuel(be_value, 33);
    assert(GROUP_ORDER@.len() == 32);
}

/// On flags, which are 0 or 1, `|` is or, `&` is and, and `^ 1` is not.
proof fn lemma_flags(a: u8, b: u8)
    requires
        a <= 1,
        b <= 1,
    ensures
        a | b == if a == 1 || b == 1 { 1u8 } else { 0u8 },
        a & b == if a == 1 && b == 1 { 1u8 } else { 0u8 },
        a ^ 1 == if a == 1 { 0u8 } else { 1u8 },
{
    assert(a <= 1 && b <= 1 ==> (a | b == if a == 1 || b == 1 { 1u8 } else { 0u8 })
        && (a & b == if a == 1 && b == 1 { 1u8 } else { 0u8 })
        && (a ^ 1 == if a == 1 { 0u8 } else { 1u8 })) by (bit_vector);
}

/// A sequence writes zero exactly when all its bytes are zero.
pub proof fn lemma_zero_value(bytes: Seq<u8>)
    ensures
        be_value(bytes) == 0 <==> forall|j: int| 0 <= j < bytes.len() ==> bytes[j] == 0,
    decreases bytes.len(),
{
    if bytes.len() > 0 {
        let head = bytes.drop_last();
        lemma_zero_value(head);
        if be_value(bytes) == 0 {
            assert forall|j: int| 0 <= j < bytes.len() implies bytes[j] == 0 by {
                if j < head.len() {
                    assert(head[j] == bytes[j]);
                }
            }
        } else if be_value(head) != 0 {
            let j = choose|j: int| 0 <= j < head.len() && head[j] != 0;
            assert(bytes[j] == head[j]);
        }
    }
}

/// Of two sequences of one length that agree before position `at`, the one
/// with the smaller byte at `at` writes the smaller number.
pub proof fn lemma_first_difference_decides(a: Seq<u8>, b: Seq<u8>, at: int)
    requires
        a.len() == b.len(),
        0 <= at < a.len(),
        a.take(at) == b.take(at),
        a[at] < b[at],
    ensures
        be_value(a) < be_value(b),
    decreases a.len(),
{
    let a_head = a.drop_last();
    let b_head = b.drop_last();
    if at == a.len() - 1 {
        assert(a_head == a.take(at));
        assert(b_head == b.take(at));
    } else {
        assert(a_head.take(at) == a.take(at));
        assert(b_head.take(at) == b.take(at));
        lemma_first_difference_decides(a_head, b_head, at);
    }
}

/// 1 where `byte` is not zero, else 0, without a branch.
fn flag_nonzero(byte: u8) -> (flag: u8)
    ensures
        flag == if byte != 0 { 1u8 } else { 0u8 },
{
    let sum: u16 = byte as u16 + 0xff;
    let carry: u16 = sum >> 8;
    assert(carry == if sum >= 0x100 { 1u16 } else { 0u16 }) by (bit_vector)
        requires
            sum < 0x200,
            carry == sum >> 8,
    ;
    carry as u8
}

/// 1 where `byte` is less than `limit`, else 0, without a branch.
fn flag_less(byte: u8, limit: u8) -> (flag: u8)
    ensures
        flag == if byte < limit { 1u8 } else { 0u8 },
{
    let difference: u16 = byte as u16 + 0x100 - limit as u16;
    let borrow: u16 = (difference >> 8) ^ 1;
    assert(borrow == if difference < 0x100 { 1u16 } else { 0u16 }) by (bit_vector)
        requires
            difference < 0x200,
            borrow == (difference >> 8) ^ 1,
    ;
    borrow as u8
}

/// Tests whether `bytes` encodes a scalar in `[1, n - 1]`: compares with
/// the group order from the most significant byte on, the first difference
/// deciding. No branch is taken on a byte.
pub fn is_valid_scalar(bytes: &[u8; 32]) -> (ok: bool)
    ensures
        ok == scalar_in_range(bytes@),
{
    let order = GROUP_ORDER;
    // Each flag is 0 or 1.
    let mut nonzero: u8 = 0;
    let mut equal: u8 = 1;
    let mut below: u8 = 0;
    for i in 0..32usize
        invariant
            order == GROUP_ORDER,
            nonzero <= 1 && equal <= 1 && below <= 1,
            nonzero == 1 <==> exists|j: int| 0 <= j < i && bytes@[j] != 0,
            equal == 1 ==> below == 0 && bytes@.take(i as int) == order@.take(i as int),
            equal == 0 ==> (below == 1 <==> be_value(bytes@) < be_value(order@)),
    {
        let byte = bytes[i];
        let limit = order[i];
        let any = flag_nonzero(byte);
        let less = flag_less(byte, limit);
        let more = flag_less(limit, byte);
        proof {
            if equal == 1 && byte < limit {
                lemma_first_difference_decides(bytes@, order@, i as int);
            }
            if equal == 1 && byte > limit {
                lemma_first_difference_decides(order@, bytes@, i as int);
            }
            if equal == 1 && byte == limit {
                assert(bytes@.take(i + 1) == bytes@.take(i as int).push(bytes@[i as int]));
                assert(order@.take(i + 1) == order@.take(i as int).push(order@[i as int]));
            }
            lemma_flags(nonzero, any);
            lemma_flags(equal, less);
            lemma_flags(below, equal & less);
            lemma_flags(less, more);
            lemma_flags(less | more, 1);
            lemma_flags(equal, (less | more) ^ 1);
        }
        nonzero = nonzero | any;
        below = below | (equal & less);
        equal = equal & ((less | more) ^ 1);
    }
    proof {
        lemma_zero_value(bytes@);
        lemma_group_order_bytes();
        if equal == 1 {
            assert(bytes@ == bytes@.take(32));
            assert(order@ == order@.take(32));
        }
        lemma_flags(equal, 1);
        lemma_flags(nonzero, equal ^ 1);
        lemma_flags(nonzero & (equal ^ 1), below);
    }
    (nonzero & (equal ^ 1) & below) == 1
}

} // verus!
