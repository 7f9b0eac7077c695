//! Byte forms of integers.

use vstd::prelude::*;

verus! {

/// The order in which the bytes of an integer stand in memory.
#[derive(Clone, Copy, Debug, PartialEq, Eq, Structural)]
pub enum ByteOrder {
    Little,
    Big,
}

/// The two bytes of `x`, in the given order.
pub open spec fn bytes16(x: u16, order: ByteOrder) -> Seq<u8> {
    let little = seq![(x % 256) as u8, (x / 256) as u8];
    match order {
        ByteOrder::Little => little,
        ByteOrder::Big => little.reverse(),
    }
}

/// The four bytes of `x`, in the given order.
pub open spec fn bytes32(x: u32, order: ByteOrder) -> Seq<u8> {
    let little = seq![
        (x % 256) as u8,
        (x / 0x100 % 256) as u8,
        (x / 0x1_0000 % 256) as u8,
        (x / 0x100_0000) as u8,
    ];
    match order {
        ByteOrder::Little => little,
        ByteOrder::Big => little.reverse(),
    }
}

/// Splits `x` into its bytes.
pub fn split16(x: u16, order: ByteOrder) -> (r: [u8; 2])
    ensures
        r@ == bytes16(x, order),
{
    let low: u8 = (x % 256) as u8;
    let high: u8 = (x / 256) as u8;
    let r: [u8; 2] = match order {
        ByteOrder::Little => [low, high],
        ByteOrder::Big => [high, low],
    };
    assert(r@ =~= bytes16(x, order));
    r
}

/// Puts two bytes together; the inverse of [`split16`].
pub fn join16(b0: u8, b1: u8, order: ByteOrder) -> (r: u16)
    ensures
        bytes16(r, order) == seq![b0, b1],
{
    let (low, high): (u8, u8) = match order {
        ByteOrder::Little => (b0, b1),
        ByteOrder::Big => (b1, b0),
    };
    let r: u16 = (high as u16) * 256 + low as u16;
    assert(bytes16(r, order) =~= seq![b0, b1]);
    r
}

/// Splits `x` into its bytes.
pub fn split32(x: u32, order: ByteOrder) -> (r: [u8; 4])
    ensures
        r@ == bytes32(x, order),
{
    let c0: u8 = (x % 256) as u8;
    let c1: u8 = (x / 0x100 % 256) as u8;
    let c2: u8 = (x / 0x1_0000 % 256) as u8;
    let c3: u8 = (x / 0x100_0000) as u8;
    let r: [u8; 4] = match order {
        ByteOrder::Little => [c0, c1, c2, c3],
        ByteOrder::Big => [c3, c2, c1, c0],
    };
    assert(r@ =~= bytes32(x, order));
    r
}

/// Puts four bytes together; the inverse of [`split32`].
pub fn join32(b0: u8, b1: u8, b2: u8, b3: u8, order: ByteOrder) -> (r: u32)
    ensures
        bytes32(r, order) == seq![b0, b1, b2, b3],
{
    let (c0, c1, c2, c3): (u8, u8, u8, u8) = match order {
        ByteOrder::Little => (b0, b1, b2, b3),
        ByteOrder::Big => (b3, b2, b1, b0),
    };
    let r: u32 = (c3 as u32) * 0x100_0000 + (c2 as u32) * 0x1_0000 + (c1 as u32) * 0x100
        + c0 as u32;
    assert(r % 256 == c0 && r / 0x100 % 256 == c1 && r / 0x1_0000 % 256 == c2 && r / 0x100_0000
        == c3) by (bit_vector)
        requires
            r == (c3 as u32) * 0x100_0000 + (c2 as u32) * 0x1_0000 + (c1 as u32) * 0x100
                + c0 as u32,
    ;
    assert(bytes32(r, order) =~= seq![b0, b1, b2, b3]);
    r
}

/// Two integers with the same bytes are equal.
pub proof fn law_bytes16_injective(x: u16, y: u16, order: ByteOrder)
    requires
        bytes16(x, order) == bytes16(y, order),
    ensures
        x == y,
{
    let bx = bytes16(x, order);
    let by = bytes16(y, order);
    assert(bx[0] == by[0] && bx[1] == by[1]);
}

/// Two integers with the same bytes are equal.
pub proof fn law_bytes32_injective(x: u32, y: u32, order: ByteOrder)
    requires
        bytes32(x, order) == bytes32(y, order),
    ensures
        x == y,
{
    let bx = bytes32(x, order);
    let by = bytes32(y, order);
    assert(bx[0] == by[0] && bx[1] == by[1] && bx[2] == by[2] && bx[3] == by[3]);
    assert(x / 0x100_0000 < 256 && y / 0x100_0000 < 256) by (bit_vector);
    assert(x == y) by (bit_vector)
        requires
            x % 256 == y % 256,
            x / 0x100 % 256 == y / 0x100 % 256,
            x / 0x1_0000 % 256 == y / 0x1_0000 % 256,
            x / 0x100_0000 == y / 0x100_0000,
    ;
}

/// The bytes of an integer are its digits in base two hundred and fifty-six, the
/// lowest first or last as the order says.
pub proof fn law_bytes_are_digits16(x: u16, order: ByteOrder, r: [u8; 2])
    requires
        call_ensures(split16, (x, order), r),
    ensures
        order is Little ==> r@[0] + 0x100 * r@[1] == x,
        order is Big ==> r@[1] + 0x100 * r@[0] == x,
{
}

/// The bytes of an integer are its digits in base two hundred and fifty-six, the
/// lowest first or last as the order says.
pub proof fn law_bytes_are_digits32(x: u32, order: ByteOrder, r: [u8; 4])
    requires
        call_ensures(split32, (x, order), r),
    ensures
        order is Little ==> r@[0] + 0x100 * r@[1] + 0x1_0000 * r@[2] + 0x100_0000 * r@[3] == x,
        order is Big ==> r@[3] + 0x100 * r@[2] + 0x1_0000 * r@[1] + 0x100_0000 * r@[0] == x,
{
    lemma_digits32(x, order);
}

/// What the four bytes of `x` add up to.
pub(crate) proof fn lemma_digits32(x: u32, order: ByteOrder)
    ensures
        order is Little ==> bytes32(x, order)[0] + 0x100 * bytes32(x, order)[1] + 0x1_0000
            * bytes32(x, order)[2] + 0x100_0000 * bytes32(x, order)[3] == x,
        order is Big ==> bytes32(x, order)[3] + 0x100 * bytes32(x, order)[2] + 0x1_0000 * bytes32(
            x,
            order,
        )[1] + 0x100_0000 * bytes32(x, order)[0] == x,
{
    assert(x / 0x100_0000 < 256 && x % 256 + 0x100 * (x / 0x100 % 256) + 0x1_0000 * (x / 0x1_0000
        % 256) + 0x100_0000 * (x / 0x100_0000) == x) by (bit_vector);
}

/// Putting bytes together undoes splitting them.
pub proof fn law_joining_undoes_splitting(
    x: u16,
    y: u32,
    order: ByteOrder,
    a: [u8; 2],
    b: [u8; 4],
    x2: u16,
    y2: u32,
)
    requires
        call_ensures(split16, (x, order), a),
        call_ensures(join16, (a[0], a[1], order), x2),
        call_ensures(split32, (y, order), b),
        call_ensures(join32, (b[0], b[1], b[2], b[3], order), y2),
    ensures
        x2 == x,
        y2 == y,
{
    assert(seq![a[0], a[1]] =~= a@);
    assert(seq![b[0], b[1], b[2], b[3]] =~= b@);
    law_bytes16_injective(x, x2, order);
    law_bytes32_injective(y, y2, order);
}

} // verus!
