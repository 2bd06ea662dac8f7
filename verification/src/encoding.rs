//! The wire format of the message that an authorization signs.

use vstd::prelude::*;

verus! {

/// Number of bytes in a canonical message.
pub const MESSAGE_LEN: usize = 57;

/// The eight bytes of `x`, least significant first.
pub open spec fn le_bytes(x: u64) -> Seq<u8> {
    seq![
        (x % 0x100) as u8,
        (x / 0x100 % 0x100) as u8,
        (x / 0x1_0000 % 0x100) as u8,
        (x / 0x100_0000 % 0x100) as u8,
        (x / 0x1_0000_0000 % 0x100) as u8,
        (x / 0x100_0000_0000 % 0x100) as u8,
        (x / 0x1_0000_0000_0000 % 0x100) as u8,
        (x / 0x100_0000_0000_0000 % 0x100) as u8,
    ]
}

/// The byte that stands for a direction: 1 for a buy, 0 for a sell.
pub open spec fn direction_byte(is_buy: bool) -> u8 {
    if is_buy {
        1u8
    } else {
        0u8
    }
}

/// The message that an authorization covers: amount, direction, slippage
/// bound and nonce in this order, integers little-endian, followed by the
/// identifier of the principal.
pub open spec fn message_bytes(
    amount_in: u64,
    is_buy: bool,
    minimum_amount_out: u64,
    nonce: u64,
    principal: Seq<u8>,
) -> Seq<u8> {
    le_bytes(amount_in) + seq![direction_byte(is_buy)] + le_bytes(minimum_amount_out) + le_bytes(
        nonce,
    ) + principal
}

/// The integer made of eight bytes, least significant first.
pub open spec fn from_le_bytes(b: Seq<u8>) -> u64
    recommends
        b.len() == 8,
{
    (b[0] as u64) | (b[1] as u64) << 8 | (b[2] as u64) << 16 | (b[3] as u64) << 24 | (b[4] as u64)
        << 32 | (b[5] as u64) << 40 | (b[6] as u64) << 48 | (b[7] as u64) << 56
}

/// Decoding the little-endian bytes of an integer gives the integer back.
pub proof fn lemma_le_bytes_round_trip(x: u64)
    ensures
        le_bytes(x).len() == 8,
        from_le_bytes(le_bytes(x)) == x,
{
    let b = le_bytes(x);
    let c0: u64 = x % 0x100;
    let c1: u64 = x / 0x100 % 0x100;
    let c2: u64 = x / 0x1_0000 % 0x100;
    let c3: u64 = x / 0x100_0000 % 0x100;
    let c4: u64 = x / 0x1_0000_0000 % 0x100;
    let c5: u64 = x / 0x100_0000_0000 % 0x100;
    let c6: u64 = x / 0x1_0000_0000_0000 % 0x100;
    let c7: u64 = x / 0x100_0000_0000_0000 % 0x100;
    assert(b[0] as u64 == c0 && b[1] as u64 == c1 && b[2] as u64 == c2 && b[3] as u64 == c3);
    assert(b[4] as u64 == c4 && b[5] as u64 == c5 && b[6] as u64 == c6 && b[7] as u64 == c7);
    assert(x == c0 | c1 << 8 | c2 << 16 | c3 << 24 | c4 << 32 | c5 << 40 | c6 << 48 | c7 << 56)
        by (bit_vector)
        requires
            c0 == x % 0x100,
            c1 == x / 0x100 % 0x100,
            c2 == x / 0x1_0000 % 0x100,
            c3 == x / 0x100_0000 % 0x100,
            c4 == x / 0x1_0000_0000 % 0x100,
            c5 == x / 0x100_0000_0000 % 0x100,
            c6 == x / 0x1_0000_0000_0000 % 0x100,
            c7 == x / 0x100_0000_0000_0000 % 0x100,
    ;
}

/// Two integers with the same little-endian bytes are equal.
pub proof fn lemma_le_bytes_injective(x: u64, y: u64)
    requires
        le_bytes(x) == le_bytes(y),
    ensures
        x == y,
{
    lemma_le_bytes_round_trip(x);
    lemma_le_bytes_round_trip(y);
}

/// Two concatenations that are equal and split at the same place have the
/// same parts.
pub proof fn lemma_concat_parts(a: Seq<u8>, b: Seq<u8>, c: Seq<u8>, d: Seq<u8>)
    requires
        a + b == c + d,
        a.len() == c.len(),
    ensures
        a == c,
        b == d,
{
    assert(a =~= (a + b).subrange(0, a.len() as int));
    assert(c =~= (c + d).subrange(0, c.len() as int));
    assert(b =~= (a + b).subrange(a.len() as int, (a + b).len() as int));
    assert(d =~= (c + d).subrange(c.len() as int, (c + d).len() as int));
}

/// The canonical message determines the request: two requests made by
/// principals with identifiers of the same length have the same message
/// only if they agree in every field.
pub proof fn lemma_message_injective(
    amount_a: u64,
    buy_a: bool,
    bound_a: u64,
    nonce_a: u64,
    principal_a: Seq<u8>,
    amount_b: u64,
    buy_b: bool,
    bound_b: u64,
    nonce_b: u64,
    principal_b: Seq<u8>,
)
    requires
        principal_a.len() == principal_b.len(),
        message_bytes(amount_a, buy_a, bound_a, nonce_a, principal_a) == message_bytes(
            amount_b,
            buy_b,
            bound_b,
            nonce_b,
            principal_b,
        ),
    ensures
        amount_a == amount_b,
        buy_a == buy_b,
        bound_a == bound_b,
        nonce_a == nonce_b,
        principal_a == principal_b,
{
    lemma_le_bytes_round_trip(amount_a);
    lemma_le_bytes_round_trip(amount_b);
    lemma_le_bytes_round_trip(bound_a);
    lemma_le_bytes_round_trip(bound_b);
    lemma_le_bytes_round_trip(nonce_a);
    lemma_le_bytes_round_trip(nonce_b);
    let head_a = le_bytes(amount_a) + seq![direction_byte(buy_a)];
    let head_b = le_bytes(amount_b) + seq![direction_byte(buy_b)];
    let mid_a = head_a + le_bytes(bound_a);
    let mid_b = head_b + le_bytes(bound_b);
    let front_a = mid_a + le_bytes(nonce_a);
    let front_b = mid_b + le_bytes(nonce_b);
    lemma_concat_parts(front_a, principal_a, front_b, principal_b);
    lemma_concat_parts(mid_a, le_bytes(nonce_a), mid_b, le_bytes(nonce_b));
    lemma_concat_parts(head_a, le_bytes(bound_a), head_b, le_bytes(bound_b));
    lemma_concat_parts(
        le_bytes(amount_a),
        seq![direction_byte(buy_a)],
        le_bytes(amount_b),
        seq![direction_byte(buy_b)],
    );
    assert(seq![direction_byte(buy_a)][0] == seq![direction_byte(buy_b)][0]);
    lemma_le_bytes_injective(amount_a, amount_b);
    lemma_le_bytes_injective(bound_a, bound_b);
    lemma_le_bytes_injective(nonce_a, nonce_b);
}

/// Encodes `x` as eight little-endian bytes.
pub fn u64_le_bytes(x: u64) -> (out: [u8; 8])
    ensures
        out@ == le_bytes(x),
{
    let out: [u8; 8] = [
        (x % 0x100) as u8,
        (x / 0x100 % 0x100) as u8,
        (x / 0x1_0000 % 0x100) as u8,
        (x / 0x100_0000 % 0x100) as u8,
        (x / 0x1_0000_0000 % 0x100) as u8,
        (x / 0x100_0000_0000 % 0x100) as u8,
        (x / 0x1_0000_0000_0000 % 0x100) as u8,
        (x / 0x100_0000_0000_0000 % 0x100) as u8,
    ];
    assert(out@ =~= le_bytes(x));
    out
}

/// Appends the bytes of `src` to `dst`.
pub fn append_bytes(dst: &mut Vec<u8>, src: &[u8])
    ensures
        final(dst)@ == old(dst)@ + src@,
{
    let ghost before = dst@;
    let mut i: usize = 0;
    while i < src.len()
        invariant
            i <= src.len(),
            dst@ == before + src@.subrange(0, i as int),
        decreases src.len() - i,
    {
        dst.push(src[i]);
        i = i + 1;
        assert(dst@ =~= before + src@.subrange(0, i as int));
    }
    assert(src@.subrange(0, src.len() as int) =~= src@);
}

/// Tells whether `a` and `b` hold the same bytes.
pub fn bytes_equal(a: &[u8], b: &[u8]) -> (same: bool)
    ensures
        same == (a@ == b@),
{
    if a.len() != b.len() {
        return false;
    }
    let mut i: usize = 0;
    while i < a.len()
        invariant
            a.len() == b.len(),
            i <= a.len(),
            a@.subrange(0, i as int) == b@.subrange(0, i as int),
        decreases a.len() - i,
    {
        if a[i] != b[i] {
            return false;
        }
        i = i + 1;
        assert(a@.subrange(0, i as int) =~= a@.subrange(0, i - 1).push(a@[i - 1]));
        assert(b@.subrange(0, i as int) =~= b@.subrange(0, i - 1).push(b@[i - 1]));
    }
    assert(a@ =~= a@.subrange(0, a.len() as int));
    assert(b@ =~= b@.subrange(0, b.len() as int));
    true
}

/// Builds the canonical message of a request made by `principal`.
pub fn canonical_message(
    amount_in: u64,
    is_buy: bool,
    minimum_amount_out: u64,
    nonce: u64,
    principal: &[u8; 32],
) -> (msg: Vec<u8>)
    ensures
        msg@ == message_bytes(amount_in, is_buy, minimum_amount_out, nonce, principal@),
        msg@.len() == MESSAGE_LEN,
{
    let mut msg: Vec<u8> = Vec::new();
    let amount = u64_le_bytes(amount_in);
    append_bytes(&mut msg, &amount);
    msg.push(if is_buy { 1u8 } else { 0u8 });
    let bound = u64_le_bytes(minimum_amount_out);
    append_bytes(&mut msg, &bound);
    let counter = u64_le_bytes(nonce);
    append_bytes(&mut msg, &counter);
    append_bytes(&mut msg, principal);
    assert(msg@ =~= message_bytes(amount_in, is_buy, minimum_amount_out, nonce, principal@));
    msg
}

} // verus!
