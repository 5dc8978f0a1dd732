//! The commitment: a fixed-size digest over the canonical encoding of an order.
//!
//! The encoding is the order id in 8 little-endian bytes, then every amount in
//! 8 little-endian bytes, then every recipient in its 32 bytes, each list in its
//! own order.  Anyone who holds the same three inputs can rebuild the digest.

use vstd::prelude::*;
use vstd::bytes::{spec_u64_to_le_bytes, u64_to_le_bytes, lemma_auto_spec_u64_to_from_le_bytes};
use crate::address::{Address, lemma_address_view_injective};

verus! {

/// The amounts, 8 little-endian bytes each, in list order.
pub open spec fn amounts_encoding(amounts: Seq<u64>) -> Seq<u8>
    decreases amounts.len(),
{
    if amounts.len() == 0 {
        Seq::empty()
    } else {
        amounts_encoding(amounts.drop_last()) + spec_u64_to_le_bytes(amounts.last())
    }
}

/// The recipients, 32 bytes each, in list order.
pub open spec fn recipients_encoding(recipients: Seq<Address>) -> Seq<u8>
    decreases recipients.len(),
{
    if recipients.len() == 0 {
        Seq::empty()
    } else {
        recipients_encoding(recipients.drop_last()) + recipients.last()@
    }
}

/// The bytes that are hashed: order id, then amounts, then recipients.
pub open spec fn commitment_preimage(
    order_id: u64,
    amounts: Seq<u64>,
    recipients: Seq<Address>,
) -> Seq<u8> {
    spec_u64_to_le_bytes(order_id) + amounts_encoding(amounts) + recipients_encoding(recipients)
}

/// The SHA-256 digest of `data`.
pub uninterp spec fn sha256(data: Seq<u8>) -> Seq<u8>;

/// The commitment of an order: the digest of its encoding.
pub open spec fn commitment(order_id: u64, amounts: Seq<u64>, recipients: Seq<Address>) -> Seq<u8> {
    sha256(commitment_preimage(order_id, amounts, recipients))
}

/// Calls `solana_program::hash::hash` (reached through `anchor_lang`) and takes
/// the 32 bytes of the `Hash` it returns.  The contract claims only that the
/// result is a function of the input bytes, and calls that function [`sha256`].
#[verifier::external_body]
fn sha256_digest(data: &[u8]) -> (digest: [u8; 32])
    ensures
        digest@ == sha256(data@),
{
    anchor_lang::solana_program::hash::hash(data).to_bytes()
}

/// Builds the canonical encoding of an order.
pub fn encode_commitment_preimage(order_id: u64, amounts: &[u64], recipients: &[Address]) -> (data:
    Vec<u8>)
    ensures
        data@ == commitment_preimage(order_id, amounts@, recipients@),
{
    let mut data: Vec<u8> = u64_to_le_bytes(order_id);
    let mut i: usize = 0;
    while i < amounts.len()
        invariant
            i <= amounts.len(),
            data@ == spec_u64_to_le_bytes(order_id) + amounts_encoding(amounts@.take(i as int)),
        decreases amounts.len() - i,
    {
        let mut chunk: Vec<u8> = u64_to_le_bytes(amounts[i]);
        data.append(&mut chunk);
        proof {
            let next = amounts@.take(i + 1);
            assert(next.drop_last() =~= amounts@.take(i as int));
            assert(next.last() == amounts@[i as int]);
            assert(data@ =~= spec_u64_to_le_bytes(order_id) + amounts_encoding(next));
        }
        i += 1;
    }
    assert(amounts@.take(i as int) =~= amounts@);
    let mut k: usize = 0;
    while k < recipients.len()
        invariant
            k <= recipients.len(),
            data@ == spec_u64_to_le_bytes(order_id) + amounts_encoding(amounts@)
                + recipients_encoding(recipients@.take(k as int)),
        decreases recipients.len() - k,
    {
        let ghost before = data@;
        let bytes: [u8; 32] = recipients[k].bytes;
        let mut b: usize = 0;
        while b < 32
            invariant
                b <= 32,
                data@ == before + bytes@.take(b as int),
            decreases 32 - b,
        {
            data.push(bytes[b]);
            assert(bytes@.take(b + 1) =~= bytes@.take(b as int).push(bytes@[b as int]));
            assert(data@ =~= before + bytes@.take(b + 1));
            b += 1;
        }
        proof {
            assert(bytes@.take(32) =~= bytes@);
            let next = recipients@.take(k + 1);
            assert(next.drop_last() =~= recipients@.take(k as int));
            assert(next.last() == recipients@[k as int]);
            assert(data@ =~= spec_u64_to_le_bytes(order_id) + amounts_encoding(amounts@)
                + recipients_encoding(next));
        }
        k += 1;
    }
    assert(recipients@.take(k as int) =~= recipients@);
    data
}

/// Computes the commitment of an order.
pub fn compute_commitment(order_id: u64, amounts: &[u64], recipients: &[Address]) -> (digest: [u8; 32])
    ensures
        digest@ == commitment(order_id, amounts@, recipients@),
{
    let data = encode_commitment_preimage(order_id, amounts, recipients);
    sha256_digest(data.as_slice())
}

/// Every amount takes 8 bytes of the encoding.
pub proof fn lemma_amounts_encoding_len(amounts: Seq<u64>)
    ensures
        amounts_encoding(amounts).len() == 8 * amounts.len(),
    decreases amounts.len(),
{
    lemma_auto_spec_u64_to_from_le_bytes();
    if amounts.len() > 0 {
        lemma_amounts_encoding_len(amounts.drop_last());
    }
}

/// Every recipient takes 32 bytes of the encoding.
pub proof fn lemma_recipients_encoding_len(recipients: Seq<Address>)
    ensures
        recipients_encoding(recipients).len() == 32 * recipients.len(),
    decreases recipients.len(),
{
    if recipients.len() > 0 {
        lemma_recipients_encoding_len(recipients.drop_last());
        lemma_address_view_injective(recipients.last(), recipients.last());
    }
}

/// The encoding of an order with `n` amounts and `m` recipients has
/// `8 + 8 n + 32 m` bytes.
pub proof fn lemma_commitment_preimage_len(order_id: u64, amounts: Seq<u64>, recipients: Seq<Address>)
    ensures
        commitment_preimage(order_id, amounts, recipients).len() == 8 + 8 * amounts.len() + 32
            * recipients.len(),
{
    lemma_auto_spec_u64_to_from_le_bytes();
    lemma_amounts_encoding_len(amounts);
    lemma_recipients_encoding_len(recipients);
}

/// Two lists of amounts with the same encoding are the same list.
pub proof fn lemma_amounts_encoding_injective(a: Seq<u64>, b: Seq<u64>)
    requires
        amounts_encoding(a) == amounts_encoding(b),
    ensures
        a == b,
    decreases a.len(),
{
    lemma_auto_spec_u64_to_from_le_bytes();
    lemma_amounts_encoding_len(a);
    lemma_amounts_encoding_len(b);
    if a.len() > 0 {
        let front_a = amounts_encoding(a.drop_last());
        let front_b = amounts_encoding(b.drop_last());
        let last_a = spec_u64_to_le_bytes(a.last());
        let last_b = spec_u64_to_le_bytes(b.last());
        lemma_amounts_encoding_len(a.drop_last());
        lemma_amounts_encoding_len(b.drop_last());
        let whole = amounts_encoding(a);
        assert(whole == front_a + last_a);
        assert(whole == front_b + last_b);
        assert(front_a =~= whole.subrange(0, front_a.len() as int));
        assert(front_b =~= whole.subrange(0, front_b.len() as int));
        assert(last_a =~= whole.subrange(front_a.len() as int, whole.len() as int));
        assert(last_b =~= whole.subrange(front_b.len() as int, whole.len() as int));
        lemma_amounts_encoding_injective(a.drop_last(), b.drop_last());
        assert(a.last() == b.last());
        assert(a =~= a.drop_last().push(a.last()));
        assert(b =~= b.drop_last().push(b.last()));
    } else {
        assert(a =~= b);
    }
}

/// Two lists of recipients with the same encoding are the same list.
pub proof fn lemma_recipients_encoding_injective(a: Seq<Address>, b: Seq<Address>)
    requires
        recipients_encoding(a) == recipients_encoding(b),
    ensures
        a == b,
    decreases a.len(),
{
    lemma_recipients_encoding_len(a);
    lemma_recipients_encoding_len(b);
    if a.len() > 0 {
        let front_a = recipients_encoding(a.drop_last());
        let front_b = recipients_encoding(b.drop_last());
        lemma_recipients_encoding_len(a.drop_last());
        lemma_recipients_encoding_len(b.drop_last());
        lemma_address_view_injective(a.last(), b.last());
        let whole = recipients_encoding(a);
        assert(whole == front_a + a.last()@);
        assert(whole == front_b + b.last()@);
        assert(front_a =~= whole.subrange(0, front_a.len() as int));
        assert(front_b =~= whole.subrange(0, front_b.len() as int));
        assert(a.last()@ =~= whole.subrange(front_a.len() as int, whole.len() as int));
        assert(b.last()@ =~= whole.subrange(front_b.len() as int, whole.len() as int));
        lemma_recipients_encoding_injective(a.drop_last(), b.drop_last());
        assert(a.last() == b.last());
        assert(a =~= a.drop_last().push(a.last()));
        assert(b =~= b.drop_last().push(b.last()));
    } else {
        assert(a =~= b);
    }
}

/// The encoding is canonical: among orders that pair every amount with a
/// recipient, two orders with the same encoding are the same order.  So two
/// such orders that differ in anything are hashed over different bytes.
pub proof fn lemma_commitment_preimage_injective(
    order_id_a: u64,
    amounts_a: Seq<u64>,
    recipients_a: Seq<Address>,
    order_id_b: u64,
    amounts_b: Seq<u64>,
    recipients_b: Seq<Address>,
)
    requires
        amounts_a.len() == recipients_a.len(),
        amounts_b.len() == recipients_b.len(),
        commitment_preimage(order_id_a, amounts_a, recipients_a) == commitment_preimage(
            order_id_b,
            amounts_b,
            recipients_b,
        ),
    ensures
        order_id_a == order_id_b,
        amounts_a == amounts_b,
        recipients_a == recipients_b,
{
    lemma_auto_spec_u64_to_from_le_bytes();
    lemma_amounts_encoding_len(amounts_a);
    lemma_amounts_encoding_len(amounts_b);
    lemma_recipients_encoding_len(recipients_a);
    lemma_recipients_encoding_len(recipients_b);
    let whole = commitment_preimage(order_id_a, amounts_a, recipients_a);
    let head_a = spec_u64_to_le_bytes(order_id_a);
    let head_b = spec_u64_to_le_bytes(order_id_b);
    let mid_a = amounts_encoding(amounts_a);
    let mid_b = amounts_encoding(amounts_b);
    let tail_a = recipients_encoding(recipients_a);
    let tail_b = recipients_encoding(recipients_b);
    assert(whole == head_a + mid_a + tail_a);
    assert(whole == head_b + mid_b + tail_b);
    assert(whole.len() == 8 + 40 * amounts_a.len());
    assert(whole.len() == 8 + 40 * amounts_b.len());
    assert(amounts_a.len() == amounts_b.len());
    let cut: int = 8 + mid_a.len() as int;
    assert(head_a =~= whole.subrange(0, 8));
    assert(head_b =~= whole.subrange(0, 8));
    assert(mid_a =~= whole.subrange(8, cut));
    assert(mid_b =~= whole.subrange(8, cut));
    assert(tail_a =~= whole.subrange(cut, whole.len() as int));
    assert(tail_b =~= whole.subrange(cut, whole.len() as int));
    lemma_amounts_encoding_injective(amounts_a, amounts_b);
    lemma_recipients_encoding_injective(recipients_a, recipients_b);
}

/// The commitment is a function of the order: the same order id, amounts and
/// recipients always give the same digest.
pub proof fn lemma_commitment_deterministic(
    order_id_a: u64,
    amounts_a: Seq<u64>,
    recipients_a: Seq<Address>,
    order_id_b: u64,
    amounts_b: Seq<u64>,
    recipients_b: Seq<Address>,
)
    requires
        order_id_a == order_id_b,
        amounts_a == amounts_b,
        recipients_a == recipients_b,
    ensures
        commitment(order_id_a, amounts_a, recipients_a) == commitment(
            order_id_b,
            amounts_b,
            recipients_b,
        ),
{
}

/// The commitment binds the order as far as the hash function does: among
/// orders that pair every amount with a recipient, two with the same
/// commitment are the same order, or their encodings are two different inputs
/// on which SHA-256 collides.
pub proof fn lemma_equal_commitments(
    order_id_a: u64,
    amounts_a: Seq<u64>,
    recipients_a: Seq<Address>,
    order_id_b: u64,
    amounts_b: Seq<u64>,
    recipients_b: Seq<Address>,
)
    requires
        amounts_a.len() == recipients_a.len(),
        amounts_b.len() == recipients_b.len(),
        commitment(order_id_a, amounts_a, recipients_a) == commitment(
            order_id_b,
            amounts_b,
            recipients_b,
        ),
    ensures
        ({
            let data_a = commitment_preimage(order_id_a, amounts_a, recipients_a);
            let data_b = commitment_preimage(order_id_b, amounts_b, recipients_b);
            ||| (order_id_a == order_id_b && amounts_a == amounts_b && recipients_a
                == recipients_b)
            ||| (data_a != data_b && sha256(data_a) == sha256(data_b))
        }),
{
    let data_a = commitment_preimage(order_id_a, amounts_a, recipients_a);
    let data_b = commitment_preimage(order_id_b, amounts_b, recipients_b);
    if data_a == data_b {
        lemma_commitment_preimage_injective(
            order_id_a,
            amounts_a,
            recipients_a,
            order_id_b,
            amounts_b,
            recipients_b,
        );
    }
}

/// The order of the payments matters.  Rearranging the payments of an order
/// by `order` (payment `i` of the new list is payment `order[i]` of the old
/// one, amount and recipient moving together) changes the bytes that are
/// hashed, unless every payment is the same as the one that took its place.
pub proof fn lemma_reordering_changes_preimage(
    order_id: u64,
    amounts: Seq<u64>,
    recipients: Seq<Address>,
    order: Seq<int>,
)
    requires
        amounts.len() == recipients.len(),
        order.len() == amounts.len(),
        forall|i: int| 0 <= i < order.len() ==> 0 <= #[trigger] order[i] < amounts.len(),
        exists|i: int|
            0 <= i < order.len() && (amounts[#[trigger] order[i]] != amounts[i]
                || recipients[order[i]] != recipients[i]),
    ensures
        commitment_preimage(
            order_id,
            Seq::new(amounts.len(), |i: int| amounts[order[i]]),
            Seq::new(recipients.len(), |i: int| recipients[order[i]]),
        ) != commitment_preimage(order_id, amounts, recipients),
{
    let moved_amounts = Seq::new(amounts.len(), |i: int| amounts[order[i]]);
    let moved_recipients = Seq::new(recipients.len(), |i: int| recipients[order[i]]);
    if commitment_preimage(order_id, moved_amounts, moved_recipients) == commitment_preimage(
        order_id,
        amounts,
        recipients,
    ) {
        lemma_commitment_preimage_injective(
            order_id,
            moved_amounts,
            moved_recipients,
            order_id,
            amounts,
            recipients,
        );
        let i = choose|i: int|
            0 <= i < order.len() && (amounts[#[trigger] order[i]] != amounts[i]
                || recipients[order[i]] != recipients[i]);
        assert(moved_amounts[i] == amounts[order[i]]);
        assert(moved_recipients[i] == recipients[order[i]]);
    }
}

} // verus!
