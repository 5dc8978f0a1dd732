//! The order ledger: one record per settled order, created once and never
//! changed.

use vstd::prelude::*;
use vstd::bytes::{spec_u64_to_le_bytes, u64_to_le_bytes};
use crate::address::Address;
use crate::error::BazaarError;
use crate::pda::{found_view, program_address, seeds_view, try_find_program_address};

verus! {

/// The record of a settled order.
#[derive(Clone, Copy, Debug, PartialEq, Eq)]
pub struct Order {
    pub order_id: u64,
    pub hash: [u8; 32],
    pub bump: u8,
}

/// Bytes that an order account takes: an 8-byte tag, the order id, the
/// commitment and the bump seed.
pub const ORDER_SPACE: usize = 8 + 8 + 32 + 1;

/// The first seed of every order account: the bytes of `order`.
pub const ORDER_SEED: [u8; 5] = [111, 114, 100, 101, 114];

/// Where the record of `order_id` is kept under `program_id`, and the bump
/// seed of that place: derived from the seed prefix and the order id in 8
/// little-endian bytes, and from nothing else.
pub open spec fn order_address(program_id: Seq<u8>, order_id: u64) -> Option<(Seq<u8>, u8)> {
    program_address(seq![ORDER_SEED@, spec_u64_to_le_bytes(order_id)], program_id)
}

/// Derives the address of the account that holds the record of `order_id`.
pub fn find_order_address(program_id: &Address, order_id: u64) -> (found: Option<(Address, u8)>)
    ensures
        found_view(found) == order_address(program_id@, order_id),
{
    let prefix: [u8; 5] = ORDER_SEED;
    let number: Vec<u8> = u64_to_le_bytes(order_id);
    let seeds: [&[u8]; 2] = [prefix.as_slice(), number.as_slice()];
    let found = try_find_program_address(seeds.as_slice(), program_id);
    proof {
        assert(seeds_view(seeds@) =~= seq![ORDER_SEED@, spec_u64_to_le_bytes(order_id)]);
    }
    found
}

/// Whether `records` holds a record of `order_id`.
pub open spec fn holds_order(records: Seq<Order>, order_id: u64) -> bool {
    exists|i: int| 0 <= i < records.len() && (#[trigger] records[i]).order_id == order_id
}

/// Whether no two records are of the same order id.
pub open spec fn distinct_order_ids(records: Seq<Order>) -> bool {
    forall|i: int, j: int|
        0 <= i < j < records.len() ==> (#[trigger] records[i]).order_id != (
        #[trigger] records[j]).order_id
}

/// What creating `order` does to `records`: where the order id is new, the
/// record is added behind all others and its position is the handle; where it
/// is used, nothing changes.
pub open spec fn create_order_spec(records: Seq<Order>, order: Order) -> (
    Seq<Order>,
    Result<usize, BazaarError>,
) {
    if holds_order(records, order.order_id) {
        (records, Err(BazaarError::OrderIdAlreadyUsed))
    } else {
        (records.push(order), Ok(records.len() as usize))
    }
}

/// A ledger of settled orders, in the order in which they were created.
pub struct OrderLedger {
    records: Vec<Order>,
}

impl View for OrderLedger {
    type V = Seq<Order>;

    closed spec fn view(&self) -> Seq<Order> {
        self.records@
    }
}

impl OrderLedger {
    /// The invariant of a ledger: at most one record for an order id.
    pub open spec fn wf(&self) -> bool {
        distinct_order_ids(self@)
    }

    /// A ledger without records.
    pub fn new() -> (ledger: OrderLedger)
        ensures
            ledger@ == Seq::<Order>::empty(),
            ledger.wf(),
    {
        OrderLedger { records: Vec::new() }
    }

    /// The number of records.
    pub fn len(&self) -> (count: usize)
        ensures
            count == self@.len(),
    {
        self.records.len()
    }

    /// The handle of the record of `order_id`, if there is one.
    pub fn find(&self, order_id: u64) -> (found: Option<usize>)
        ensures
            match found {
                Some(handle) => {
                    &&& handle < self@.len()
                    &&& self@[handle as int].order_id == order_id
                    &&& forall|j: int| 0 <= j < handle ==> (#[trigger] self@[j]).order_id != order_id
                },
                None => !holds_order(self@, order_id),
            },
    {
        let mut i: usize = 0;
        while i < self.records.len()
            invariant
                i <= self.records.len(),
                forall|j: int| 0 <= j < i ==> (#[trigger] self.records@[j]).order_id != order_id,
            decreases self.records.len() - i,
        {
            if self.records[i].order_id == order_id {
                return Some(i);
            }
            i += 1;
        }
        None
    }

    /// The record behind `handle`, if the handle is of this ledger.
    pub fn get(&self, handle: usize) -> (record: Option<Order>)
        ensures
            record == if handle < self@.len() {
                Some(self@[handle as int])
            } else {
                None
            },
    {
        if handle < self.records.len() {
            Some(self.records[handle])
        } else {
            None
        }
    }

    /// Creates the record of an order.  An order id can be used once: a second
    /// record of the same id is refused, whatever it holds, and the ledger
    /// stays as it was.
    pub fn create_order(&mut self, order_id: u64, commitment_hash: [u8; 32], bump: u8) -> (created:
        Result<usize, BazaarError>)
        ensures
            (final(self)@, created) == create_order_spec(
                old(self)@,
                Order { order_id, hash: commitment_hash, bump },
            ),
            old(self).wf() ==> final(self).wf(),
    {
        match self.find(order_id) {
            Some(_) => Err(BazaarError::OrderIdAlreadyUsed),
            None => {
                let handle: usize = self.records.len();
                self.records.push(Order { order_id, hash: commitment_hash, bump });
                Ok(handle)
            },
        }
    }
}

/// An order id that was used stays used: once a record of it was asked of a
/// ledger, whether it was created then or had been before, the ledger holds
/// it, and keeps holding it whatever records are created later.
pub proof fn lemma_order_id_stays_used(records: Seq<Order>, order: Order, later: Order)
    ensures
        holds_order(create_order_spec(records, order).0, order.order_id),
        holds_order(records, order.order_id) ==> holds_order(
            create_order_spec(records, later).0,
            order.order_id,
        ),
{
    let after = create_order_spec(records, order).0;
    if !holds_order(records, order.order_id) {
        assert(after[records.len() as int].order_id == order.order_id);
    }
    let next = create_order_spec(records, later).0;
    if holds_order(records, order.order_id) {
        let i = choose|i: int| 0 <= i < records.len() && (#[trigger] records[i]).order_id
            == order.order_id;
        assert(next[i].order_id == order.order_id);
    }
}

/// A ledger never holds two records of one order id: creating a record keeps
/// the order ids distinct.
pub proof fn lemma_create_order_keeps_ids_distinct(records: Seq<Order>, order: Order)
    requires
        distinct_order_ids(records),
    ensures
        distinct_order_ids(create_order_spec(records, order).0),
{
}

/// Records are never changed and never removed: after any creation the ledger
/// begins with the records that it held, each unchanged.
pub proof fn lemma_records_are_kept(records: Seq<Order>, order: Order)
    ensures
        records.len() <= create_order_spec(records, order).0.len() <= records.len() + 1,
        forall|i: int|
            0 <= i < records.len() ==> create_order_spec(records, order).0[i] == #[trigger] records[i],
{
}

} // verus!
