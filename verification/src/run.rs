//! Runs of a settlement: what the machine does over any sequence of replies,
//! and what the host keeps of it.

use vstd::prelude::*;
use crate::error::BazaarError;
use crate::ledger::{Order, create_order_spec, lemma_order_id_stays_used};
use crate::settlement::{Action, Phase, Reply, SettlementView, TransferInstruction};

verus! {

/// The state after `replies`, and every action that was asked for on the way,
/// the request for the order record first.
pub open spec fn run(start: SettlementView, replies: Seq<Reply>) -> (SettlementView, Seq<Action>)
    decreases replies.len(),
{
    if replies.len() == 0 {
        (start, seq![Action::CreateOrder(start.order)])
    } else {
        let (before, actions) = run(start, replies.drop_last());
        let (after, action) = before.step(replies.last());
        (after, actions.push(action))
    }
}

/// The transfers among `actions`, in their order.
pub open spec fn transfers_of(actions: Seq<Action>) -> Seq<TransferInstruction>
    decreases actions.len(),
{
    if actions.len() == 0 {
        Seq::empty()
    } else {
        let earlier = transfers_of(actions.drop_last());
        match actions.last() {
            Action::Transfer(transfer) => earlier.push(transfer),
            _ => earlier,
        }
    }
}

/// The order records among `actions`, in their order.
pub open spec fn orders_of(actions: Seq<Action>) -> Seq<Order>
    decreases actions.len(),
{
    if actions.len() == 0 {
        Seq::empty()
    } else {
        let earlier = orders_of(actions.drop_last());
        match actions.last() {
            Action::CreateOrder(order) => earlier.push(order),
            _ => earlier,
        }
    }
}

/// Whether the host keeps what it did for `actions`: it does when the last
/// word was `Complete`, and discards everything otherwise.
pub open spec fn kept(actions: Seq<Action>) -> bool {
    actions.len() > 0 && actions.last() is Complete
}

/// The transfers that the host keeps.
pub open spec fn kept_transfers(actions: Seq<Action>) -> Seq<TransferInstruction> {
    if kept(actions) {
        transfers_of(actions)
    } else {
        Seq::empty()
    }
}

/// The order records that the host keeps.
pub open spec fn kept_orders(actions: Seq<Action>) -> Seq<Order> {
    if kept(actions) {
        orders_of(actions)
    } else {
        Seq::empty()
    }
}

/// The transfers of an order: one for each recipient, in list order.
pub open spec fn planned_transfers(settlement: SettlementView) -> Seq<TransferInstruction> {
    Seq::new(settlement.transfers(), |i: int| settlement.transfer(i))
}

/// Whether the transfers before `upto` all pass their check.
pub open spec fn checks_pass(settlement: SettlementView, upto: nat) -> bool {
    forall|i: int| 0 <= i < upto ==> (#[trigger] settlement.transfer_check(i)) is Ok
}

/// What holds between the beginning of a run, its state and its actions.
pub open spec fn run_invariant(
    start: SettlementView,
    end: SettlementView,
    actions: Seq<Action>,
) -> bool {
    let planned = planned_transfers(start);
    let issued = transfers_of(actions);
    &&& end.wf()
    &&& end.request == start.request
    &&& end.token_program == start.token_program
    &&& end.mint == start.mint
    &&& end.order == start.order
    &&& actions.len() > 0
    &&& orders_of(actions) == seq![start.order]
    &&& match end.phase {
        Phase::AwaitingOrder => {
            &&& end.cursor == 0
            &&& issued == Seq::<TransferInstruction>::empty()
            &&& actions.last() == Action::CreateOrder(start.order)
        },
        Phase::AwaitingTransfer => {
            &&& issued == planned.take(end.cursor as int + 1)
            &&& actions.last() == Action::Transfer(start.transfer(end.cursor as int))
            &&& checks_pass(start, end.cursor + 1)
        },
        Phase::Settled => {
            &&& end.cursor == start.transfers()
            &&& start.mint is Ok
            &&& issued == planned
            &&& actions.last() == Action::Complete(start.event())
            &&& checks_pass(start, start.transfers())
        },
        Phase::Failed(error) => {
            &&& actions.last() == Action::Abort(error)
            &&& issued == planned.take(end.cursor as int) || (end.cursor < start.transfers()
                && issued == planned.take(end.cursor as int + 1))
            &&& checks_pass(start, end.cursor)
        },
    }
}

proof fn lemma_transfers_of_push(actions: Seq<Action>, action: Action)
    ensures
        transfers_of(actions.push(action)) == match action {
            Action::Transfer(transfer) => transfers_of(actions).push(transfer),
            _ => transfers_of(actions),
        },
        orders_of(actions.push(action)) == match action {
            Action::CreateOrder(order) => orders_of(actions).push(order),
            _ => orders_of(actions),
        },
{
    assert(actions.push(action).drop_last() =~= actions);
}

/// The invariant holds of every run that begins with the request for the
/// order record.
pub proof fn lemma_run_invariant(start: SettlementView, replies: Seq<Reply>)
    requires
        start.begins(),
    ensures
        run_invariant(start, run(start, replies).0, run(start, replies).1),
    decreases replies.len(),
{
    let planned = planned_transfers(start);
    if replies.len() == 0 {
        let first = seq![Action::CreateOrder(start.order)];
        lemma_transfers_of_push(Seq::empty(), Action::CreateOrder(start.order));
        assert(first =~= Seq::<Action>::empty().push(Action::CreateOrder(start.order)));
        assert(orders_of(first) =~= seq![start.order]);
        assert(transfers_of(first) =~= Seq::<TransferInstruction>::empty());
    } else {
        lemma_run_invariant(start, replies.drop_last());
        let (before, actions) = run(start, replies.drop_last());
        lemma_transfers_of_push(actions, before.step(replies.last()).1);
        let confirmed: nat = if before.phase == Phase::AwaitingOrder {
            0
        } else {
            before.cursor + 1
        };
        assert(planned.take(0) =~= Seq::<TransferInstruction>::empty());
        assert(planned.take(start.transfers() as int) =~= planned);
        if confirmed < start.transfers() {
            assert(planned.take(confirmed as int + 1) =~= planned.take(confirmed as int).push(
                start.transfer(confirmed as int),
            ));
            assert(before.transfer_check(confirmed as int) == start.transfer_check(
                confirmed as int,
            ));
            assert(before.transfer(confirmed as int) == start.transfer(confirmed as int));
        }
        assert(before.event() == start.event());
    }
}

/// A settlement is all or nothing.  Whatever the host replies, it keeps
/// either the one order record together with every transfer of the order,
/// one for each recipient and each as the request states it, or no record
/// and no transfer.
pub proof fn lemma_all_or_nothing(start: SettlementView, replies: Seq<Reply>)
    requires
        start.begins(),
    ensures
        ({
            let actions = run(start, replies).1;
            ||| (kept_orders(actions) == seq![start.order] && kept_transfers(actions)
                == planned_transfers(start) && planned_transfers(start).len()
                == start.request.recipients.len())
            ||| (kept_orders(actions).len() == 0 && kept_transfers(actions).len() == 0)
        }),
{
    lemma_run_invariant(start, replies);
}

/// What a settled order has behind it: the record was asked for once, the
/// transfers that were asked for are those of the order, each had passed its
/// check, the mint was read, and the last word was the event.
pub proof fn lemma_settled_run(start: SettlementView, replies: Seq<Reply>)
    requires
        start.begins(),
        run(start, replies).0.phase == Phase::Settled,
    ensures
        orders_of(run(start, replies).1) == seq![start.order],
        transfers_of(run(start, replies).1) == planned_transfers(start),
        checks_pass(start, start.transfers()),
        start.mint is Ok,
        run(start, replies).1.last() == Action::Complete(start.event()),
        kept(run(start, replies).1),
{
    lemma_run_invariant(start, replies);
}

/// What a failed order has behind it: the last word was its error, so the
/// host keeps nothing; and no transfer was asked for but those of the order,
/// in list order, each after its own check had passed.
pub proof fn lemma_failed_run(start: SettlementView, replies: Seq<Reply>, error: BazaarError)
    requires
        start.begins(),
        run(start, replies).0.phase == Phase::Failed(error),
    ensures
        run(start, replies).1.last() == Action::Abort(error),
        !kept(run(start, replies).1),
        transfers_of(run(start, replies).1).len() <= start.transfers(),
        transfers_of(run(start, replies).1) == planned_transfers(start).take(
            transfers_of(run(start, replies).1).len() as int,
        ),
        checks_pass(start, run(start, replies).0.cursor),
{
    lemma_run_invariant(start, replies);
}

/// A settlement ends.  While the order record is awaited no reply has come;
/// while a transfer is awaited every reply so far confirmed something; so
/// after one reply more than there are transfers the settlement has settled
/// or failed.
pub proof fn lemma_run_ends(start: SettlementView, replies: Seq<Reply>)
    requires
        start.begins(),
    ensures
        run(start, replies).0.phase == Phase::AwaitingOrder ==> replies.len() == 0,
        run(start, replies).0.phase == Phase::AwaitingTransfer ==> replies.len() == run(
            start,
            replies,
        ).0.cursor + 1,
        run(start, replies).0.phase == Phase::Settled ==> replies.len() > start.transfers(),
        replies.len() > start.transfers() ==> run(start, replies).0.phase == Phase::Settled
            || run(start, replies).0.phase is Failed,
    decreases replies.len(),
{
    lemma_run_invariant(start, replies);
    if replies.len() > 0 {
        lemma_run_ends(start, replies.drop_last());
        lemma_run_invariant(start, replies.drop_last());
    }
}

/// A settlement whose order record is refused fails with
/// `OrderIdAlreadyUsed` and asks for no transfer, whatever it was to pay and
/// whatever the host replies afterwards.
pub proof fn lemma_refused_order_aborts(start: SettlementView, replies: Seq<Reply>)
    requires
        start.begins(),
        replies.len() > 0,
        replies[0] == Reply::Failed,
    ensures
        run(start, replies).0.phase == Phase::Failed(BazaarError::OrderIdAlreadyUsed),
        run(start, replies).1.last() == Action::Abort(BazaarError::OrderIdAlreadyUsed),
        transfers_of(run(start, replies).1).len() == 0,
        !kept(run(start, replies).1),
    decreases replies.len(),
{
    let (before, actions) = run(start, replies.drop_last());
    lemma_transfers_of_push(actions, before.step(replies.last()).1);
    if replies.len() == 1 {
        assert(replies.drop_last() =~= Seq::<Reply>::empty());
        lemma_run_invariant(start, replies.drop_last());
    } else {
        assert(replies.drop_last()[0] == replies[0]);
        lemma_refused_order_aborts(start, replies.drop_last());
    }
}

/// The reply of a host that keeps its order records in a ledger, to the
/// request to create `order`.
pub open spec fn ledger_reply(records: Seq<Order>, order: Order) -> Reply {
    Reply::spec_of(create_order_spec(records, order).1)
}

/// Settling twice under one order id: once a record of the id was asked of
/// the ledger, a settlement under the same id is refused with
/// `OrderIdAlreadyUsed` and asks for no transfer, whatever it was to pay.
pub proof fn lemma_settling_twice_is_rejected(
    records: Seq<Order>,
    first: Order,
    second: SettlementView,
    replies: Seq<Reply>,
)
    requires
        second.begins(),
        second.order.order_id == first.order_id,
        replies.len() > 0,
        replies[0] == ledger_reply(create_order_spec(records, first).0, second.order),
    ensures
        create_order_spec(create_order_spec(records, first).0, second.order) == (
            create_order_spec(records, first).0,
            Err::<usize, BazaarError>(BazaarError::OrderIdAlreadyUsed),
        ),
        run(second, replies).0.phase == Phase::Failed(BazaarError::OrderIdAlreadyUsed),
        run(second, replies).1.last() == Action::Abort(BazaarError::OrderIdAlreadyUsed),
        transfers_of(run(second, replies).1).len() == 0,
        kept_transfers(run(second, replies).1).len() == 0,
        kept_orders(run(second, replies).1).len() == 0,
{
    lemma_order_id_stays_used(records, first, second.order);
    lemma_refused_order_aborts(second, replies);
}

} // verus!
