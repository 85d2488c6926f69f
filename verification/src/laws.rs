//! Properties of the request flows that span several steps.
//!
//! Order flows are played against a model of two tables: the `users`
//! table's credits, a map from user id to credit, which every credit write
//! updates and which every read of a user reports; and the ids of the rows of
//! the `orders` table, which an order write adds to and an order removal takes
//! from.
use vstd::prelude::*;

use crate::db::{Query, Row, Step};
use crate::error::DbError;
use crate::model::{Authenticate, Dishes, Orders, Users};
use crate::services_user::Logout;
use crate::error::MyError;
use crate::service_orders::{
    AddOrder, AddOrderStage, DeleteOrder, DeleteOrderStage, OkOrder, OkOrderStage, charged, credited,
    fits_i32,
};

verus! {

/// The credits after `step` ran: a credit write sets that user's credit;
/// every other step leaves the credits as they are.
pub open spec fn apply_credit(credits: Map<i32, i32>, step: Step<Orders>) -> Map<i32, i32> {
    match step {
        Step::Run(Query::SetCredit { user_id, credit }) => credits.insert(user_id, credit),
        _ => credits,
    }
}

/// The order ids after `step` ran, where `written` is the order row that the
/// step wrote or removed: writing an order adds its id, removing one takes its
/// id away, and every other step leaves the ids as they are.
pub open spec fn apply_orders(order_ids: Set<i32>, step: Step<Orders>, written: Orders) -> Set<i32> {
    match step {
        Step::Run(Query::InsertOrder { .. }) => order_ids.insert(written.id),
        Step::Run(Query::DeleteOrder { order_id }) => order_ids.remove(order_id),
        _ => order_ids,
    }
}

/// The sum of the credits of the users `ids`.
pub open spec fn sum_over(credits: Map<i32, i32>, ids: Set<i32>) -> int
    decreases ids.len(),
{
    if ids.finite() && ids.len() > 0 {
        let k = ids.choose();
        credits[k] + sum_over(credits, ids.remove(k))
    } else {
        0
    }
}

/// The sum of all credits in the table.
pub open spec fn credit_total(credits: Map<i32, i32>) -> int {
    sum_over(credits, credits.dom())
}

/// Taking any one user out of a sum leaves its credit and the sum of the rest.
pub proof fn lemma_sum_over_remove(credits: Map<i32, i32>, ids: Set<i32>, k: i32)
    requires
        ids.finite(),
        ids.contains(k),
    ensures
        sum_over(credits, ids) == credits[k] + sum_over(credits, ids.remove(k)),
    decreases ids.len(),
{
    let c = ids.choose();
    if c != k {
        lemma_sum_over_remove(credits, ids.remove(c), k);
        lemma_sum_over_remove(credits, ids.remove(k), c);
        assert(ids.remove(c).remove(k) =~= ids.remove(k).remove(c));
    }
}

/// Sums over the same users agree when the credits of those users agree.
pub proof fn lemma_sum_over_agree(a: Map<i32, i32>, b: Map<i32, i32>, ids: Set<i32>)
    requires
        ids.finite(),
        forall|k: i32| #[trigger] ids.contains(k) ==> a[k] == b[k],
    ensures
        sum_over(a, ids) == sum_over(b, ids),
    decreases ids.len(),
{
    if ids.len() > 0 {
        let c = ids.choose();
        lemma_sum_over_agree(a, b, ids.remove(c));
    }
}

/// Setting the credit of a user in the table changes the total by the
/// difference, and keeps the set of users.
pub proof fn lemma_credit_total_insert(credits: Map<i32, i32>, k: i32, v: i32)
    requires
        credits.dom().finite(),
        credits.contains_key(k),
    ensures
        credits.insert(k, v).dom() =~= credits.dom(),
        credit_total(credits.insert(k, v)) == credit_total(credits) - credits[k] + v,
{
    let ids = credits.dom();
    let after = credits.insert(k, v);
    assert(after.dom() =~= ids);
    lemma_sum_over_remove(credits, ids, k);
    lemma_sum_over_remove(after, ids, k);
    lemma_sum_over_agree(credits, after, ids.remove(k));
}

/// The row of user `user_id` holding `credit`, its other fields taken from `row`.
pub open spec fn user_row(row: Users, user_id: i32, credit: i32) -> Users {
    Users { user_id, credit, ..row }
}

/// A complete order of `dish` by `buyer_id` against tables holding
/// `credits` and the orders `order_ids`: the buyer's credit is the one the
/// table holds, the order written is `order`, each write is applied, and the
/// read of the dish owner reports the owner's credit at that point. Gives the
/// credits and the order ids at the end, and the last step.
pub open spec fn order_run(
    credits: Map<i32, i32>,
    order_ids: Set<i32>,
    buyer_id: i32,
    dish: Dishes,
    order: Orders,
    row: Users,
) -> (Map<i32, i32>, Set<i32>, Step<Orders>) {
    let f0 = AddOrder { buyer_id, buyer_credit: credits[buyer_id], stage: AddOrderStage::AwaitDish };
    let r1 = f0.next(Ok(Row::Dish(dish)));
    let ids = apply_orders(order_ids, r1.1, order);
    let r2 = r1.0.next(Ok(Row::Order(order)));
    let c1 = apply_credit(credits, r2.1);
    let r3 = r2.0.next(Ok(Row::User(user_row(row, buyer_id, c1[buyer_id]))));
    let r4 = r3.0.next(Ok(Row::User(user_row(row, dish.user_id, c1[dish.user_id]))));
    let c2 = apply_credit(c1, r4.1);
    let r5 = r4.0.next(Ok(Row::User(user_row(row, dish.user_id, c2[dish.user_id]))));
    (c2, ids, r5.1)
}

/// A complete cancellation of `order` (of `dish`) by `requester_id` against
/// tables holding `credits` and the orders `order_ids`, in the same way as
/// `order_run`; the row removed is `order`.
pub open spec fn cancel_run(
    credits: Map<i32, i32>,
    order_ids: Set<i32>,
    requester_id: i32,
    dish: Dishes,
    order: Orders,
    row: Users,
) -> (Map<i32, i32>, Set<i32>, Step<Orders>) {
    let g0 = DeleteOrder {
        requester_id,
        requester_credit: credits[requester_id],
        stage: DeleteOrderStage::AwaitOrder,
    };
    let r1 = g0.next(Ok(Row::Order(order)));
    let r2 = r1.0.next(Ok(Row::Dish(dish)));
    let c1 = apply_credit(credits, r2.1);
    let r3 = r2.0.next(Ok(Row::User(user_row(row, requester_id, c1[requester_id]))));
    let r4 = r3.0.next(Ok(Row::User(user_row(row, dish.user_id, c1[dish.user_id]))));
    let c2 = apply_credit(c1, r4.1);
    let r5 = r4.0.next(Ok(Row::User(user_row(row, dish.user_id, c2[dish.user_id]))));
    let ids = apply_orders(order_ids, r5.1, order);
    let r6 = r5.0.next(Ok(Row::Order(order)));
    (c2, ids, r6.1)
}

/// Whether every result along `order_run` is one the order flow takes at
/// the point where it arrives.
pub open spec fn order_run_admitted(
    credits: Map<i32, i32>,
    buyer_id: i32,
    dish: Dishes,
    order: Orders,
    row: Users,
) -> bool {
    let f0 = AddOrder { buyer_id, buyer_credit: credits[buyer_id], stage: AddOrderStage::AwaitDish };
    let r1 = f0.next(Ok(Row::Dish(dish)));
    let r2 = r1.0.next(Ok(Row::Order(order)));
    let c1 = apply_credit(credits, r2.1);
    let u1 = Ok(Row::User(user_row(row, buyer_id, c1[buyer_id])));
    let r3 = r2.0.next(u1);
    let u2 = Ok(Row::User(user_row(row, dish.user_id, c1[dish.user_id])));
    let r4 = r3.0.next(u2);
    let c2 = apply_credit(c1, r4.1);
    let u3 = Ok(Row::User(user_row(row, dish.user_id, c2[dish.user_id])));
    &&& f0.admits(Ok(Row::Dish(dish)))
    &&& r1.0.admits(Ok(Row::Order(order)))
    &&& r2.0.admits(u1)
    &&& r3.0.admits(u2)
    &&& r4.0.admits(u3)
}

/// Whether every result along `cancel_run` is one the cancellation flow
/// takes at the point where it arrives.
pub open spec fn cancel_run_admitted(
    credits: Map<i32, i32>,
    requester_id: i32,
    dish: Dishes,
    order: Orders,
    row: Users,
) -> bool {
    let g0 = DeleteOrder {
        requester_id,
        requester_credit: credits[requester_id],
        stage: DeleteOrderStage::AwaitOrder,
    };
    let r1 = g0.next(Ok(Row::Order(order)));
    let r2 = r1.0.next(Ok(Row::Dish(dish)));
    let c1 = apply_credit(credits, r2.1);
    let u1 = Ok(Row::User(user_row(row, requester_id, c1[requester_id])));
    let r3 = r2.0.next(u1);
    let u2 = Ok(Row::User(user_row(row, dish.user_id, c1[dish.user_id])));
    let r4 = r3.0.next(u2);
    let c2 = apply_credit(c1, r4.1);
    let u3 = Ok(Row::User(user_row(row, dish.user_id, c2[dish.user_id])));
    let r5 = r4.0.next(u3);
    &&& g0.admits(Ok(Row::Order(order)))
    &&& r1.0.admits(Ok(Row::Dish(dish)))
    &&& r2.0.admits(u1)
    &&& r3.0.admits(u2)
    &&& r4.0.admits(u3)
    &&& r5.0.admits(Ok(Row::Order(order)))
}

/// Ordering a dish moves its cost from the buyer to the dish owner: the
/// buyer's credit falls by the cost, the owner's rises by it, and no other
/// credit changes; a user who orders their own dish keeps their credit. The
/// answer is the order written. No balance is checked: a buyer whose credit
/// is below the cost still gets the order, and their credit goes below zero;
/// every result along the way is taken, whatever the dish costs.
pub proof fn law_order_moves_dish_cost(
    credits: Map<i32, i32>,
    order_ids: Set<i32>,
    buyer_id: i32,
    dish: Dishes,
    order: Orders,
    row: Users,
)
    requires
        credits.contains_key(buyer_id),
        credits.contains_key(dish.user_id),
        fits_i32(charged(credits[buyer_id] as int, dish.dish_cost as int)),
        buyer_id != dish.user_id ==> fits_i32(credited(credits[dish.user_id] as int, dish.dish_cost as int)),
    ensures
        order_run_admitted(credits, buyer_id, dish, order, row),
        order_run(credits, order_ids, buyer_id, dish, order, row).2 == Step::<Orders>::Finish(Ok(order)),
        buyer_id == dish.user_id ==> order_run(credits, order_ids, buyer_id, dish, order, row).0 =~= credits,
        buyer_id != dish.user_id ==> order_run(credits, order_ids, buyer_id, dish, order, row).0 =~= credits.insert(
            buyer_id,
            (credits[buyer_id] - dish.dish_cost) as i32,
        ).insert(dish.user_id, (credits[dish.user_id] + dish.dish_cost) as i32),
{
}

/// Ordering keeps the sum of all credits and the set of users, and adds one
/// row to the orders: the order written.
pub proof fn law_order_keeps_credit_total(
    credits: Map<i32, i32>,
    order_ids: Set<i32>,
    buyer_id: i32,
    dish: Dishes,
    order: Orders,
    row: Users,
)
    requires
        credits.dom().finite(),
        order_ids.finite(),
        !order_ids.contains(order.id),
        credits.contains_key(buyer_id),
        credits.contains_key(dish.user_id),
        fits_i32(charged(credits[buyer_id] as int, dish.dish_cost as int)),
        buyer_id != dish.user_id ==> fits_i32(credited(credits[dish.user_id] as int, dish.dish_cost as int)),
    ensures
        credit_total(order_run(credits, order_ids, buyer_id, dish, order, row).0) == credit_total(credits),
        order_run(credits, order_ids, buyer_id, dish, order, row).0.dom() =~= credits.dom(),
        order_run(credits, order_ids, buyer_id, dish, order, row).1 =~= order_ids.insert(order.id),
        order_run(credits, order_ids, buyer_id, dish, order, row).1.len() == order_ids.len() + 1,
{
    let cost: i32 = dish.dish_cost;
    let owner: i32 = dish.user_id;
    let c1 = credits.insert(buyer_id, (credits[buyer_id] - cost) as i32);
    lemma_credit_total_insert(credits, buyer_id, (credits[buyer_id] - cost) as i32);
    lemma_credit_total_insert(c1, owner, (c1[owner] + cost) as i32);
}

/// Cancelling an order moves the dish cost back from the dish owner to the
/// user who ordered: that user's credit rises by the cost, the owner's falls
/// by it, and no other credit changes; for one's own dish the credit stays.
/// The answer is the order removed. This holds whether or not the order was
/// delivered: every result along the way is taken.
pub proof fn law_cancel_moves_dish_cost(
    credits: Map<i32, i32>,
    order_ids: Set<i32>,
    requester_id: i32,
    dish: Dishes,
    order: Orders,
    row: Users,
)
    requires
        credits.contains_key(requester_id),
        credits.contains_key(dish.user_id),
        order.user_id == requester_id,
        fits_i32(credited(credits[requester_id] as int, dish.dish_cost as int)),
        requester_id != dish.user_id ==> fits_i32(charged(credits[dish.user_id] as int, dish.dish_cost as int)),
    ensures
        cancel_run_admitted(credits, requester_id, dish, order, row),
        cancel_run(credits, order_ids, requester_id, dish, order, row).2 == Step::<Orders>::Finish(Ok(order)),
        requester_id == dish.user_id ==> cancel_run(credits, order_ids, requester_id, dish, order, row).0 =~= credits,
        requester_id != dish.user_id ==> cancel_run(credits, order_ids, requester_id, dish, order, row).0 =~= credits.insert(
            requester_id,
            (credits[requester_id] + dish.dish_cost) as i32,
        ).insert(dish.user_id, (credits[dish.user_id] - dish.dish_cost) as i32),
{
}

/// Cancelling keeps the sum of all credits and the set of users, and takes
/// one row from the orders: the order cancelled.
pub proof fn law_cancel_keeps_credit_total(
    credits: Map<i32, i32>,
    order_ids: Set<i32>,
    requester_id: i32,
    dish: Dishes,
    order: Orders,
    row: Users,
)
    requires
        credits.dom().finite(),
        order_ids.finite(),
        order_ids.contains(order.id),
        credits.contains_key(requester_id),
        credits.contains_key(dish.user_id),
        order.user_id == requester_id,
        fits_i32(credited(credits[requester_id] as int, dish.dish_cost as int)),
        requester_id != dish.user_id ==> fits_i32(charged(credits[dish.user_id] as int, dish.dish_cost as int)),
    ensures
        credit_total(cancel_run(credits, order_ids, requester_id, dish, order, row).0) == credit_total(credits),
        cancel_run(credits, order_ids, requester_id, dish, order, row).0.dom() =~= credits.dom(),
        cancel_run(credits, order_ids, requester_id, dish, order, row).1 =~= order_ids.remove(order.id),
        cancel_run(credits, order_ids, requester_id, dish, order, row).1.len() == order_ids.len() - 1,
{
    let cost: i32 = dish.dish_cost;
    let owner: i32 = dish.user_id;
    let c1 = credits.insert(requester_id, (credits[requester_id] + cost) as i32);
    lemma_credit_total_insert(credits, requester_id, (credits[requester_id] + cost) as i32);
    lemma_credit_total_insert(c1, owner, (c1[owner] - cost) as i32);
}

/// Cancelling an order gives every credit and the orders back what they were
/// before the order: when the buyer cancels an order right after placing it,
/// the credits and the order rows end where they began, and the answer is the
/// order removed.
pub proof fn law_cancel_restores_credits(
    credits: Map<i32, i32>,
    order_ids: Set<i32>,
    buyer_id: i32,
    dish: Dishes,
    order: Orders,
    row: Users,
)
    requires
        credits.contains_key(buyer_id),
        credits.contains_key(dish.user_id),
        !order_ids.contains(order.id),
        order.user_id == buyer_id,
        order.d_id == dish.dish_id,
        fits_i32(charged(credits[buyer_id] as int, dish.dish_cost as int)),
        buyer_id != dish.user_id ==> fits_i32(credited(credits[dish.user_id] as int, dish.dish_cost as int)),
        buyer_id == dish.user_id ==> fits_i32(credited(credits[buyer_id] as int, dish.dish_cost as int)),
    ensures
        ({
            let placed = order_run(credits, order_ids, buyer_id, dish, order, row);
            let cancelled = cancel_run(placed.0, placed.1, buyer_id, dish, order, row);
            &&& cancelled.0 =~= credits
            &&& cancelled.1 =~= order_ids
            &&& cancelled.2 == Step::<Orders>::Finish(Ok(order))
        }),
{
    law_order_moves_dish_cost(credits, order_ids, buyer_id, dish, order, row);
    let placed = order_run(credits, order_ids, buyer_id, dish, order, row);
    let after = placed.0;
    let owner: i32 = dish.user_id;
    let cost: i32 = dish.dish_cost;
    let refunded = after.insert(buyer_id, (after[buyer_id] + cost) as i32);
    assert(refunded.insert(owner, (refunded[owner] - cost) as i32) =~= credits);
    assert(order_ids.insert(order.id).remove(order.id) =~= order_ids);
}

/// Only the user who ordered may cancel an order: anyone else is refused
/// with `UnAuthorized` once the order and its dish are known, and no credit
/// is written.
pub proof fn law_only_buyer_cancels(requester_id: i32, requester_credit: i32, order: Orders, dish: Dishes)
    requires
        order.user_id != requester_id,
    ensures
        ({
            let g0 = DeleteOrder { requester_id, requester_credit, stage: DeleteOrderStage::AwaitOrder };
            let r1 = g0.next(Ok(Row::Order(order)));
            let r2 = r1.0.next(Ok(Row::Dish(dish)));
            &&& r1.1 == Step::<Orders>::Run(Query::DishById { dish_id: order.d_id })
            &&& r2.1 == Step::<Orders>::Finish(Err(MyError::UnAuthorized))
            &&& r2.0.stage is Finished
        }),
{
}

/// Only the user who ordered may confirm a delivery: anyone else is refused
/// with `UnAuthorized` and the order is not marked.
pub proof fn law_only_buyer_confirms(requester_id: i32, order: Orders)
    requires
        order.user_id != requester_id,
    ensures
        (OkOrder { requester_id, stage: OkOrderStage::AwaitOrder }).next(Ok(Row::Order(order))).1
            == Step::<Orders>::Finish(Err(MyError::UnAuthorized)),
{
}

/// A confirmation of order `order_id` by `requester_id` against an orders
/// table `orders` (a map from order id to row): the order is looked up; if
/// it is marked as delivered, the row written is the looked-up row with
/// `is_delivered` set. Gives the orders at the end and the answer.
pub open spec fn confirm_run(orders: Map<i32, Orders>, requester_id: i32, order_id: i32) -> (
    Map<i32, Orders>,
    Step<Orders>,
) {
    let f0 = OkOrder { requester_id, stage: OkOrderStage::AwaitOrder };
    if !orders.contains_key(order_id) {
        (orders, f0.next(Err(DbError::RowNotFound)).1)
    } else {
        let r1 = f0.next(Ok(Row::Order(orders[order_id])));
        match r1.1 {
            Step::Run(Query::MarkDelivered { order_id: id }) => {
                let marked = orders.insert(id, Orders { is_delivered: true, ..orders[id] });
                (marked, r1.0.next(Ok(Row::Order(marked[id]))).1)
            },
            _ => (orders, r1.1),
        }
    }
}

/// Confirming a delivery twice gives the same answer as confirming it once,
/// and the second confirmation leaves the orders as the first left them.
pub proof fn law_confirm_twice_is_confirm_once(orders: Map<i32, Orders>, requester_id: i32, order_id: i32)
    requires
        orders.contains_key(order_id) ==> orders[order_id].id == order_id,
    ensures
        ({
            let first = confirm_run(orders, requester_id, order_id);
            let second = confirm_run(first.0, requester_id, order_id);
            &&& second.1 == first.1
            &&& second.0 =~= first.0
        }),
{
    if orders.contains_key(order_id) && orders[order_id].user_id == requester_id {
        let marked = orders.insert(order_id, Orders { is_delivered: true, ..orders[order_id] });
        assert(marked.insert(order_id, Orders { is_delivered: true, ..marked[order_id] }) =~= marked);
    }
}

/// What a confirmation does to the orders table: an order that is not there
/// is answered `NoContent` and nothing is written; an order of another user
/// is answered `UnAuthorized` and nothing is written; the buyer's order is
/// marked as delivered, with nothing else of it or of other orders changed,
/// and the marked row is the answer. Every result along the way is taken.
pub proof fn law_confirm_effect(orders: Map<i32, Orders>, requester_id: i32, order_id: i32)
    requires
        orders.contains_key(order_id) ==> orders[order_id].id == order_id,
    ensures
        ({
            let f0 = OkOrder { requester_id, stage: OkOrderStage::AwaitOrder };
            let run = confirm_run(orders, requester_id, order_id);
            &&& !orders.contains_key(order_id) ==> {
                &&& f0.admits(Err(DbError::RowNotFound))
                &&& run.0 =~= orders
                &&& run.1 == Step::<Orders>::Finish(Err(MyError::NoContent))
            }
            &&& orders.contains_key(order_id) && orders[order_id].user_id != requester_id ==> {
                &&& f0.admits(Ok(Row::Order(orders[order_id])))
                &&& run.0 =~= orders
                &&& run.1 == Step::<Orders>::Finish(Err(MyError::UnAuthorized))
            }
            &&& orders.contains_key(order_id) && orders[order_id].user_id == requester_id ==> {
                let marked = Orders { is_delivered: true, ..orders[order_id] };
                &&& f0.admits(Ok(Row::Order(orders[order_id])))
                &&& f0.next(Ok(Row::Order(orders[order_id]))).0.admits(Ok(Row::Order(marked)))
                &&& run.0 =~= orders.insert(order_id, marked)
                &&& run.1 == Step::<Orders>::Finish(Ok(marked))
            }
        }),
{
}

/// A failed lookup of the order ends a confirmation or a cancellation at
/// once: a missing order is answered `NoContent`, any other failure
/// `InternalError`, and no statement follows.
pub proof fn law_order_lookup_failure(requester_id: i32, requester_credit: i32, e: DbError)
    ensures
        ({
            let f = OkOrder { requester_id, stage: OkOrderStage::AwaitOrder };
            let g = DeleteOrder { requester_id, requester_credit, stage: DeleteOrderStage::AwaitOrder };
            let answer = if e == DbError::RowNotFound {
                MyError::NoContent
            } else {
                MyError::InternalError
            };
            &&& f.admits(Err(e))
            &&& f.next(Err(e)).1 == Step::<Orders>::Finish(Err(answer))
            &&& g.admits(Err(e))
            &&& g.next(Err(e)).1 == Step::<Orders>::Finish(Err(answer))
        }),
{
}

/// The order flow takes every dish row, whatever the dish costs and whatever
/// the buyer's credit.
pub proof fn law_order_takes_every_dish(buyer_id: i32, buyer_credit: i32, dish: Dishes)
    ensures
        (AddOrder { buyer_id, buyer_credit, stage: AddOrderStage::AwaitDish }).admits(Ok(Row::Dish(dish))),
        (AddOrder { buyer_id, buyer_credit, stage: AddOrderStage::AwaitDish }).next(Ok(Row::Dish(dish))).1
            is Run,
{
}

/// The cancellation flow takes the dish row of the buyer's own order, delivered
/// or not, whenever the refunded credit fits in an `i32`.
pub proof fn law_cancel_takes_delivered_orders(requester_credit: i32, order: Orders, dish: Dishes)
    requires
        fits_i32(credited(requester_credit as int, dish.dish_cost as int)),
    ensures
        (DeleteOrder {
            requester_id: order.user_id,
            requester_credit,
            stage: DeleteOrderStage::AwaitDish { order },
        }).admits(Ok(Row::Dish(dish))),
{
}

/// An order, a cancellation or a confirmation whose statement fails at any
/// stage ends at once: a missing row is answered `NoContent`, any other
/// failure `InternalError`.
pub proof fn law_order_failures(add: AddOrder, del: DeleteOrder, ok: OkOrder, e: DbError)
    ensures
        ({
            let answer = if e == DbError::RowNotFound {
                MyError::NoContent
            } else {
                MyError::InternalError
            };
            &&& !(add.stage is Finished) ==> add.admits(Err(e)) && add.next(Err(e)).1
                == Step::<Orders>::Finish(Err(answer))
            &&& !(del.stage is Finished) ==> del.admits(Err(e)) && del.next(Err(e)).1
                == Step::<Orders>::Finish(Err(answer))
            &&& !(ok.stage is Finished) ==> ok.admits(Err(e)) && ok.next(Err(e)).1
                == Step::<Orders>::Finish(Err(answer))
        }),
{
}

/// Every order answers after at most five statements: each result it
/// takes brings it closer to its answer, and it answers exactly when it is
/// finished.
pub proof fn law_add_order_progresses(flow: AddOrder, reply: Result<Row, DbError>)
    requires
        flow.admits(reply),
    ensures
        flow.next(reply).0.steps_left() < flow.steps_left(),
        flow.next(reply).1 is Finish <==> flow.next(reply).0.stage is Finished,
{
}

/// Every cancellation answers after at most six statements, in the same way.
pub proof fn law_delete_order_progresses(flow: DeleteOrder, reply: Result<Row, DbError>)
    requires
        flow.admits(reply),
    ensures
        flow.next(reply).0.steps_left() < flow.steps_left(),
        flow.next(reply).1 is Finish <==> flow.next(reply).0.stage is Finished,
{
}

/// Every confirmation answers after at most two statements, in the same way.
pub proof fn law_ok_order_progresses(flow: OkOrder, reply: Result<Row, DbError>)
    requires
        flow.admits(reply),
    ensures
        flow.next(reply).0.steps_left() < flow.steps_left(),
        flow.next(reply).1 is Finish <==> flow.next(reply).0.stage is Finished,
{
}

/// Every logout answers after at most two statements, in the same way.
pub proof fn law_logout_progresses(flow: Logout, reply: Result<Row, DbError>)
    requires
        flow.admits(reply),
    ensures
        flow.next(reply).0.steps_left() < flow.steps_left(),
        flow.next(reply).1 is Finish <==> flow.next(reply).0.stage is Finished,
{
}

/// Every authentication answers after at most three statements, in the same
/// way.
pub proof fn law_authentication_progresses(flow: Authenticate, reply: Result<Row, DbError>)
    requires
        flow.admits(reply),
    ensures
        flow.next(reply).0.steps_left() < flow.steps_left(),
        flow.next(reply).1 is Finish <==> flow.next(reply).0.stage is Finished,
{
}

} // verus!
