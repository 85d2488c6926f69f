//! Ordering a dish, cancelling an order, and confirming its delivery.
//!
//! Ordering charges the buyer the cost of the dish and pays it to the owner
//! of the dish; cancelling pays it back. Only the user who ordered may cancel
//! or confirm an order.
use vstd::prelude::*;

use crate::db::{Query, Row, Step};
use crate::error::{spec_from_db, DbError, MyError};
use crate::model::{Dishes, Orders, UserAuth};

verus! {

/// A credit after paying `cost`.
pub open spec fn charged(credit: int, cost: int) -> int {
    credit - cost
}

/// A credit after receiving `cost`.
pub open spec fn credited(credit: int, cost: int) -> int {
    credit + cost
}

/// Whether a value fits in an `i32`.
pub open spec fn fits_i32(v: int) -> bool {
    i32::MIN <= v <= i32::MAX
}

// ---------------------------------------------------------------------------
// Ordering a dish
// ---------------------------------------------------------------------------

/// Where an order of a dish stands.
#[derive(Debug, PartialEq, Eq)]
pub enum AddOrderStage {
    /// The dish was asked for.
    AwaitDish,
    /// The order was written.
    AwaitOrder { dish: Dishes },
    /// The buyer's new credit was written.
    AwaitBuyerCredit { dish: Dishes, order: Orders },
    /// The dish owner was asked for.
    AwaitOwner { dish: Dishes, order: Orders },
    /// The owner's new credit was written.
    AwaitOwnerCredit { order: Orders },
    /// The answer is given.
    Finished,
}

/// An order of a dish in progress, on behalf of the buyer `buyer_id`, whose
/// credit was `buyer_credit` when the request was authenticated.
#[derive(Debug, PartialEq, Eq)]
pub struct AddOrder {
    pub buyer_id: i32,
    pub buyer_credit: i32,
    pub stage: AddOrderStage,
}

/// Starts an order of dish `dish_id` by the user `usr`: the dish is asked for.
pub fn add_order(usr: &UserAuth, dish_id: i32) -> (out: (AddOrder, Step<Orders>))
    ensures
        out.0 == (AddOrder { buyer_id: usr.user_id, buyer_credit: usr.credit, stage: AddOrderStage::AwaitDish }),
        out.1 == Step::<Orders>::Run(Query::DishById { dish_id }),
{
    (
        AddOrder { buyer_id: usr.user_id, buyer_credit: usr.credit, stage: AddOrderStage::AwaitDish },
        Step::Run(Query::DishById { dish_id }),
    )
}

impl AddOrder {
    /// How many more statements the order runs at most before it answers.
    pub open spec fn steps_left(self) -> nat {
        match self.stage {
            AddOrderStage::AwaitDish => 5,
            AddOrderStage::AwaitOrder { .. } => 4,
            AddOrderStage::AwaitBuyerCredit { .. } => 3,
            AddOrderStage::AwaitOwner { .. } => 2,
            AddOrderStage::AwaitOwnerCredit { .. } => 1,
            AddOrderStage::Finished => 0,
        }
    }

    /// Whether `reply` can come back at this stage and be handled: it is a
    /// failure or a row of the kind asked for, and the credit that it leads to
    /// fits in an `i32`.
    pub open spec fn admits(self, reply: Result<Row, DbError>) -> bool {
        match reply {
            Err(_) => !(self.stage is Finished),
            Ok(row) => match (self.stage, row) {
                (AddOrderStage::AwaitDish, Row::Dish(_)) => true,
                (AddOrderStage::AwaitOrder { dish }, Row::Order(_)) =>
                    fits_i32(charged(self.buyer_credit as int, dish.dish_cost as int)),
                (AddOrderStage::AwaitBuyerCredit { .. }, Row::User(_)) => true,
                (AddOrderStage::AwaitOwner { dish, .. }, Row::User(owner)) =>
                    fits_i32(credited(owner.credit as int, dish.dish_cost as int)),
                (AddOrderStage::AwaitOwnerCredit { .. }, Row::User(_)) => true,
                _ => false,
            },
        }
    }

    /// The next state of the order and what it does next, once `reply` came
    /// back.
    ///
    /// A failed statement ends the order with the error that answers it. Once
    /// the dish is known, the order is written with the dish's id and time,
    /// the buyer and "not delivered"; then the buyer's credit is set to the
    /// credit it had less the dish cost; then the dish owner is asked for and
    /// its credit set to what it holds plus the dish cost; then the order
    /// written is the answer.
    pub open spec fn next(self, reply: Result<Row, DbError>) -> (AddOrder, Step<Orders>) {
        let done = AddOrder { stage: AddOrderStage::Finished, ..self };
        match reply {
            Err(e) => (done, Step::Finish(Err(spec_from_db(e)))),
            Ok(row) => match (self.stage, row) {
                (AddOrderStage::AwaitDish, Row::Dish(dish)) => (
                    AddOrder { stage: AddOrderStage::AwaitOrder { dish }, ..self },
                    Step::Run(Query::InsertOrder {
                        d_id: dish.dish_id,
                        time: dish.time,
                        user_id: self.buyer_id,
                        is_delivered: false,
                    }),
                ),
                (AddOrderStage::AwaitOrder { dish }, Row::Order(order)) => (
                    AddOrder { stage: AddOrderStage::AwaitBuyerCredit { dish, order }, ..self },
                    Step::Run(Query::SetCredit {
                        user_id: self.buyer_id,
                        credit: charged(self.buyer_credit as int, dish.dish_cost as int) as i32,
                    }),
                ),
                (AddOrderStage::AwaitBuyerCredit { dish, order }, Row::User(_)) => (
                    AddOrder { stage: AddOrderStage::AwaitOwner { dish, order }, ..self },
                    Step::Run(Query::UserById { user_id: dish.user_id }),
                ),
                (AddOrderStage::AwaitOwner { dish, order }, Row::User(owner)) => (
                    AddOrder { stage: AddOrderStage::AwaitOwnerCredit { order }, ..self },
                    Step::Run(Query::SetCredit {
                        user_id: dish.user_id,
                        credit: credited(owner.credit as int, dish.dish_cost as int) as i32,
                    }),
                ),
                (AddOrderStage::AwaitOwnerCredit { order }, Row::User(_)) => (done, Step::Finish(Ok(order))),
                _ => (done, Step::Finish(Err(MyError::InternalError))),
            },
        }
    }

    /// Tells whether `reply` can come back at this stage and be handled.
    pub fn accepts(&self, reply: &Result<Row, DbError>) -> (b: bool)
        ensures
            b == self.admits(*reply),
    {
        match reply {
            Err(_) => !matches!(self.stage, AddOrderStage::Finished),
            Ok(row) => match (&self.stage, row) {
                (AddOrderStage::AwaitDish, Row::Dish(_)) => true,
                (AddOrderStage::AwaitOrder { dish }, Row::Order(_)) =>
                    self.buyer_credit.checked_sub(dish.dish_cost).is_some(),
                (AddOrderStage::AwaitBuyerCredit { .. }, Row::User(_)) => true,
                (AddOrderStage::AwaitOwner { dish, .. }, Row::User(owner)) =>
                    owner.credit.checked_add(dish.dish_cost).is_some(),
                (AddOrderStage::AwaitOwnerCredit { .. }, Row::User(_)) => true,
                _ => false,
            },
        }
    }

    /// Handles what the last statement gave back (see `next`).
    pub fn resume(self, reply: Result<Row, DbError>) -> (out: (AddOrder, Step<Orders>))
        requires
            self.admits(reply),
        ensures
            out == self.next(reply),
    {
        let AddOrder { buyer_id, buyer_credit, stage } = self;
        let row = match reply {
            Err(e) => {
                return (
                    AddOrder { buyer_id, buyer_credit, stage: AddOrderStage::Finished },
                    Step::Finish(Err(MyError::from_db(e))),
                );
            },
            Ok(row) => row,
        };
        match (stage, row) {
            (AddOrderStage::AwaitDish, Row::Dish(dish)) => {
                let q = Query::InsertOrder {
                    d_id: dish.dish_id,
                    time: dish.time,
                    user_id: buyer_id,
                    is_delivered: false,
                };
                (AddOrder { buyer_id, buyer_credit, stage: AddOrderStage::AwaitOrder { dish } }, Step::Run(q))
            },
            (AddOrderStage::AwaitOrder { dish }, Row::Order(order)) => {
                let q = Query::SetCredit { user_id: buyer_id, credit: buyer_credit - dish.dish_cost };
                (
                    AddOrder { buyer_id, buyer_credit, stage: AddOrderStage::AwaitBuyerCredit { dish, order } },
                    Step::Run(q),
                )
            },
            (AddOrderStage::AwaitBuyerCredit { dish, order }, Row::User(_)) => {
                let q = Query::UserById { user_id: dish.user_id };
                (AddOrder { buyer_id, buyer_credit, stage: AddOrderStage::AwaitOwner { dish, order } }, Step::Run(q))
            },
            (AddOrderStage::AwaitOwner { dish, order }, Row::User(owner)) => {
                let q = Query::SetCredit { user_id: dish.user_id, credit: owner.credit + dish.dish_cost };
                (AddOrder { buyer_id, buyer_credit, stage: AddOrderStage::AwaitOwnerCredit { order } }, Step::Run(q))
            },
            (AddOrderStage::AwaitOwnerCredit { order }, Row::User(_)) => {
                (AddOrder { buyer_id, buyer_credit, stage: AddOrderStage::Finished }, Step::Finish(Ok(order)))
            },
            (_, _) => {
                proof {
                    assert(false);
                }
                (AddOrder { buyer_id, buyer_credit, stage: AddOrderStage::Finished }, Step::Finish(Err(MyError::InternalError)))
            },
        }
    }
}

// ---------------------------------------------------------------------------
// Cancelling an order
// ---------------------------------------------------------------------------

/// Where the cancellation of an order stands.
#[derive(Debug, PartialEq, Eq)]
pub enum DeleteOrderStage {
    /// The order was asked for.
    AwaitOrder,
    /// The ordered dish was asked for.
    AwaitDish { order: Orders },
    /// The requester's refunded credit was written.
    AwaitBuyerCredit { dish: Dishes, order: Orders },
    /// The dish owner was asked for.
    AwaitOwner { dish: Dishes, order: Orders },
    /// The owner's reduced credit was written.
    AwaitOwnerCredit { order: Orders },
    /// The order was removed.
    AwaitDelete,
    /// The answer is given.
    Finished,
}

/// The cancellation of an order in progress, requested by user `requester_id`,
/// whose credit was `requester_credit` when the request was authenticated.
#[derive(Debug, PartialEq, Eq)]
pub struct DeleteOrder {
    pub requester_id: i32,
    pub requester_credit: i32,
    pub stage: DeleteOrderStage,
}

/// Starts the cancellation of order `order_id` by the user `usr`: the order
/// is asked for.
pub fn delete_order(usr: &UserAuth, order_id: i32) -> (out: (DeleteOrder, Step<Orders>))
    ensures
        out.0 == (DeleteOrder {
            requester_id: usr.user_id,
            requester_credit: usr.credit,
            stage: DeleteOrderStage::AwaitOrder,
        }),
        out.1 == Step::<Orders>::Run(Query::OrderById { order_id }),
{
    (
        DeleteOrder { requester_id: usr.user_id, requester_credit: usr.credit, stage: DeleteOrderStage::AwaitOrder },
        Step::Run(Query::OrderById { order_id }),
    )
}

impl DeleteOrder {
    /// How many more statements the cancellation runs at most before it answers.
    pub open spec fn steps_left(self) -> nat {
        match self.stage {
            DeleteOrderStage::AwaitOrder => 6,
            DeleteOrderStage::AwaitDish { .. } => 5,
            DeleteOrderStage::AwaitBuyerCredit { .. } => 4,
            DeleteOrderStage::AwaitOwner { .. } => 3,
            DeleteOrderStage::AwaitOwnerCredit { .. } => 2,
            DeleteOrderStage::AwaitDelete => 1,
            DeleteOrderStage::Finished => 0,
        }
    }

    /// Whether `reply` can come back at this stage and be handled: it is a
    /// failure or a row of the kind asked for, and the credit that it leads to
    /// fits in an `i32`.
    pub open spec fn admits(self, reply: Result<Row, DbError>) -> bool {
        match reply {
            Err(_) => !(self.stage is Finished),
            Ok(row) => match (self.stage, row) {
                (DeleteOrderStage::AwaitOrder, Row::Order(_)) => true,
                (DeleteOrderStage::AwaitDish { order }, Row::Dish(dish)) =>
                    order.user_id == self.requester_id ==> fits_i32(
                        credited(self.requester_credit as int, dish.dish_cost as int),
                    ),
                (DeleteOrderStage::AwaitBuyerCredit { .. }, Row::User(_)) => true,
                (DeleteOrderStage::AwaitOwner { dish, .. }, Row::User(owner)) =>
                    fits_i32(charged(owner.credit as int, dish.dish_cost as int)),
                (DeleteOrderStage::AwaitOwnerCredit { .. }, Row::User(_)) => true,
                (DeleteOrderStage::AwaitDelete, Row::Order(_)) => true,
                _ => false,
            },
        }
    }

    /// The next state of the cancellation and what it does next, once `reply`
    /// came back.
    ///
    /// A failed statement ends the cancellation with the error that answers
    /// it. Once the order and its dish are known, a requester who is not the
    /// user who ordered is refused with `UnAuthorized`, and nothing is written.
    /// Otherwise the requester's credit is set to the credit it had plus the
    /// dish cost; then the dish owner is asked for and its credit set to what
    /// it holds less the dish cost; then the order is removed, and the row
    /// removed is the answer.
    pub open spec fn next(self, reply: Result<Row, DbError>) -> (DeleteOrder, Step<Orders>) {
        let done = DeleteOrder { stage: DeleteOrderStage::Finished, ..self };
        match reply {
            Err(e) => (done, Step::Finish(Err(spec_from_db(e)))),
            Ok(row) => match (self.stage, row) {
                (DeleteOrderStage::AwaitOrder, Row::Order(order)) => (
                    DeleteOrder { stage: DeleteOrderStage::AwaitDish { order }, ..self },
                    Step::Run(Query::DishById { dish_id: order.d_id }),
                ),
                (DeleteOrderStage::AwaitDish { order }, Row::Dish(dish)) =>
                    if order.user_id == self.requester_id {
                        (
                            DeleteOrder { stage: DeleteOrderStage::AwaitBuyerCredit { dish, order }, ..self },
                            Step::Run(Query::SetCredit {
                                user_id: self.requester_id,
                                credit: credited(self.requester_credit as int, dish.dish_cost as int) as i32,
                            }),
                        )
                    } else {
                        (done, Step::Finish(Err(MyError::UnAuthorized)))
                    },
                (DeleteOrderStage::AwaitBuyerCredit { dish, order }, Row::User(_)) => (
                    DeleteOrder { stage: DeleteOrderStage::AwaitOwner { dish, order }, ..self },
                    Step::Run(Query::UserById { user_id: dish.user_id }),
                ),
                (DeleteOrderStage::AwaitOwner { dish, order }, Row::User(owner)) => (
                    DeleteOrder { stage: DeleteOrderStage::AwaitOwnerCredit { order }, ..self },
                    Step::Run(Query::SetCredit {
                        user_id: dish.user_id,
                        credit: charged(owner.credit as int, dish.dish_cost as int) as i32,
                    }),
                ),
                (DeleteOrderStage::AwaitOwnerCredit { order }, Row::User(_)) => (
                    DeleteOrder { stage: DeleteOrderStage::AwaitDelete, ..self },
                    Step::Run(Query::DeleteOrder { order_id: order.id }),
                ),
                (DeleteOrderStage::AwaitDelete, Row::Order(removed)) => (done, Step::Finish(Ok(removed))),
                _ => (done, Step::Finish(Err(MyError::InternalError))),
            },
        }
    }

    /// Tells whether `reply` can come back at this stage and be handled.
    pub fn accepts(&self, reply: &Result<Row, DbError>) -> (b: bool)
        ensures
            b == self.admits(*reply),
    {
        match reply {
            Err(_) => !matches!(self.stage, DeleteOrderStage::Finished),
            Ok(row) => match (&self.stage, row) {
                (DeleteOrderStage::AwaitOrder, Row::Order(_)) => true,
                (DeleteOrderStage::AwaitDish { order }, Row::Dish(dish)) =>
                    order.user_id != self.requester_id
                        || self.requester_credit.checked_add(dish.dish_cost).is_some(),
                (DeleteOrderStage::AwaitBuyerCredit { .. }, Row::User(_)) => true,
                (DeleteOrderStage::AwaitOwner { dish, .. }, Row::User(owner)) =>
                    owner.credit.checked_sub(dish.dish_cost).is_some(),
                (DeleteOrderStage::AwaitOwnerCredit { .. }, Row::User(_)) => true,
                (DeleteOrderStage::AwaitDelete, Row::Order(_)) => true,
                _ => false,
            },
        }
    }

    /// Handles what the last statement gave back (see `next`).
    pub fn resume(self, reply: Result<Row, DbError>) -> (out: (DeleteOrder, Step<Orders>))
        requires
            self.admits(reply),
        ensures
            out == self.next(reply),
    {
        let DeleteOrder { requester_id, requester_credit, stage } = self;
        let row = match reply {
            Err(e) => {
                return (
                    DeleteOrder { requester_id, requester_credit, stage: DeleteOrderStage::Finished },
                    Step::Finish(Err(MyError::from_db(e))),
                );
            },
            Ok(row) => row,
        };
        match (stage, row) {
            (DeleteOrderStage::AwaitOrder, Row::Order(order)) => {
                let q = Query::DishById { dish_id: order.d_id };
                (DeleteOrder { requester_id, requester_credit, stage: DeleteOrderStage::AwaitDish { order } }, Step::Run(q))
            },
            (DeleteOrderStage::AwaitDish { order }, Row::Dish(dish)) => {
                if order.user_id == requester_id {
                    let q = Query::SetCredit { user_id: requester_id, credit: requester_credit + dish.dish_cost };
                    (
                        DeleteOrder {
                            requester_id,
                            requester_credit,
                            stage: DeleteOrderStage::AwaitBuyerCredit { dish, order },
                        },
                        Step::Run(q),
                    )
                } else {
                    (
                        DeleteOrder { requester_id, requester_credit, stage: DeleteOrderStage::Finished },
                        Step::Finish(Err(MyError::UnAuthorized)),
                    )
                }
            },
            (DeleteOrderStage::AwaitBuyerCredit { dish, order }, Row::User(_)) => {
                let q = Query::UserById { user_id: dish.user_id };
                (
                    DeleteOrder { requester_id, requester_credit, stage: DeleteOrderStage::AwaitOwner { dish, order } },
                    Step::Run(q),
                )
            },
            (DeleteOrderStage::AwaitOwner { dish, order }, Row::User(owner)) => {
                let q = Query::SetCredit { user_id: dish.user_id, credit: owner.credit - dish.dish_cost };
                (
                    DeleteOrder { requester_id, requester_credit, stage: DeleteOrderStage::AwaitOwnerCredit { order } },
                    Step::Run(q),
                )
            },
            (DeleteOrderStage::AwaitOwnerCredit { order }, Row::User(_)) => {
                let q = Query::DeleteOrder { order_id: order.id };
                (DeleteOrder { requester_id, requester_credit, stage: DeleteOrderStage::AwaitDelete }, Step::Run(q))
            },
            (DeleteOrderStage::AwaitDelete, Row::Order(removed)) => {
                (
                    DeleteOrder { requester_id, requester_credit, stage: DeleteOrderStage::Finished },
                    Step::Finish(Ok(removed)),
                )
            },
            (_, _) => {
                proof {
                    assert(false);
                }
                (
                    DeleteOrder { requester_id, requester_credit, stage: DeleteOrderStage::Finished },
                    Step::Finish(Err(MyError::InternalError)),
                )
            },
        }
    }
}

// ---------------------------------------------------------------------------
// Confirming a delivery
// ---------------------------------------------------------------------------

/// Where the confirmation of a delivery stands.
#[derive(Debug, PartialEq, Eq)]
pub enum OkOrderStage {
    /// The order was asked for.
    AwaitOrder,
    /// The order was marked as delivered.
    AwaitMark,
    /// The answer is given.
    Finished,
}

/// The confirmation that an order was delivered, requested by `requester_id`.
#[derive(Debug, PartialEq, Eq)]
pub struct OkOrder {
    pub requester_id: i32,
    pub stage: OkOrderStage,
}

/// Starts the confirmation that order `order_id` was delivered, by the user
/// `usr`: the order is asked for.
pub fn ok_order(usr: &UserAuth, order_id: i32) -> (out: (OkOrder, Step<Orders>))
    ensures
        out.0 == (OkOrder { requester_id: usr.user_id, stage: OkOrderStage::AwaitOrder }),
        out.1 == Step::<Orders>::Run(Query::OrderById { order_id }),
{
    (OkOrder { requester_id: usr.user_id, stage: OkOrderStage::AwaitOrder }, Step::Run(Query::OrderById { order_id }))
}

impl OkOrder {
    /// How many more statements the confirmation runs at most before it answers.
    pub open spec fn steps_left(self) -> nat {
        match self.stage {
            OkOrderStage::AwaitOrder => 2,
            OkOrderStage::AwaitMark => 1,
            OkOrderStage::Finished => 0,
        }
    }

    /// Whether `reply` can come back at this stage: a failure or a row of the
    /// kind asked for.
    pub open spec fn admits(self, reply: Result<Row, DbError>) -> bool {
        match reply {
            Err(_) => !(self.stage is Finished),
            Ok(row) => match (self.stage, row) {
                (OkOrderStage::AwaitOrder, Row::Order(_)) => true,
                (OkOrderStage::AwaitMark, Row::Order(_)) => true,
                _ => false,
            },
        }
    }

    /// The next state of the confirmation and what it does next, once
    /// `reply` came back.
    ///
    /// A failed statement ends the confirmation with the error that answers
    /// it. A requester who is not the user who ordered is refused with
    /// `UnAuthorized`, and nothing is written; otherwise the order is marked as
    /// delivered, and the row written is the answer.
    pub open spec fn next(self, reply: Result<Row, DbError>) -> (OkOrder, Step<Orders>) {
        let done = OkOrder { stage: OkOrderStage::Finished, ..self };
        match reply {
            Err(e) => (done, Step::Finish(Err(spec_from_db(e)))),
            Ok(row) => match (self.stage, row) {
                (OkOrderStage::AwaitOrder, Row::Order(order)) =>
                    if order.user_id == self.requester_id {
                        (
                            OkOrder { stage: OkOrderStage::AwaitMark, ..self },
                            Step::Run(Query::MarkDelivered { order_id: order.id }),
                        )
                    } else {
                        (done, Step::Finish(Err(MyError::UnAuthorized)))
                    },
                (OkOrderStage::AwaitMark, Row::Order(marked)) => (done, Step::Finish(Ok(marked))),
                _ => (done, Step::Finish(Err(MyError::InternalError))),
            },
        }
    }

    /// Tells whether `reply` can come back at this stage.
    pub fn accepts(&self, reply: &Result<Row, DbError>) -> (b: bool)
        ensures
            b == self.admits(*reply),
    {
        match reply {
            Err(_) => !matches!(self.stage, OkOrderStage::Finished),
            Ok(row) => match (&self.stage, row) {
                (OkOrderStage::AwaitOrder, Row::Order(_)) => true,
                (OkOrderStage::AwaitMark, Row::Order(_)) => true,
                _ => false,
            },
        }
    }

    /// Handles what the last statement gave back (see `next`).
    pub fn resume(self, reply: Result<Row, DbError>) -> (out: (OkOrder, Step<Orders>))
        requires
            self.admits(reply),
        ensures
            out == self.next(reply),
    {
        let OkOrder { requester_id, stage } = self;
        let row = match reply {
            Err(e) => {
                return (OkOrder { requester_id, stage: OkOrderStage::Finished }, Step::Finish(Err(MyError::from_db(e))));
            },
            Ok(row) => row,
        };
        match (stage, row) {
            (OkOrderStage::AwaitOrder, Row::Order(order)) => {
                if order.user_id == requester_id {
                    (
                        OkOrder { requester_id, stage: OkOrderStage::AwaitMark },
                        Step::Run(Query::MarkDelivered { order_id: order.id }),
                    )
                } else {
                    (OkOrder { requester_id, stage: OkOrderStage::Finished }, Step::Finish(Err(MyError::UnAuthorized)))
                }
            },
            (OkOrderStage::AwaitMark, Row::Order(marked)) => {
                (OkOrder { requester_id, stage: OkOrderStage::Finished }, Step::Finish(Ok(marked)))
            },
            (_, _) => {
                proof {
                    assert(false);
                }
                (OkOrder { requester_id, stage: OkOrderStage::Finished }, Step::Finish(Err(MyError::InternalError)))
            },
        }
    }
}

} // verus!
