use std::collections::HashMap;

use food_order::db::{Query, Row, Step};
use food_order::error::{DbError, MyError};
use food_order::model::{Dishes, Orders, UserAuth, Users};
use food_order::service_orders::{
    add_order, delete_order, ok_order, AddOrder, AddOrderStage, DeleteOrder, OkOrder,
};

/// A small in-memory stand-in for the database tables that orders touch.
struct Tables {
    credits: HashMap<i32, i32>,
    dishes: Vec<Dishes>,
    orders: Vec<Orders>,
    next_order_id: i32,
    log: Vec<Query>,
}

fn user_row(id: i32, credit: i32) -> Users {
    Users {
        user_id: id,
        user_name: format!("user{}", id),
        user_password: "pw".to_string(),
        user_email: format!("user{}@example.com", id),
        credit,
    }
}

fn copy_dish(d: &Dishes) -> Dishes {
    Dishes {
        dish_id: d.dish_id,
        dish_name: d.dish_name.clone(),
        dish_cost: d.dish_cost,
        restaurant_id: d.restaurant_id,
        user_id: d.user_id,
        time: d.time,
    }
}

fn copy_order(o: &Orders) -> Orders {
    Orders { id: o.id, d_id: o.d_id, time: o.time, user_id: o.user_id, is_delivered: o.is_delivered }
}

impl Tables {
    fn new() -> Tables {
        let mut credits = HashMap::new();
        credits.insert(1, 100); // buyer
        credits.insert(2, 50); // dish owner
        credits.insert(3, 70); // someone else
        Tables {
            credits,
            dishes: vec![
                Dishes { dish_id: 10, dish_name: "Soup".to_string(), dish_cost: 30, restaurant_id: 5, user_id: 2, time: 15 },
                Dishes { dish_id: 11, dish_name: "Tea".to_string(), dish_cost: 4, restaurant_id: 5, user_id: 1, time: 3 },
            ],
            orders: vec![],
            next_order_id: 500,
            log: vec![],
        }
    }

    fn user(&self, id: i32) -> Result<Row, DbError> {
        match self.credits.get(&id) {
            Some(c) => Ok(Row::User(user_row(id, *c))),
            None => Err(DbError::RowNotFound),
        }
    }

    fn answer(&mut self, q: &Query) -> Result<Row, DbError> {
        self.log.push(clone_query(q));
        match q {
            Query::DishById { dish_id } => match self.dishes.iter().find(|d| d.dish_id == *dish_id) {
                Some(d) => Ok(Row::Dish(copy_dish(d))),
                None => Err(DbError::RowNotFound),
            },
            Query::OrderById { order_id } => match self.orders.iter().find(|o| o.id == *order_id) {
                Some(o) => Ok(Row::Order(copy_order(o))),
                None => Err(DbError::RowNotFound),
            },
            Query::UserById { user_id } => self.user(*user_id),
            Query::InsertOrder { d_id, time, user_id, is_delivered } => {
                let o = Orders { id: self.next_order_id, d_id: *d_id, time: *time, user_id: *user_id, is_delivered: *is_delivered };
                self.next_order_id += 1;
                self.orders.push(copy_order(&o));
                Ok(Row::Order(o))
            },
            Query::SetCredit { user_id, credit } => {
                if !self.credits.contains_key(user_id) {
                    return Err(DbError::RowNotFound);
                }
                self.credits.insert(*user_id, *credit);
                self.user(*user_id)
            },
            Query::MarkDelivered { order_id } => match self.orders.iter_mut().find(|o| o.id == *order_id) {
                Some(o) => {
                    o.is_delivered = true;
                    Ok(Row::Order(copy_order(o)))
                },
                None => Err(DbError::RowNotFound),
            },
            Query::DeleteOrder { order_id } => match self.orders.iter().position(|o| o.id == *order_id) {
                Some(i) => Ok(Row::Order(self.orders.remove(i))),
                None => Err(DbError::RowNotFound),
            },
            _ => Err(DbError::Other),
        }
    }
}

fn clone_query(q: &Query) -> Query {
    match q {
        Query::DishById { dish_id } => Query::DishById { dish_id: *dish_id },
        Query::OrderById { order_id } => Query::OrderById { order_id: *order_id },
        Query::UserById { user_id } => Query::UserById { user_id: *user_id },
        Query::InsertOrder { d_id, time, user_id, is_delivered } => {
            Query::InsertOrder { d_id: *d_id, time: *time, user_id: *user_id, is_delivered: *is_delivered }
        },
        Query::SetCredit { user_id, credit } => Query::SetCredit { user_id: *user_id, credit: *credit },
        Query::MarkDelivered { order_id } => Query::MarkDelivered { order_id: *order_id },
        Query::DeleteOrder { order_id } => Query::DeleteOrder { order_id: *order_id },
        _ => Query::AllUsers,
    }
}

fn usr(id: i32, credit: i32) -> UserAuth {
    UserAuth { user_id: id, user_name: format!("user{}", id), user_email: String::new(), roles: vec![], credit }
}

fn place(t: &mut Tables, buyer: i32, dish_id: i32) -> Result<Orders, MyError> {
    let credit = t.credits[&buyer];
    let (mut flow, mut step) = add_order(&usr(buyer, credit), dish_id);
    loop {
        match step {
            Step::Run(q) => {
                let r = t.answer(&q);
                assert!(flow.accepts(&r));
                let (f, s) = flow.resume(r);
                flow = f;
                step = s;
            },
            Step::Finish(res) => return res,
        }
    }
}

fn cancel(t: &mut Tables, requester: i32, order_id: i32) -> Result<Orders, MyError> {
    let credit = t.credits[&requester];
    let (mut flow, mut step) = delete_order(&usr(requester, credit), order_id);
    loop {
        match step {
            Step::Run(q) => {
                let r = t.answer(&q);
                assert!(flow.accepts(&r));
                let (f, s) = flow.resume(r);
                flow = f;
                step = s;
            },
            Step::Finish(res) => return res,
        }
    }
}

fn confirm(t: &mut Tables, requester: i32, order_id: i32) -> Result<Orders, MyError> {
    let (mut flow, mut step) = ok_order(&usr(requester, 0), order_id);
    loop {
        match step {
            Step::Run(q) => {
                let r = t.answer(&q);
                assert!(flow.accepts(&r));
                let (f, s) = flow.resume(r);
                flow = f;
                step = s;
            },
            Step::Finish(res) => return res,
        }
    }
}

#[test]
fn order_moves_dish_cost_to_owner() {
    let mut t = Tables::new();
    let order = place(&mut t, 1, 10).unwrap();
    assert_eq!(order, Orders { id: 500, d_id: 10, time: 15, user_id: 1, is_delivered: false });
    assert_eq!(t.credits[&1], 70);
    assert_eq!(t.credits[&2], 80);
    assert_eq!(t.credits[&3], 70);
    assert_eq!(
        t.log,
        vec![
            Query::DishById { dish_id: 10 },
            Query::InsertOrder { d_id: 10, time: 15, user_id: 1, is_delivered: false },
            Query::SetCredit { user_id: 1, credit: 70 },
            Query::UserById { user_id: 2 },
            Query::SetCredit { user_id: 2, credit: 80 },
        ]
    );
}

#[test]
fn ordering_own_dish_keeps_credit() {
    let mut t = Tables::new();
    place(&mut t, 1, 11).unwrap();
    assert_eq!(t.credits[&1], 100);
}

#[test]
fn ordering_unknown_dish_answers_no_content() {
    let mut t = Tables::new();
    assert_eq!(place(&mut t, 1, 999), Err(MyError::NoContent));
    assert_eq!(t.credits[&1], 100);
    assert!(t.orders.is_empty());
}

#[test]
fn cancel_restores_credits() {
    let mut t = Tables::new();
    let order = place(&mut t, 1, 10).unwrap();
    let removed = cancel(&mut t, 1, order.id).unwrap();
    assert_eq!(removed, order);
    assert_eq!(t.log.len(), 5 + 6);
    assert_eq!(t.credits[&1], 100);
    assert_eq!(t.credits[&2], 50);
    assert!(t.orders.is_empty());
}

#[test]
fn only_buyer_cancels() {
    let mut t = Tables::new();
    let order = place(&mut t, 1, 10).unwrap();
    assert_eq!(cancel(&mut t, 3, order.id), Err(MyError::UnAuthorized));
    assert_eq!(t.credits[&1], 70);
    assert_eq!(t.credits[&2], 80);
    assert_eq!(t.credits[&3], 70);
    assert_eq!(t.orders.len(), 1);
}

#[test]
fn cancelling_unknown_order_answers_no_content() {
    let mut t = Tables::new();
    assert_eq!(cancel(&mut t, 1, 12345), Err(MyError::NoContent));
}

#[test]
fn buyer_confirms_delivery() {
    let mut t = Tables::new();
    let order = place(&mut t, 1, 10).unwrap();
    let marked = confirm(&mut t, 1, order.id).unwrap();
    assert!(marked.is_delivered);
    assert_eq!(marked.id, order.id);
}

#[test]
fn only_buyer_confirms() {
    let mut t = Tables::new();
    let order = place(&mut t, 1, 10).unwrap();
    assert_eq!(confirm(&mut t, 2, order.id), Err(MyError::UnAuthorized));
    assert!(!t.orders[0].is_delivered);
}

#[test]
fn confirm_failing_read_answers_internal_error() {
    let (flow, _) = ok_order(&usr(1, 0), 5);
    let (_, step) = flow.resume(Err(DbError::Other));
    assert_eq!(step, Step::Finish(Err(MyError::InternalError)));
}

#[test]
fn charge_that_overflows_is_not_accepted() {
    let flow = AddOrder {
        buyer_id: 1,
        buyer_credit: i32::MIN + 1,
        stage: AddOrderStage::AwaitOrder {
            dish: Dishes { dish_id: 1, dish_name: String::new(), dish_cost: 2, restaurant_id: 1, user_id: 2, time: 0 },
        },
    };
    let reply = Ok(Row::Order(Orders { id: 1, d_id: 1, time: 0, user_id: 1, is_delivered: false }));
    assert!(!flow.accepts(&reply));
}

#[test]
fn reply_of_wrong_kind_is_not_accepted() {
    let (flow, _) = add_order(&usr(1, 10), 5);
    assert!(!flow.accepts(&Ok(Row::User(user_row(1, 10)))));
    let (flow, _) = delete_order(&usr(1, 10), 5);
    assert!(!flow.accepts(&Ok(Row::Dish(copy_dish(&Tables::new().dishes[0])))));
    assert!(flow.accepts(&Err(DbError::RowNotFound)));
}

#[test]
fn finished_flow_accepts_nothing() {
    let flow = DeleteOrder { requester_id: 1, requester_credit: 0, stage: food_order::service_orders::DeleteOrderStage::Finished };
    assert!(!flow.accepts(&Err(DbError::Other)));
    let flow = OkOrder { requester_id: 1, stage: food_order::service_orders::OkOrderStage::Finished };
    assert!(!flow.accepts(&Err(DbError::Other)));
}

#[test]
fn order_and_cancel_keep_credit_total() {
    let mut t = Tables::new();
    let total = |t: &Tables| t.credits.values().sum::<i32>();
    assert_eq!(total(&t), 220);
    let order = place(&mut t, 1, 10).unwrap();
    assert_eq!(total(&t), 220);
    assert_eq!(t.orders.len(), 1);
    let second = place(&mut t, 3, 10).unwrap();
    assert_eq!(total(&t), 220);
    assert_eq!(t.orders.len(), 2);
    cancel(&mut t, 3, second.id).unwrap();
    assert_eq!(total(&t), 220);
    assert_eq!(t.credits[&3], 70);
    assert_eq!(t.credits[&2], 80);
    assert_eq!(t.orders.len(), 1);
    assert_eq!(t.orders[0], order);
}

#[test]
fn confirming_twice_answers_the_same() {
    let mut t = Tables::new();
    let order = place(&mut t, 1, 10).unwrap();
    let first = confirm(&mut t, 1, order.id).unwrap();
    let after_first = t.orders.iter().map(copy_order).collect::<Vec<_>>();
    let second = confirm(&mut t, 1, order.id).unwrap();
    assert_eq!(first, second);
    assert_eq!(t.orders, after_first);
}
