use vstd::prelude::*;

use crate::error::MyError;
use crate::model::{Users, Auths, Roles, Restaurants, Dishes, Orders};

verus! {

/// A statement for the database, with its parameters. Each names what it
/// reads or writes; the caller runs it and hands back what it returned.
#[derive(Debug, PartialEq, Eq)]
pub enum Query {
    /// The dish with this id.
    DishById { dish_id: i32 },
    /// The order with this id.
    OrderById { order_id: i32 },
    /// The user with this id.
    UserById { user_id: i32 },
    /// The user with this id, found through the login tokens that name it.
    UserOfAuth { user_id: i32 },
    /// The user with this name.
    UserByName { user_name: String },
    /// The login token row with this token.
    AuthByToken { user_token: String },
    /// All roles of a user.
    RolesOfUser { user_id: i32 },
    /// A new user; returns the row written.
    InsertUser { user_name: String, user_password: String, user_email: String, credit: i32 },
    /// A new role of a user; returns the row written.
    InsertRole { role_type: String, user_id: i32 },
    /// A new login token of a user; returns the row written.
    InsertAuth { user_id: i32, user_token: String },
    /// Removes every login token of a user; returns one of the rows removed.
    DeleteAuthOfUser { user_id: i32 },
    /// A new order; returns the row written.
    InsertOrder { d_id: i32, time: i32, user_id: i32, is_delivered: bool },
    /// Sets the credit of a user; returns the row written.
    SetCredit { user_id: i32, credit: i32 },
    /// Marks an order as delivered; returns the row written.
    MarkDelivered { order_id: i32 },
    /// Removes an order; returns the row removed.
    DeleteOrder { order_id: i32 },
    /// A new restaurant; returns the row written.
    InsertRestaurant { restaurant_name: String, restaurant_address: i32, user_id: i32 },
    /// A new dish; returns the row written.
    InsertDish { dish_name: String, dish_cost: i32, restaurant_id: i32, user_id: i32, time: i32 },
    /// Every restaurant.
    AllRestaurants,
    /// The restaurants owned by a user.
    RestaurantsOfOwner { user_id: i32 },
    /// The dishes of a restaurant.
    DishesOfRestaurant { restaurant_id: i32 },
    /// Every dish.
    AllDishes,
    /// The dishes owned by a user.
    DishesOfOwner { user_id: i32 },
    /// Every user.
    AllUsers,
}

/// What a statement returned.
#[derive(Debug, PartialEq, Eq)]
pub enum Row {
    User(Users),
    Auth(Auths),
    Role(Roles),
    Roles(Vec<Roles>),
    Restaurant(Restaurants),
    Restaurants(Vec<Restaurants>),
    Dish(Dishes),
    Dishes(Vec<Dishes>),
    Order(Orders),
    Users(Vec<Users>),
}

/// What a request does next: run a statement and come back with its result,
/// or answer the client.
#[derive(Debug, PartialEq, Eq)]
pub enum Step<T> {
    Run(Query),
    Finish(Result<T, MyError>),
}

} // verus!
