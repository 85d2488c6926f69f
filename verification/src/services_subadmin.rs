//! Restaurant and dish management, and listings restricted by role.
//!
//! Users holding the `Admin` or `SubAdmin` role may create restaurants and
//! dishes, which they then own, and list the users. Listing restaurants or
//! dishes shows an `Admin` everything and a `SubAdmin` what they own.
use vstd::prelude::*;

use crate::db::Query;
use crate::error::MyError;
use crate::model::{Dishes, Restaurants, Roles, UserAuth};

verus! {

/// Whether one of `roles` is of type `role`.
pub open spec fn holds_role(roles: Seq<Roles>, role: Seq<char>) -> bool {
    exists|i: int| 0 <= i < roles.len() && (#[trigger] roles[i]).role_type@ == role
}

/// Whether `roles` allow managing restaurants, dishes and users: one of them
/// is `Admin` or `SubAdmin`.
pub open spec fn may_manage(roles: Seq<Roles>) -> bool {
    holds_role(roles, "Admin"@) || holds_role(roles, "SubAdmin"@)
}

/// Tells whether one of `roles` is of type `role`.
pub fn has_role(roles: &Vec<Roles>, role: &str) -> (b: bool)
    ensures
        b == holds_role(roles@, role@),
{
    let wanted = role.to_owned();
    let mut i: usize = 0;
    while i < roles.len()
        invariant
            i <= roles@.len(),
            wanted@ == role@,
            forall|j: int| 0 <= j < i ==> (#[trigger] roles@[j]).role_type@ != role@,
        decreases roles@.len() - i,
    {
        if roles[i].role_type == wanted {
            return true;
        }
        i = i + 1;
    }
    false
}

/// Tells whether `roles` allow managing restaurants, dishes and users.
pub fn can_manage(roles: &Vec<Roles>) -> (b: bool)
    ensures
        b == may_manage(roles@),
{
    has_role(roles, "Admin") || has_role(roles, "SubAdmin")
}

/// Creates a restaurant for `usr`: allowed to a manager, and then the
/// restaurant written has the given name and address and `usr` as its owner;
/// anyone else is refused with `UnAuthorized`.
pub fn create_restaurant(usr: &UserAuth, restaurant: Restaurants) -> (res: Result<Query, MyError>)
    ensures
        may_manage(usr.roles@) ==> res == Ok::<Query, MyError>(Query::InsertRestaurant {
            restaurant_name: restaurant.restaurant_name,
            restaurant_address: restaurant.restaurant_address,
            user_id: usr.user_id,
        }),
        !may_manage(usr.roles@) ==> res == Err::<Query, MyError>(MyError::UnAuthorized),
{
    if can_manage(&usr.roles) {
        Ok(Query::InsertRestaurant {
            restaurant_name: restaurant.restaurant_name,
            restaurant_address: restaurant.restaurant_address,
            user_id: usr.user_id,
        })
    } else {
        Err(MyError::UnAuthorized)
    }
}

/// Creates a dish for `usr`: allowed to a manager, and then the dish written
/// has the given name, cost, restaurant and time and `usr` as its owner;
/// anyone else is refused with `UnAuthorized`.
pub fn create_dish(usr: &UserAuth, dish: Dishes) -> (res: Result<Query, MyError>)
    ensures
        may_manage(usr.roles@) ==> res == Ok::<Query, MyError>(Query::InsertDish {
            dish_name: dish.dish_name,
            dish_cost: dish.dish_cost,
            restaurant_id: dish.restaurant_id,
            user_id: usr.user_id,
            time: dish.time,
        }),
        !may_manage(usr.roles@) ==> res == Err::<Query, MyError>(MyError::UnAuthorized),
{
    if can_manage(&usr.roles) {
        Ok(Query::InsertDish {
            dish_name: dish.dish_name,
            dish_cost: dish.dish_cost,
            restaurant_id: dish.restaurant_id,
            user_id: usr.user_id,
            time: dish.time,
        })
    } else {
        Err(MyError::UnAuthorized)
    }
}

/// The restaurants `usr` may list: all of them for an `Admin`; otherwise
/// those `usr` owns for a `SubAdmin`; anyone else is refused with
/// `UnAuthorized`.
pub fn get_restaurant_by_user_id(usr: &UserAuth) -> (res: Result<Query, MyError>)
    ensures
        holds_role(usr.roles@, "Admin"@) ==> res == Ok::<Query, MyError>(Query::AllRestaurants),
        !holds_role(usr.roles@, "Admin"@) && holds_role(usr.roles@, "SubAdmin"@) ==> res == Ok::<
            Query,
            MyError,
        >(Query::RestaurantsOfOwner { user_id: usr.user_id }),
        !may_manage(usr.roles@) ==> res == Err::<Query, MyError>(MyError::UnAuthorized),
{
    if has_role(&usr.roles, "Admin") {
        Ok(Query::AllRestaurants)
    } else if has_role(&usr.roles, "SubAdmin") {
        Ok(Query::RestaurantsOfOwner { user_id: usr.user_id })
    } else {
        Err(MyError::UnAuthorized)
    }
}

/// The dishes `usr` may list: all of them for an `Admin`; otherwise those
/// `usr` owns for a `SubAdmin`; anyone else is refused with `UnAuthorized`.
pub fn get_dish_by_user_id(usr: &UserAuth) -> (res: Result<Query, MyError>)
    ensures
        holds_role(usr.roles@, "Admin"@) ==> res == Ok::<Query, MyError>(Query::AllDishes),
        !holds_role(usr.roles@, "Admin"@) && holds_role(usr.roles@, "SubAdmin"@) ==> res == Ok::<
            Query,
            MyError,
        >(Query::DishesOfOwner { user_id: usr.user_id }),
        !may_manage(usr.roles@) ==> res == Err::<Query, MyError>(MyError::UnAuthorized),
{
    if has_role(&usr.roles, "Admin") {
        Ok(Query::AllDishes)
    } else if has_role(&usr.roles, "SubAdmin") {
        Ok(Query::DishesOfOwner { user_id: usr.user_id })
    } else {
        Err(MyError::UnAuthorized)
    }
}

/// The users `usr` may list: all of them for a manager; anyone else is
/// refused with `UnAuthorized`.
pub fn get_users_list(usr: &UserAuth) -> (res: Result<Query, MyError>)
    ensures
        may_manage(usr.roles@) ==> res == Ok::<Query, MyError>(Query::AllUsers),
        !may_manage(usr.roles@) ==> res == Err::<Query, MyError>(MyError::UnAuthorized),
{
    if can_manage(&usr.roles) {
        Ok(Query::AllUsers)
    } else {
        Err(MyError::UnAuthorized)
    }
}

} // verus!
