use food_order::db::Query;
use food_order::error::MyError;
use food_order::model::{Dishes, Restaurants, Roles, UserAuth};
use food_order::services_subadmin::{
    can_manage, create_dish, create_restaurant, get_dish_by_user_id, get_restaurant_by_user_id, get_users_list,
    has_role,
};

fn role(t: &str) -> Roles {
    Roles { role_id: 1, role_type: t.to_string(), user_id: 7 }
}

fn user_with(roles: &[&str]) -> UserAuth {
    UserAuth {
        user_id: 7,
        user_name: "ann".to_string(),
        user_email: "ann@example.com".to_string(),
        roles: roles.iter().map(|r| role(r)).collect(),
        credit: 1000,
    }
}

fn restaurant() -> Restaurants {
    Restaurants { restaurant_id: 99, restaurant_name: "Pho".to_string(), restaurant_address: 3, user_id: 55 }
}

fn dish() -> Dishes {
    Dishes { dish_id: 99, dish_name: "Soup".to_string(), dish_cost: 12, restaurant_id: 4, user_id: 55, time: 20 }
}

#[test]
fn role_lookup() {
    let roles = vec![role("User"), role("SubAdmin")];
    assert!(has_role(&roles, "SubAdmin"));
    assert!(!has_role(&roles, "Admin"));
    assert!(!has_role(&roles, "subadmin"));
    assert!(!has_role(&vec![], "User"));
}

#[test]
fn managers_are_admins_and_subadmins() {
    assert!(can_manage(&vec![role("Admin")]));
    assert!(can_manage(&vec![role("User"), role("SubAdmin")]));
    assert!(!can_manage(&vec![role("User")]));
    assert!(!can_manage(&vec![]));
}

#[test]
fn subadmin_creates_restaurant_owned_by_self() {
    let q = create_restaurant(&user_with(&["SubAdmin"]), restaurant());
    assert_eq!(
        q,
        Ok(Query::InsertRestaurant { restaurant_name: "Pho".to_string(), restaurant_address: 3, user_id: 7 })
    );
}

#[test]
fn plain_user_cannot_create_restaurant() {
    assert_eq!(create_restaurant(&user_with(&["User"]), restaurant()), Err(MyError::UnAuthorized));
}

#[test]
fn admin_creates_dish_owned_by_self() {
    let q = create_dish(&user_with(&["Admin"]), dish());
    assert_eq!(
        q,
        Ok(Query::InsertDish { dish_name: "Soup".to_string(), dish_cost: 12, restaurant_id: 4, user_id: 7, time: 20 })
    );
}

#[test]
fn plain_user_cannot_create_dish() {
    assert_eq!(create_dish(&user_with(&[]), dish()), Err(MyError::UnAuthorized));
}

#[test]
fn restaurant_listing_by_role() {
    assert_eq!(get_restaurant_by_user_id(&user_with(&["Admin"])), Ok(Query::AllRestaurants));
    assert_eq!(get_restaurant_by_user_id(&user_with(&["SubAdmin", "Admin"])), Ok(Query::AllRestaurants));
    assert_eq!(get_restaurant_by_user_id(&user_with(&["SubAdmin"])), Ok(Query::RestaurantsOfOwner { user_id: 7 }));
    assert_eq!(get_restaurant_by_user_id(&user_with(&["User"])), Err(MyError::UnAuthorized));
}

#[test]
fn dish_listing_by_role() {
    assert_eq!(get_dish_by_user_id(&user_with(&["Admin", "User"])), Ok(Query::AllDishes));
    assert_eq!(get_dish_by_user_id(&user_with(&["SubAdmin"])), Ok(Query::DishesOfOwner { user_id: 7 }));
    assert_eq!(get_dish_by_user_id(&user_with(&["User"])), Err(MyError::UnAuthorized));
}

#[test]
fn user_listing_by_role() {
    assert_eq!(get_users_list(&user_with(&["SubAdmin"])), Ok(Query::AllUsers));
    assert_eq!(get_users_list(&user_with(&["Admin"])), Ok(Query::AllUsers));
    assert_eq!(get_users_list(&user_with(&["User"])), Err(MyError::UnAuthorized));
}
