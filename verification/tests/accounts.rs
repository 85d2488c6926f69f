use std::collections::HashMap;

use food_order::db::{Query, Row, Step};
use food_order::error::{DbError, MyError};
use food_order::model::{Auths, Roles, UserAuth, Users};
use food_order::services_user::{login, logout, register};

/// A small in-memory stand-in for the users, roles and auths tables.
struct Accounts {
    users: Vec<Users>,
    roles: Vec<Roles>,
    auths: HashMap<String, i32>,
    next_id: i32,
}

fn copy_user(u: &Users) -> Users {
    Users {
        user_id: u.user_id,
        user_name: u.user_name.clone(),
        user_password: u.user_password.clone(),
        user_email: u.user_email.clone(),
        credit: u.credit,
    }
}

impl Accounts {
    fn new() -> Accounts {
        Accounts { users: vec![], roles: vec![], auths: HashMap::new(), next_id: 1 }
    }

    fn answer(&mut self, q: Query) -> Result<Row, DbError> {
        match q {
            Query::InsertUser { user_name, user_password, user_email, credit } => {
                let u = Users { user_id: self.next_id, user_name, user_password, user_email, credit };
                self.next_id += 1;
                self.users.push(copy_user(&u));
                Ok(Row::User(u))
            },
            Query::InsertRole { role_type, user_id } => {
                let r = Roles { role_id: self.roles.len() as i32 + 1, role_type: role_type.clone(), user_id };
                self.roles.push(Roles { role_id: r.role_id, role_type, user_id });
                Ok(Row::Role(r))
            },
            Query::UserByName { user_name } => match self.users.iter().find(|u| u.user_name == user_name) {
                Some(u) => Ok(Row::User(copy_user(u))),
                None => Err(DbError::RowNotFound),
            },
            Query::UserOfAuth { user_id } => match self.users.iter().find(|u| u.user_id == user_id) {
                Some(u) => Ok(Row::User(copy_user(u))),
                None => Err(DbError::RowNotFound),
            },
            Query::InsertAuth { user_id, user_token } => {
                self.auths.insert(user_token.clone(), user_id);
                Ok(Row::Auth(Auths { user_id, user_token }))
            },
            Query::AuthByToken { user_token } => match self.auths.get(&user_token) {
                Some(id) => Ok(Row::Auth(Auths { user_id: *id, user_token })),
                None => Err(DbError::RowNotFound),
            },
            Query::DeleteAuthOfUser { user_id } => {
                let token = self.auths.iter().find(|(_, id)| **id == user_id).map(|(t, _)| t.clone());
                match token {
                    Some(t) => {
                        self.auths.retain(|_, id| *id != user_id);
                        Ok(Row::Auth(Auths { user_id, user_token: t }))
                    },
                    None => Err(DbError::RowNotFound),
                }
            },
            Query::RolesOfUser { user_id } => Ok(Row::Roles(
                self.roles
                    .iter()
                    .filter(|r| r.user_id == user_id)
                    .map(|r| Roles { role_id: r.role_id, role_type: r.role_type.clone(), user_id: r.user_id })
                    .collect(),
            )),
            _ => Err(DbError::Other),
        }
    }

    fn register(&mut self, name: &str, password: &str) -> Result<Users, MyError> {
        let (mut flow, mut step) = register(body(name, password));
        loop {
            match step {
                Step::Run(q) => {
                    let r = self.answer(q);
                    assert!(flow.accepts(&r));
                    let (f, s) = flow.resume(r);
                    flow = f;
                    step = s;
                },
                Step::Finish(res) => return res,
            }
        }
    }

    fn login(&mut self, name: &str, password: &str) -> Result<Auths, MyError> {
        let (mut flow, mut step) = login(body(name, password));
        loop {
            match step {
                Step::Run(q) => {
                    let r = self.answer(q);
                    assert!(flow.accepts(&r));
                    let (f, s) = flow.resume(r);
                    flow = f;
                    step = s;
                },
                Step::Finish(res) => return res,
            }
        }
    }

    fn logout(&mut self, name: &str, usr: &UserAuth) -> Result<Auths, MyError> {
        let (mut flow, mut step) = logout(body(name, ""), usr);
        loop {
            match step {
                Step::Run(q) => {
                    let r = self.answer(q);
                    assert!(flow.accepts(&r));
                    let (f, s) = flow.resume(r);
                    flow = f;
                    step = s;
                },
                Step::Finish(res) => return res,
            }
        }
    }

    fn authenticate(&mut self, header: &str) -> Result<UserAuth, MyError> {
        let (mut flow, mut step) = UserAuth::from_request(true, Some(header));
        loop {
            match step {
                Step::Run(q) => {
                    let r = self.answer(q);
                    assert!(flow.accepts(&r));
                    let (f, s) = flow.resume(r);
                    flow = f;
                    step = s;
                },
                Step::Finish(res) => return res,
            }
        }
    }
}

fn body(name: &str, password: &str) -> Users {
    Users {
        user_id: 0,
        user_name: name.to_string(),
        user_password: password.to_string(),
        user_email: format!("{}@example.com", name),
        credit: 0,
    }
}

#[test]
fn registered_user_can_log_in() {
    let mut db = Accounts::new();
    db.register("ann", "a-pw").unwrap();
    let bob = db.register("bob", "b-pw").unwrap();
    assert_eq!(bob.credit, 1000);
    assert_eq!(db.roles.last().unwrap().role_type, "User");
    assert_eq!(db.roles.last().unwrap().user_id, bob.user_id);
    let token = db.login("bob", "b-pw").unwrap();
    assert_eq!(token.user_id, bob.user_id);
}

#[test]
fn login_token_authenticates_its_user() {
    let mut db = Accounts::new();
    let bob = db.register("bob", "b-pw").unwrap();
    let token = db.login("bob", "b-pw").unwrap();
    let usr = db.authenticate(&format!("Bearer {}", token.user_token)).unwrap();
    assert_eq!(usr.user_id, bob.user_id);
    assert_eq!(usr.user_name, "bob");
    assert_eq!(usr.roles.len(), 1);
    assert_eq!(usr.roles[0].role_type, "User");
}

#[test]
fn logout_revokes_every_token_of_the_user() {
    let mut db = Accounts::new();
    db.register("bob", "b-pw").unwrap();
    db.register("ann", "a-pw").unwrap();
    let first = db.login("bob", "b-pw").unwrap();
    let second = db.login("bob", "b-pw").unwrap();
    let ann = db.login("ann", "a-pw").unwrap();
    let usr = db.authenticate(&format!("Bearer {}", first.user_token)).unwrap();
    db.logout("bob", &usr).unwrap();
    assert_eq!(db.authenticate(&format!("Bearer {}", first.user_token)), Err(MyError::UnAuthorized));
    assert_eq!(db.authenticate(&format!("Bearer {}", second.user_token)), Err(MyError::UnAuthorized));
    assert!(db.authenticate(&format!("Bearer {}", ann.user_token)).is_ok());
}
