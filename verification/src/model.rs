use vstd::prelude::*;
use vstd::string::*;

use crate::db::{Query, Row, Step};
use crate::error::{DbError, MyError};

verus! {

/// A row of the `users` table.
#[derive(Debug, PartialEq, Eq)]
pub struct Users {
    pub user_id: i32,
    pub user_name: String,
    pub user_password: String,
    pub user_email: String,
    pub credit: i32,
}

/// The user that an authenticated request speaks for, with its roles.
#[derive(Debug, PartialEq, Eq)]
pub struct UserAuth {
    pub user_id: i32,
    pub user_name: String,
    pub user_email: String,
    pub roles: Vec<Roles>,
    pub credit: i32,
}

/// A row of the `auths` table: a login token of a user.
#[derive(Debug, PartialEq, Eq)]
pub struct Auths {
    pub user_id: i32,
    pub user_token: String,
}

/// A row of the `roles` table: a role (`User`, `SubAdmin`, `Admin`) held by a user.
#[derive(Debug, PartialEq, Eq)]
pub struct Roles {
    pub role_id: i32,
    pub role_type: String,
    pub user_id: i32,
}

/// A row of the `restaurants` table; `user_id` is the owner.
#[derive(Debug, PartialEq, Eq)]
pub struct Restaurants {
    pub restaurant_id: i32,
    pub restaurant_name: String,
    pub restaurant_address: i32,
    pub user_id: i32,
}

/// A row of the `dishes` table; `user_id` is the owner, who is paid for it.
#[derive(Debug, PartialEq, Eq)]
pub struct Dishes {
    pub dish_id: i32,
    pub dish_name: String,
    pub dish_cost: i32,
    pub restaurant_id: i32,
    pub user_id: i32,
    pub time: i32,
}

/// The answer that reports a distance between two addresses.
#[derive(Debug, PartialEq, Eq)]
pub struct AddressDistance {
    pub distance: String,
}

/// A row of the `orders` table; `user_id` is the user who ordered dish `d_id`.
#[derive(Debug, PartialEq, Eq)]
pub struct Orders {
    pub id: i32,
    pub d_id: i32,
    pub time: i32,
    pub user_id: i32,
    pub is_delivered: bool,
}

/// The token carried by an `Authorization` header: what follows its first
/// seven characters (the `Bearer ` scheme).
pub fn bearer_token(header: &str) -> (token: String)
    requires
        header.is_ascii(),
        header@.len() >= 7,
    ensures
        token@ == header@.skip(7),
{
    let n: usize = header.unicode_len();
    let rest = header.substring_ascii(7, n);
    assert(rest@ =~= header@.skip(7));
    rest.to_owned()
}

/// Where the authentication of a request stands.
#[derive(Debug, PartialEq, Eq)]
pub enum AuthStage {
    /// The login token was asked for.
    AwaitAuth,
    /// The user of the token was asked for.
    AwaitUser,
    /// The roles of the user were asked for.
    AwaitRoles { user: Users },
    /// The answer is given.
    Finished,
}

/// The authentication of a request in progress.
#[derive(Debug, PartialEq, Eq)]
pub struct Authenticate {
    pub stage: AuthStage,
}

impl UserAuth {
    /// Starts authenticating a request. `has_state` tells whether the service
    /// state is configured, and `header` is the request's `Authorization`
    /// header, if any, as text.
    ///
    /// Without service state the answer is `InternalError`; without a header
    /// it is `NoToken`; otherwise the login token that the header carries is
    /// asked for.
    pub fn from_request(has_state: bool, header: Option<&str>) -> (out: (Authenticate, Step<UserAuth>))
        requires
            has_state && header is Some ==> header->0.is_ascii() && header->0@.len() >= 7,
        ensures
            !has_state ==> out.0.stage is Finished && out.1 == Step::<UserAuth>::Finish(Err(MyError::InternalError)),
            has_state && header is None ==> out.0.stage is Finished && out.1 == Step::<UserAuth>::Finish(
                Err(MyError::NoToken),
            ),
            has_state && header is Some ==> {
                &&& out.0.stage is AwaitAuth
                &&& out.1 matches Step::Run(Query::AuthByToken { user_token })
                &&& user_token@ == header->0@.skip(7)
            },
    {
        if !has_state {
            return (Authenticate { stage: AuthStage::Finished }, Step::Finish(Err(MyError::InternalError)));
        }
        match header {
            Some(h) => {
                let token = bearer_token(h);
                (Authenticate { stage: AuthStage::AwaitAuth }, Step::Run(Query::AuthByToken { user_token: token }))
            },
            None => (Authenticate { stage: AuthStage::Finished }, Step::Finish(Err(MyError::NoToken))),
        }
    }
}

impl Authenticate {
    /// How many more statements the authentication runs at most before it answers.
    pub open spec fn steps_left(self) -> nat {
        match self.stage {
            AuthStage::AwaitAuth => 3,
            AuthStage::AwaitUser => 2,
            AuthStage::AwaitRoles { .. } => 1,
            AuthStage::Finished => 0,
        }
    }

    /// Whether `reply` can come back at this stage and be handled: a failure
    /// or a token row when the token was asked for; the user row when the user
    /// was asked for; the roles when the roles were asked for.
    pub open spec fn admits(self, reply: Result<Row, DbError>) -> bool {
        match (self.stage, reply) {
            (AuthStage::AwaitAuth, Err(_)) => true,
            (AuthStage::AwaitAuth, Ok(Row::Auth(_))) => true,
            (AuthStage::AwaitUser, Ok(Row::User(_))) => true,
            (AuthStage::AwaitRoles { .. }, Ok(Row::Roles(_))) => true,
            _ => false,
        }
    }

    /// The next state of the authentication and what it does next, once
    /// `reply` came back.
    ///
    /// A token that cannot be read is refused with `UnAuthorized`, whatever
    /// the failure. Otherwise the user the token belongs to is asked for, then
    /// that user's roles, and the answer is that user with those roles.
    pub open spec fn next(self, reply: Result<Row, DbError>) -> (Authenticate, Step<UserAuth>) {
        let done = Authenticate { stage: AuthStage::Finished };
        match (self.stage, reply) {
            (AuthStage::AwaitAuth, Err(_)) => (done, Step::Finish(Err(MyError::UnAuthorized))),
            (AuthStage::AwaitAuth, Ok(Row::Auth(auth))) => (
                Authenticate { stage: AuthStage::AwaitUser },
                Step::Run(Query::UserOfAuth { user_id: auth.user_id }),
            ),
            (AuthStage::AwaitUser, Ok(Row::User(user))) => (
                Authenticate { stage: AuthStage::AwaitRoles { user } },
                Step::Run(Query::RolesOfUser { user_id: user.user_id }),
            ),
            (AuthStage::AwaitRoles { user }, Ok(Row::Roles(roles))) => (
                done,
                Step::Finish(
                    Ok(
                        UserAuth {
                            user_id: user.user_id,
                            user_name: user.user_name,
                            user_email: user.user_email,
                            roles,
                            credit: user.credit,
                        },
                    ),
                ),
            ),
            _ => (done, Step::Finish(Err(MyError::InternalError))),
        }
    }

    /// Tells whether `reply` can come back at this stage and be handled.
    pub fn accepts(&self, reply: &Result<Row, DbError>) -> (b: bool)
        ensures
            b == self.admits(*reply),
    {
        match (&self.stage, reply) {
            (AuthStage::AwaitAuth, Err(_)) => true,
            (AuthStage::AwaitAuth, Ok(Row::Auth(_))) => true,
            (AuthStage::AwaitUser, Ok(Row::User(_))) => true,
            (AuthStage::AwaitRoles { .. }, Ok(Row::Roles(_))) => true,
            _ => false,
        }
    }

    /// Handles what the last statement gave back (see `next`).
    pub fn resume(self, reply: Result<Row, DbError>) -> (out: (Authenticate, Step<UserAuth>))
        requires
            self.admits(reply),
        ensures
            out == self.next(reply),
    {
        match (self.stage, reply) {
            (AuthStage::AwaitAuth, Err(_)) => {
                (Authenticate { stage: AuthStage::Finished }, Step::Finish(Err(MyError::UnAuthorized)))
            },
            (AuthStage::AwaitAuth, Ok(Row::Auth(auth))) => {
                (Authenticate { stage: AuthStage::AwaitUser }, Step::Run(Query::UserOfAuth { user_id: auth.user_id }))
            },
            (AuthStage::AwaitUser, Ok(Row::User(user))) => {
                let q = Query::RolesOfUser { user_id: user.user_id };
                (Authenticate { stage: AuthStage::AwaitRoles { user } }, Step::Run(q))
            },
            (AuthStage::AwaitRoles { user }, Ok(Row::Roles(roles))) => {
                let usr = UserAuth {
                    user_id: user.user_id,
                    user_name: user.user_name,
                    user_email: user.user_email,
                    roles,
                    credit: user.credit,
                };
                (Authenticate { stage: AuthStage::Finished }, Step::Finish(Ok(usr)))
            },
            (_, _) => {
                proof {
                    assert(false);
                }
                (Authenticate { stage: AuthStage::Finished }, Step::Finish(Err(MyError::InternalError)))
            },
        }
    }
}

} // verus!
