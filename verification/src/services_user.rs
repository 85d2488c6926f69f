//! Registering, logging in and out, and the listings every user may read.
//!
//! A new user starts with a credit of 1000 and the role `User`. Logging in
//! with the right password issues a fresh login token of sixteen letters and
//! digits; logging out removes the requester's token.
use vstd::prelude::*;

use rand::distributions::{Alphanumeric, DistString};

use crate::db::{Query, Row, Step};
use crate::error::{spec_from_db, DbError, MyError};
use crate::model::{Auths, UserAuth, Users};

verus! {

/// The credit a new user starts with.
pub const INITIAL_CREDIT: i32 = 1000;

/// The number of characters in a login token.
pub const TOKEN_LEN: usize = 16;

/// Whether `c` is an ASCII letter or digit.
pub open spec fn is_alphanumeric(c: char) -> bool {
    ('A' as u32 <= c as u32 <= 'Z' as u32) || ('a' as u32 <= c as u32 <= 'z' as u32) || ('0' as u32
        <= c as u32 <= '9' as u32)
}

/// Whether `s` is `len` ASCII letters and digits.
pub open spec fn is_token_text(s: Seq<char>, len: nat) -> bool {
    s.len() == len && forall|i: int| 0 <= i < s.len() ==> is_alphanumeric(#[trigger] s[i])
}

/// Calls rand's `Alphanumeric.sample_string(&mut rand::thread_rng(), len)`,
/// which appends `len` bytes, each drawn from `A`-`Z`, `a`-`z` and `0`-`9`,
/// to an empty string. Claimed: the result is `len` such characters. Which
/// characters are drawn rests on the thread's random generator and is left
/// unsaid; `thread_rng` panics if the operating system cannot seed it, which
/// no precondition can rule out.
#[verifier::external_body]
fn random_alphanumeric(len: usize) -> (s: String)
    ensures
        is_token_text(s@, len as nat),
{
    Alphanumeric.sample_string(&mut rand::thread_rng(), len)
}

// ---------------------------------------------------------------------------
// Registering
// ---------------------------------------------------------------------------

/// Where a registration stands.
#[derive(Debug, PartialEq, Eq)]
pub enum RegisterStage {
    /// The user was written.
    AwaitUser,
    /// The user's role was written.
    AwaitRole { user: Users },
    /// The answer is given.
    Finished,
}

/// A registration in progress.
#[derive(Debug, PartialEq, Eq)]
pub struct Register {
    pub stage: RegisterStage,
}

/// Starts registering `user`: a user is written with its name, password and
/// e-mail and a credit of 1000 (the id and credit sent are not used).
pub fn register(user: Users) -> (out: (Register, Step<Users>))
    ensures
        out.0.stage is AwaitUser,
        out.1 == Step::<Users>::Run(Query::InsertUser {
            user_name: user.user_name,
            user_password: user.user_password,
            user_email: user.user_email,
            credit: 1000,
        }),
{
    let q = Query::InsertUser {
        user_name: user.user_name,
        user_password: user.user_password,
        user_email: user.user_email,
        credit: INITIAL_CREDIT,
    };
    (Register { stage: RegisterStage::AwaitUser }, Step::Run(q))
}

impl Register {
    /// Whether `reply` can come back at this stage: a failure or a row of the
    /// kind asked for.
    pub open spec fn admits(self, reply: Result<Row, DbError>) -> bool {
        match (self.stage, reply) {
            (RegisterStage::Finished, _) => false,
            (_, Err(_)) => true,
            (RegisterStage::AwaitUser, Ok(Row::User(_))) => true,
            (RegisterStage::AwaitRole { .. }, Ok(Row::Role(_))) => true,
            _ => false,
        }
    }

    /// Tells whether `reply` can come back at this stage.
    pub fn accepts(&self, reply: &Result<Row, DbError>) -> (b: bool)
        ensures
            b == self.admits(*reply),
    {
        match (&self.stage, reply) {
            (RegisterStage::Finished, _) => false,
            (_, Err(_)) => true,
            (RegisterStage::AwaitUser, Ok(Row::User(_))) => true,
            (RegisterStage::AwaitRole { .. }, Ok(Row::Role(_))) => true,
            _ => false,
        }
    }

    /// Whether `out` is what the registration does once `reply` came back.
    ///
    /// A failed statement ends the registration with the error that answers
    /// it. Once the user is written, the role `User` is written for it; then
    /// the user written is the answer.
    pub open spec fn steps_to(self, reply: Result<Row, DbError>, out: (Register, Step<Users>)) -> bool {
        match (self.stage, reply) {
            (_, Err(e)) => out.0.stage is Finished && out.1 == Step::<Users>::Finish(Err(spec_from_db(e))),
            (RegisterStage::AwaitUser, Ok(Row::User(user))) => {
                &&& out.0.stage == (RegisterStage::AwaitRole { user })
                &&& out.1 matches Step::Run(Query::InsertRole { role_type, user_id })
                &&& role_type@ == "User"@
                &&& user_id == user.user_id
            },
            (RegisterStage::AwaitRole { user }, Ok(Row::Role(_))) => {
                &&& out.0.stage is Finished
                &&& out.1 == Step::<Users>::Finish(Ok(user))
            },
            _ => false,
        }
    }

    /// Handles what the last statement gave back (see `steps_to`).
    pub fn resume(self, reply: Result<Row, DbError>) -> (out: (Register, Step<Users>))
        requires
            self.admits(reply),
        ensures
            self.steps_to(reply, out),
    {
        match (self.stage, reply) {
            (_, Err(e)) => (Register { stage: RegisterStage::Finished }, Step::Finish(Err(MyError::from_db(e)))),
            (RegisterStage::AwaitUser, Ok(Row::User(user))) => {
                let q = Query::InsertRole { role_type: "User".to_owned(), user_id: user.user_id };
                (Register { stage: RegisterStage::AwaitRole { user } }, Step::Run(q))
            },
            (RegisterStage::AwaitRole { user }, Ok(Row::Role(_))) => {
                (Register { stage: RegisterStage::Finished }, Step::Finish(Ok(user)))
            },
            (_, _) => {
                proof {
                    assert(false);
                }
                (Register { stage: RegisterStage::Finished }, Step::Finish(Err(MyError::InternalError)))
            },
        }
    }
}

// ---------------------------------------------------------------------------
// Logging in
// ---------------------------------------------------------------------------

/// Where a login stands.
#[derive(Debug, PartialEq, Eq)]
pub enum LoginStage {
    /// The user with the given name was asked for; `password` is the one sent.
    AwaitUser { password: String },
    /// The new login token was written.
    AwaitAuth,
    /// The answer is given.
    Finished,
}

/// A login in progress.
#[derive(Debug, PartialEq, Eq)]
pub struct Login {
    pub stage: LoginStage,
}

/// Starts a login with the name and password in `user`: the user with that
/// name is asked for.
pub fn login(user: Users) -> (out: (Login, Step<Auths>))
    ensures
        out.0.stage == (LoginStage::AwaitUser { password: user.user_password }),
        out.1 == Step::<Auths>::Run(Query::UserByName { user_name: user.user_name }),
{
    (
        Login { stage: LoginStage::AwaitUser { password: user.user_password } },
        Step::Run(Query::UserByName { user_name: user.user_name }),
    )
}

impl Login {
    /// Whether `reply` can come back at this stage: a failure or a row of the
    /// kind asked for.
    pub open spec fn admits(self, reply: Result<Row, DbError>) -> bool {
        match (self.stage, reply) {
            (LoginStage::Finished, _) => false,
            (_, Err(_)) => true,
            (LoginStage::AwaitUser { .. }, Ok(Row::User(_))) => true,
            (LoginStage::AwaitAuth, Ok(Row::Auth(_))) => true,
            _ => false,
        }
    }

    /// Tells whether `reply` can come back at this stage.
    pub fn accepts(&self, reply: &Result<Row, DbError>) -> (b: bool)
        ensures
            b == self.admits(*reply),
    {
        match (&self.stage, reply) {
            (LoginStage::Finished, _) => false,
            (_, Err(_)) => true,
            (LoginStage::AwaitUser { .. }, Ok(Row::User(_))) => true,
            (LoginStage::AwaitAuth, Ok(Row::Auth(_))) => true,
            _ => false,
        }
    }

    /// Whether `out` is what the login does once `reply` came back.
    ///
    /// A failed statement ends the login with the error that answers it. A
    /// password that differs from the stored one is refused with
    /// `UnAuthorized`; otherwise a login token of sixteen letters and digits is
    /// written for the user, and the token row written is the answer.
    pub open spec fn steps_to(self, reply: Result<Row, DbError>, out: (Login, Step<Auths>)) -> bool {
        match (self.stage, reply) {
            (_, Err(e)) => out.0.stage is Finished && out.1 == Step::<Auths>::Finish(Err(spec_from_db(e))),
            (LoginStage::AwaitUser { password }, Ok(Row::User(stored))) =>
                if password@ == stored.user_password@ {
                    &&& out.0.stage is AwaitAuth
                    &&& out.1 matches Step::Run(Query::InsertAuth { user_id, user_token })
                    &&& user_id == stored.user_id
                    &&& is_token_text(user_token@, 16)
                } else {
                    &&& out.0.stage is Finished
                    &&& out.1 == Step::<Auths>::Finish(Err(MyError::UnAuthorized))
                },
            (LoginStage::AwaitAuth, Ok(Row::Auth(auth))) => {
                &&& out.0.stage is Finished
                &&& out.1 == Step::<Auths>::Finish(Ok(auth))
            },
            _ => false,
        }
    }

    /// Handles what the last statement gave back (see `steps_to`).
    pub fn resume(self, reply: Result<Row, DbError>) -> (out: (Login, Step<Auths>))
        requires
            self.admits(reply),
        ensures
            self.steps_to(reply, out),
    {
        match (self.stage, reply) {
            (_, Err(e)) => (Login { stage: LoginStage::Finished }, Step::Finish(Err(MyError::from_db(e)))),
            (LoginStage::AwaitUser { password }, Ok(Row::User(stored))) => {
                if password == stored.user_password {
                    let token = random_alphanumeric(TOKEN_LEN);
                    let q = Query::InsertAuth { user_id: stored.user_id, user_token: token };
                    (Login { stage: LoginStage::AwaitAuth }, Step::Run(q))
                } else {
                    (Login { stage: LoginStage::Finished }, Step::Finish(Err(MyError::UnAuthorized)))
                }
            },
            (LoginStage::AwaitAuth, Ok(Row::Auth(auth))) => {
                (Login { stage: LoginStage::Finished }, Step::Finish(Ok(auth)))
            },
            (_, _) => {
                proof {
                    assert(false);
                }
                (Login { stage: LoginStage::Finished }, Step::Finish(Err(MyError::InternalError)))
            },
        }
    }
}

// ---------------------------------------------------------------------------
// Logging out
// ---------------------------------------------------------------------------

/// Where a logout stands.
#[derive(Debug, PartialEq, Eq)]
pub enum LogoutStage {
    /// The user with the given name was asked for.
    AwaitUser,
    /// The requester's login token was removed.
    AwaitDelete,
    /// The answer is given.
    Finished,
}

/// A logout in progress, requested by `requester_id`.
#[derive(Debug, PartialEq, Eq)]
pub struct Logout {
    pub requester_id: i32,
    pub stage: LogoutStage,
}

/// Starts logging out the user named in `user`, requested by `usr`: the user
/// with that name is asked for.
pub fn logout(user: Users, usr: &UserAuth) -> (out: (Logout, Step<Auths>))
    ensures
        out.0 == (Logout { requester_id: usr.user_id, stage: LogoutStage::AwaitUser }),
        out.1 == Step::<Auths>::Run(Query::UserByName { user_name: user.user_name }),
{
    (
        Logout { requester_id: usr.user_id, stage: LogoutStage::AwaitUser },
        Step::Run(Query::UserByName { user_name: user.user_name }),
    )
}

impl Logout {
    /// How many more statements the logout runs at most before it answers.
    pub open spec fn steps_left(self) -> nat {
        match self.stage {
            LogoutStage::AwaitUser => 2,
            LogoutStage::AwaitDelete => 1,
            LogoutStage::Finished => 0,
        }
    }

    /// Whether `reply` can come back at this stage: a failure or a row of the
    /// kind asked for.
    pub open spec fn admits(self, reply: Result<Row, DbError>) -> bool {
        match (self.stage, reply) {
            (LogoutStage::Finished, _) => false,
            (_, Err(_)) => true,
            (LogoutStage::AwaitUser, Ok(Row::User(_))) => true,
            (LogoutStage::AwaitDelete, Ok(Row::Auth(_))) => true,
            _ => false,
        }
    }

    /// The next state of the logout and what it does next, once `reply` came
    /// back.
    ///
    /// A failed statement ends the logout with the error that answers it. A
    /// name that belongs to another user than the requester is refused with
    /// `UnAuthorized`; otherwise the requester's login token is removed, and
    /// the token row removed is the answer.
    pub open spec fn next(self, reply: Result<Row, DbError>) -> (Logout, Step<Auths>) {
        let done = Logout { stage: LogoutStage::Finished, ..self };
        match (self.stage, reply) {
            (_, Err(e)) => (done, Step::Finish(Err(spec_from_db(e)))),
            (LogoutStage::AwaitUser, Ok(Row::User(named))) =>
                if named.user_id == self.requester_id {
                    (
                        Logout { stage: LogoutStage::AwaitDelete, ..self },
                        Step::Run(Query::DeleteAuthOfUser { user_id: self.requester_id }),
                    )
                } else {
                    (done, Step::Finish(Err(MyError::UnAuthorized)))
                },
            (LogoutStage::AwaitDelete, Ok(Row::Auth(removed))) => (done, Step::Finish(Ok(removed))),
            _ => (done, Step::Finish(Err(MyError::InternalError))),
        }
    }

    /// Tells whether `reply` can come back at this stage.
    pub fn accepts(&self, reply: &Result<Row, DbError>) -> (b: bool)
        ensures
            b == self.admits(*reply),
    {
        match (&self.stage, reply) {
            (LogoutStage::Finished, _) => false,
            (_, Err(_)) => true,
            (LogoutStage::AwaitUser, Ok(Row::User(_))) => true,
            (LogoutStage::AwaitDelete, Ok(Row::Auth(_))) => true,
            _ => false,
        }
    }

    /// Handles what the last statement gave back (see `next`).
    pub fn resume(self, reply: Result<Row, DbError>) -> (out: (Logout, Step<Auths>))
        requires
            self.admits(reply),
        ensures
            out == self.next(reply),
    {
        let Logout { requester_id, stage } = self;
        match (stage, reply) {
            (_, Err(e)) => (Logout { requester_id, stage: LogoutStage::Finished }, Step::Finish(Err(MyError::from_db(e)))),
            (LogoutStage::AwaitUser, Ok(Row::User(named))) => {
                if named.user_id == requester_id {
                    (
                        Logout { requester_id, stage: LogoutStage::AwaitDelete },
                        Step::Run(Query::DeleteAuthOfUser { user_id: requester_id }),
                    )
                } else {
                    (Logout { requester_id, stage: LogoutStage::Finished }, Step::Finish(Err(MyError::UnAuthorized)))
                }
            },
            (LogoutStage::AwaitDelete, Ok(Row::Auth(removed))) => {
                (Logout { requester_id, stage: LogoutStage::Finished }, Step::Finish(Ok(removed)))
            },
            (_, _) => {
                proof {
                    assert(false);
                }
                (Logout { requester_id, stage: LogoutStage::Finished }, Step::Finish(Err(MyError::InternalError)))
            },
        }
    }
}

// ---------------------------------------------------------------------------
// Listings open to every user
// ---------------------------------------------------------------------------

/// The listing of every restaurant.
pub fn get_restaurant_list() -> (q: Query)
    ensures
        q == Query::AllRestaurants,
{
    Query::AllRestaurants
}

/// The listing of the dishes of restaurant `res_id`.
pub fn get_dish_list(res_id: i32) -> (q: Query)
    ensures
        q == (Query::DishesOfRestaurant { restaurant_id: res_id }),
{
    Query::DishesOfRestaurant { restaurant_id: res_id }
}

} // verus!
