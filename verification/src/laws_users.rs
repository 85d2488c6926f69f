//! Properties of registration, login, logout and authentication that span
//! several requests.
//!
//! The flows are played against a model of two tables: the `users` table, a
//! map from user id to row, and the `auths` table, a map from login token to
//! the id of the user it belongs to (no two rows share a token). Writing a
//! token adds it; removing the tokens of a user removes every token of that
//! user; a lookup by token finds the token's row if there is one.
use vstd::prelude::*;

use crate::db::{Query, Row, Step};
use crate::error::{DbError, MyError};
use crate::model::{AuthStage, Authenticate, Auths, Roles, UserAuth, Users};
use crate::services_user::{Login, LoginStage, Logout, LogoutStage, Register, RegisterStage};

verus! {

/// The tokens after `query` ran: writing a token adds it for its user,
/// removing the tokens of a user removes all of that user's tokens, and every
/// other statement leaves the tokens as they are.
pub open spec fn apply_auths(auths: Map<Seq<char>, i32>, query: Query) -> Map<Seq<char>, i32> {
    match query {
        Query::InsertAuth { user_id, user_token } => auths.insert(user_token@, user_id),
        Query::DeleteAuthOfUser { user_id } => Map::new(
            |t: Seq<char>| auths.contains_key(t) && auths[t] != user_id,
            |t: Seq<char>| auths[t],
        ),
        _ => auths,
    }
}

/// What a lookup of `token` in the tokens gives back: its row, or no row.
pub open spec fn auth_reply(auths: Map<Seq<char>, i32>, token: String) -> Result<Row, DbError> {
    if auths.contains_key(token@) {
        Ok(Row::Auth(Auths { user_id: auths[token@], user_token: token }))
    } else {
        Err(DbError::RowNotFound)
    }
}

/// The answer to a request that presents `token`, against tables holding
/// `auths` and `users`, where the roles of the token's user are `roles`.
pub open spec fn auth_run(
    auths: Map<Seq<char>, i32>,
    users: Map<i32, Users>,
    token: String,
    roles: Vec<Roles>,
) -> Step<UserAuth> {
    let r1 = (Authenticate { stage: AuthStage::AwaitAuth }).next(auth_reply(auths, token));
    if !auths.contains_key(token@) {
        r1.1
    } else {
        let r2 = r1.0.next(Ok(Row::User(users[auths[token@]])));
        let r3 = r2.0.next(Ok(Row::Roles(roles)));
        r3.1
    }
}

/// Whether every result along `auth_run` is one the authentication takes at
/// the point where it arrives.
pub open spec fn auth_run_admitted(
    auths: Map<Seq<char>, i32>,
    users: Map<i32, Users>,
    token: String,
    roles: Vec<Roles>,
) -> bool {
    let f0 = Authenticate { stage: AuthStage::AwaitAuth };
    let r1 = f0.next(auth_reply(auths, token));
    let r2 = r1.0.next(Ok(Row::User(users[auths[token@]])));
    &&& f0.admits(auth_reply(auths, token))
    &&& auths.contains_key(token@) ==> r1.0.admits(Ok(Row::User(users[auths[token@]])))
    &&& auths.contains_key(token@) ==> r2.0.admits(Ok(Row::Roles(roles)))
}

/// The user row that a lookup by `name` gives back.
pub open spec fn user_named(users: Map<i32, Users>, name: Seq<char>) -> Users {
    users[choose|id: i32| users.contains_key(id) && users[id].user_name@ == name]
}

/// A header `Bearer <token>` carries `token`: what authentication looks up
/// is what follows the scheme.
pub proof fn law_bearer_header_carries_token(token: Seq<char>)
    ensures
        ("Bearer "@ + token).len() >= 7,
        ("Bearer "@ + token).skip(7) =~= token,
{
    reveal_strlit("Bearer ");
}

/// A token written by a successful login authenticates its user: a request
/// that presents it is answered with that user and their roles.
pub proof fn law_login_token_authenticates(
    auths: Map<Seq<char>, i32>,
    users: Map<i32, Users>,
    password: String,
    stored: Users,
    out: (Login, Step<Auths>),
    presented: String,
    roles: Vec<Roles>,
)
    requires
        users.contains_key(stored.user_id),
        users[stored.user_id] == stored,
        password@ == stored.user_password@,
        (Login { stage: LoginStage::AwaitUser { password } }).steps_to(Ok(Row::User(stored)), out),
    ensures
        match out.1 {
            Step::Run(Query::InsertAuth { user_id, user_token }) => {
                &&& user_id == stored.user_id
                &&& presented@ == user_token@ ==> auth_run_admitted(
                    apply_auths(auths, Query::InsertAuth { user_id, user_token }),
                    users,
                    presented,
                    roles,
                )
                &&& presented@ == user_token@ ==> auth_run(
                    apply_auths(auths, Query::InsertAuth { user_id, user_token }),
                    users,
                    presented,
                    roles,
                ) == Step::<UserAuth>::Finish(
                    Ok(
                        UserAuth {
                            user_id: stored.user_id,
                            user_name: stored.user_name,
                            user_email: stored.user_email,
                            roles,
                            credit: stored.credit,
                        },
                    ),
                )
            },
            _ => false,
        },
{
}

/// Logging out revokes every token of the user who logs out, not only the one
/// the request presented: afterwards a request presenting any of them is
/// refused with `UnAuthorized`. The tokens of other users stay.
pub proof fn law_logout_revokes_tokens(
    auths: Map<Seq<char>, i32>,
    users: Map<i32, Users>,
    requester_id: i32,
    named: Users,
    removed: Auths,
    presented: String,
    roles: Vec<Roles>,
)
    requires
        named.user_id == requester_id,
        auths.contains_key(presented@) ==> auths[presented@] == requester_id,
    ensures
        ({
            let r1 = (Logout { requester_id, stage: LogoutStage::AwaitUser }).next(Ok(Row::User(named)));
            let after = apply_auths(auths, Query::DeleteAuthOfUser { user_id: requester_id });
            &&& (Logout { requester_id, stage: LogoutStage::AwaitUser }).admits(Ok(Row::User(named)))
            &&& r1.1 == Step::<Auths>::Run(Query::DeleteAuthOfUser { user_id: requester_id })
            &&& r1.0.admits(Ok(Row::Auth(removed)))
            &&& r1.0.next(Ok(Row::Auth(removed))).1 == Step::<Auths>::Finish(Ok(removed))
            &&& auth_run_admitted(after, users, presented, roles)
            &&& auth_run(after, users, presented, roles) == Step::<UserAuth>::Finish(Err(MyError::UnAuthorized))
            &&& forall|t: Seq<char>|
                auths.contains_key(t) && auths[t] != requester_id ==> #[trigger] after.contains_key(t)
                    && after[t] == auths[t]
        }),
{
}

/// A login takes every user row the name lookup gives back, whatever
/// password was sent.
pub proof fn law_login_takes_every_user_row(password: String, stored: Users)
    ensures
        (Login { stage: LoginStage::AwaitUser { password } }).admits(Ok(Row::User(stored))),
{
}

/// At login, a password that differs from the stored one is answered
/// `UnAuthorized` and writes no token; the stored password writes a token of
/// sixteen letters and digits for that user, and the token row written back
/// is the answer.
pub proof fn law_login_checks_password(
    password: String,
    stored: Users,
    out: (Login, Step<Auths>),
    written: Auths,
    answered: (Login, Step<Auths>),
)
    requires
        (Login { stage: LoginStage::AwaitUser { password } }).steps_to(Ok(Row::User(stored)), out),
        password@ == stored.user_password@ ==> out.0.steps_to(Ok(Row::Auth(written)), answered),
    ensures
        password@ != stored.user_password@ ==> out.1 == Step::<Auths>::Finish(Err(MyError::UnAuthorized)),
        password@ == stored.user_password@ ==> {
            &&& out.1 matches Step::Run(Query::InsertAuth { user_id, user_token })
            &&& user_id == stored.user_id
            &&& user_token@.len() == 16
            &&& out.0.admits(Ok(Row::Auth(written)))
            &&& answered.1 == Step::<Auths>::Finish(Ok(written))
        },
{
}

/// A logout whose name lookup fails removes no token: a name no user has is
/// answered `NoContent`, any other failure `InternalError`, and no statement
/// follows, so every token stays.
pub proof fn law_logout_failed_lookup_keeps_tokens(requester_id: i32, e: DbError)
    ensures
        ({
            let f = Logout { requester_id, stage: LogoutStage::AwaitUser };
            let answer = if e == DbError::RowNotFound {
                MyError::NoContent
            } else {
                MyError::InternalError
            };
            &&& f.admits(Err(e))
            &&& f.next(Err(e)).1 == Step::<Auths>::Finish(Err(answer))
            &&& f.next(Err(e)).0.stage is Finished
        }),
{
}

/// A logout naming another user than the requester removes no token: it is
/// answered `UnAuthorized` and no statement follows.
pub proof fn law_logout_of_another_user_keeps_tokens(requester_id: i32, named: Users)
    requires
        named.user_id != requester_id,
    ensures
        (Logout { requester_id, stage: LogoutStage::AwaitUser }).admits(Ok(Row::User(named))),
        (Logout { requester_id, stage: LogoutStage::AwaitUser }).next(Ok(Row::User(named))).1
            == Step::<Auths>::Finish(Err(MyError::UnAuthorized)),
{
}

/// A user who registered can log in with the name and password they
/// registered with: the registration writes the role `User` for the new user,
/// and a login with that name and password writes a token for that user.
pub proof fn law_registered_user_can_log_in(
    users: Map<i32, Users>,
    sent: Users,
    new_id: i32,
    registered: (Register, Step<Users>),
    password: String,
    logged_in: (Login, Step<Auths>),
)
    requires
        !users.contains_key(new_id),
        forall|id: i32| #[trigger] users.contains_key(id) ==> users[id].user_name@ != sent.user_name@,
        password@ == sent.user_password@,
        (Register { stage: RegisterStage::AwaitUser }).steps_to(
            Ok(
                Row::User(
                    Users {
                        user_id: new_id,
                        user_name: sent.user_name,
                        user_password: sent.user_password,
                        user_email: sent.user_email,
                        credit: 1000,
                    },
                ),
            ),
            registered,
        ),
        (Login { stage: LoginStage::AwaitUser { password } }).steps_to(
            Ok(
                Row::User(
                    user_named(
                        users.insert(
                            new_id,
                            Users {
                                user_id: new_id,
                                user_name: sent.user_name,
                                user_password: sent.user_password,
                                user_email: sent.user_email,
                                credit: 1000,
                            },
                        ),
                        sent.user_name@,
                    ),
                ),
            ),
            logged_in,
        ),
    ensures
        registered.1 matches Step::Run(Query::InsertRole { role_type, user_id }) && role_type@ == "User"@
            && user_id == new_id,
        logged_in.1 matches Step::Run(Query::InsertAuth { user_id, .. }) && user_id == new_id,
{
    let written = Users {
        user_id: new_id,
        user_name: sent.user_name,
        user_password: sent.user_password,
        user_email: sent.user_email,
        credit: 1000,
    };
    let after = users.insert(new_id, written);
    assert(after.contains_key(new_id) && after[new_id].user_name@ == sent.user_name@);
    let found = choose|id: i32| after.contains_key(id) && after[id].user_name@ == sent.user_name@;
    assert(found == new_id);
}

/// A registration takes the user row written and then any role row, and its
/// answer is the user row written.
pub proof fn law_register_answers_user_written(
    user: Users,
    out: (Register, Step<Users>),
    role: Roles,
    answered: (Register, Step<Users>),
)
    requires
        (Register { stage: RegisterStage::AwaitUser }).steps_to(Ok(Row::User(user)), out),
        out.0.steps_to(Ok(Row::Role(role)), answered),
    ensures
        (Register { stage: RegisterStage::AwaitUser }).admits(Ok(Row::User(user))),
        out.0.admits(Ok(Row::Role(role))),
        answered.1 == Step::<Users>::Finish(Ok(user)),
{
}

/// A token that cannot be looked up is refused: whatever the failure, the
/// authentication answers `UnAuthorized` and runs no further statement.
pub proof fn law_unknown_token_is_refused(e: DbError)
    ensures
        (Authenticate { stage: AuthStage::AwaitAuth }).admits(Err(e)),
        (Authenticate { stage: AuthStage::AwaitAuth }).next(Err(e)).1 == Step::<UserAuth>::Finish(
            Err(MyError::UnAuthorized),
        ),
{
}

/// A registration or a login whose statement fails at any stage ends at once:
/// a missing row is answered `NoContent`, any other failure `InternalError`.
pub proof fn law_account_failures(
    register: Register,
    registered: (Register, Step<Users>),
    login: Login,
    logged_in: (Login, Step<Auths>),
    e: DbError,
)
    requires
        !(register.stage is Finished) ==> register.steps_to(Err(e), registered),
        !(login.stage is Finished) ==> login.steps_to(Err(e), logged_in),
    ensures
        ({
            let answer = if e == DbError::RowNotFound {
                MyError::NoContent
            } else {
                MyError::InternalError
            };
            &&& !(register.stage is Finished) ==> register.admits(Err(e)) && registered.1 == Step::<Users>::Finish(Err(answer))
            &&& !(login.stage is Finished) ==> login.admits(Err(e)) && logged_in.1 == Step::<Auths>::Finish(Err(answer))
        }),
{
}

/// A logout whose statement fails at any stage ends at once: a missing row is
/// answered `NoContent`, any other failure `InternalError`.
pub proof fn law_logout_failures(flow: Logout, e: DbError)
    requires
        !(flow.stage is Finished),
    ensures
        flow.admits(Err(e)),
        flow.next(Err(e)).1 == Step::<Auths>::Finish(
            Err(
                if e == DbError::RowNotFound {
                    MyError::NoContent
                } else {
                    MyError::InternalError
                },
            ),
        ),
{
}

} // verus!
