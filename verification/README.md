# food_order

The request logic of a food ordering web service: users register and log in
for a token, managers (`Admin`, `SubAdmin`) create restaurants and dishes,
and users order dishes, paying with credit that goes to the dish's owner.

- `src/` is the verified library. Each request that talks to the database
  more than once is a flow: it names the next statement to run (`db::Query`)
  and takes back what that statement returned, until it gives its answer.
  Requests that run one statement are a function from the requester to that
  statement or to the error answered. `src/laws.rs` (orders and credits) and
  `src/laws_users.rs` (accounts and login tokens) hold the properties that
  span several steps or requests, such as that cancelling an order gives
  every credit back, or that logging out revokes every token of the user.
- `app/` is the actix-web service around it: routes, JSON bodies, request
  authentication, and the PostgreSQL statements run through sqlx.
- `tests/` runs the library on concrete requests, including complete order
  and cancellation flows against an in-memory table.
