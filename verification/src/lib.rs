//! A verified core for a small todo-list web service.
//!
//! The service keeps one table, `tasks`, of rows with an integer identifier
//! and a text, and answers five requests: a greeting, and the creation,
//! listing, editing and removal of tasks.
//!
//! - [`task`] holds the record, and [`error`] the failures and their status.
//! - [`schema`] builds the statements that create and drop the table.
//! - [`table`] says what the table holds and what each statement makes of it;
//!   [`store`] is the statement language and an in-memory database that
//!   carries it out.
//! - [`handlers`] are the route handlers, written as a conversation with
//!   whoever owns the store; [`service`] runs that conversation against the
//!   in-memory database.
//! - [`laws`] proves what holds of the service whatever the requests are.
//! - [`routes`] is the routing table that [`rocket`] assembles.
//!
//! A server that owns a real database parses the requests, runs the
//! conversation of [`handlers`] against that database, and serialises the
//! responses; none of that is in this crate.

use vstd::prelude::*;

pub mod error;
pub mod handlers;
pub mod laws;
pub mod routes;
pub mod schema;
pub mod service;
pub mod store;
pub mod table;
pub mod task;
pub mod text;

use crate::routes::{fairings, route_table, Endpoint, Fairing, Launch, Method, Route};

verus! {

/// The text served at the root path.
pub open spec fn greeting() -> Seq<char> {
    "Hello, world!"@
}

/// Handler of `GET /`: the static greeting.
pub fn index() -> (body: &'static str)
    ensures
        body@ == greeting(),
{
    "Hello, world!"
}

/// Lays out the server: the connection pool and the migrations are attached,
/// in that order, and the five routes are mounted at the root.
pub fn rocket() -> (launch: Launch)
    ensures
        launch.fairings@ == fairings(),
        launch.base@ == "/"@,
        launch.routes@.map_values(|route: Route| route@) == route_table(),
{
    let mut attached: Vec<Fairing> = Vec::new();
    attached.push(Fairing::Database);
    attached.push(Fairing::Migrations);

    let mut routes: Vec<Route> = Vec::new();
    routes.push(Route { method: Method::Get, path: "/", endpoint: Endpoint::Index });
    routes.push(Route { method: Method::Post, path: "/addtask", endpoint: Endpoint::AddTask });
    routes.push(Route { method: Method::Get, path: "/readtasks", endpoint: Endpoint::ReadTasks });
    routes.push(Route { method: Method::Put, path: "/edittask", endpoint: Endpoint::EditTask });
    routes.push(
        Route { method: Method::Delete, path: "/deletetask/<id>", endpoint: Endpoint::DeleteTask },
    );

    Launch { fairings: attached, base: "/", routes }
}

} // verus!
