//! What the service mounts at launch.

use vstd::prelude::*;

verus! {

/// The HTTP methods that the service answers.
#[derive(Debug, Clone, Copy, PartialEq, Eq, Structural)]
pub enum Method {
    Get,
    Post,
    Put,
    Delete,
}

/// The handlers of the service.
#[derive(Debug, Clone, Copy, PartialEq, Eq, Structural)]
pub enum Endpoint {
    Index,
    AddTask,
    ReadTasks,
    EditTask,
    DeleteTask,
}

/// What is attached to the server before it takes requests.
#[derive(Debug, Clone, Copy, PartialEq, Eq, Structural)]
pub enum Fairing {
    /// The pool of database connections.
    Database,
    /// The schema migrations, run once when the server ignites.
    Migrations,
}

/// One entry of the routing table.
#[derive(Debug)]
pub struct Route {
    pub method: Method,
    /// The path below the base; `<id>` stands for an integer segment.
    pub path: &'static str,
    pub endpoint: Endpoint,
}

/// What a [`Route`] is, mathematically.
pub struct RouteView {
    pub method: Method,
    pub path: Seq<char>,
    pub endpoint: Endpoint,
}

impl View for Route {
    type V = RouteView;

    open spec fn view(&self) -> RouteView {
        RouteView { method: self.method, path: self.path@, endpoint: self.endpoint }
    }
}

/// The server as it is assembled, before it is launched.
#[derive(Debug)]
pub struct Launch {
    /// The fairings, in the order in which they are attached.
    pub fairings: Vec<Fairing>,
    /// The path at which the routes are mounted.
    pub base: &'static str,
    /// The routes, in the order in which they are mounted.
    pub routes: Vec<Route>,
}

/// The fairings of the service: the connection pool first, so that the
/// migrations find it.
pub open spec fn fairings() -> Seq<Fairing> {
    seq![Fairing::Database, Fairing::Migrations]
}

/// The routing table of the service.
pub open spec fn route_table() -> Seq<RouteView> {
    seq![
        RouteView { method: Method::Get, path: "/"@, endpoint: Endpoint::Index },
        RouteView { method: Method::Post, path: "/addtask"@, endpoint: Endpoint::AddTask },
        RouteView { method: Method::Get, path: "/readtasks"@, endpoint: Endpoint::ReadTasks },
        RouteView { method: Method::Put, path: "/edittask"@, endpoint: Endpoint::EditTask },
        RouteView {
            method: Method::Delete,
            path: "/deletetask/<id>"@,
            endpoint: Endpoint::DeleteTask,
        },
    ]
}

} // verus!
