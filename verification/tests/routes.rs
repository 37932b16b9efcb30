use todo_app::routes::{Endpoint, Fairing, Method};
use todo_app::{index, rocket};

#[test]
fn index_serves_the_greeting() {
    assert_eq!(index(), "Hello, world!");
}

#[test]
fn rocket_attaches_the_pool_before_the_migrations() {
    assert_eq!(rocket().fairings, vec![Fairing::Database, Fairing::Migrations]);
}

#[test]
fn rocket_mounts_the_five_routes_at_the_root() {
    let launch = rocket();
    assert_eq!(launch.base, "/");
    let table: Vec<(Method, &str, Endpoint)> =
        launch.routes.iter().map(|r| (r.method, r.path, r.endpoint)).collect();
    assert_eq!(
        table,
        vec![
            (Method::Get, "/", Endpoint::Index),
            (Method::Post, "/addtask", Endpoint::AddTask),
            (Method::Get, "/readtasks", Endpoint::ReadTasks),
            (Method::Put, "/edittask", Endpoint::EditTask),
            (Method::Delete, "/deletetask/<id>", Endpoint::DeleteTask),
        ]
    );
}
