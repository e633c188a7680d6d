use vstd::prelude::*;

verus! {

/// The HTTP method of a route.
#[derive(Debug, Clone, Copy, PartialEq, Eq, Structural)]
pub enum Method {
    Get,
    Post,
}

/// What a route leads to.
#[derive(Debug, Clone, Copy, PartialEq, Eq, Structural)]
pub enum Endpoint {
    GetUser,
    AddUser,
    UpdateUser,
    DeleteUser,
    Product,
}

/// One entry of the routing table. In a path, a segment that starts with a
/// colon stands for a parameter.
#[derive(Debug, Clone, Copy)]
pub struct Route {
    pub method: Method,
    pub path: &'static str,
    pub endpoint: Endpoint,
}

impl View for Route {
    type V = (Method, Seq<char>, Endpoint);

    open spec fn view(&self) -> (Method, Seq<char>, Endpoint) {
        (self.method, self.path@, self.endpoint)
    }
}

/// The content of each route of a table, in order.
pub open spec fn route_views(routes: Seq<Route>) -> Seq<(Method, Seq<char>, Endpoint)> {
    Seq::new(routes.len(), |i: int| routes[i]@)
}

/// The routes of the user resource. Reading, updating and deleting are all
/// reached with GET; the path of the update is spelled `/udateUser/:id`.
pub open spec fn user_route_table() -> Seq<(Method, Seq<char>, Endpoint)> {
    seq![
        (Method::Get, "/getUser/:id"@, Endpoint::GetUser),
        (Method::Post, "/addUser"@, Endpoint::AddUser),
        (Method::Get, "/udateUser/:id"@, Endpoint::UpdateUser),
        (Method::Get, "/deleteUser/:id"@, Endpoint::DeleteUser),
    ]
}

/// The one route of the product resource.
pub open spec fn product_route_table() -> Seq<(Method, Seq<char>, Endpoint)> {
    seq![(Method::Get, "/product"@, Endpoint::Product)]
}

/// The routes of the user resource.
pub fn user_routes() -> (routes: Vec<Route>)
    ensures
        route_views(routes@) == user_route_table(),
{
    let mut routes: Vec<Route> = Vec::new();
    routes.push(Route { method: Method::Get, path: "/getUser/:id", endpoint: Endpoint::GetUser });
    routes.push(Route { method: Method::Post, path: "/addUser", endpoint: Endpoint::AddUser });
    routes.push(
        Route { method: Method::Get, path: "/udateUser/:id", endpoint: Endpoint::UpdateUser },
    );
    routes.push(
        Route { method: Method::Get, path: "/deleteUser/:id", endpoint: Endpoint::DeleteUser },
    );
    assert(route_views(routes@) =~= user_route_table());
    routes
}

/// The routes of the product resource.
pub fn product_routes() -> (routes: Vec<Route>)
    ensures
        route_views(routes@) == product_route_table(),
{
    let mut routes: Vec<Route> = Vec::new();
    routes.push(Route { method: Method::Get, path: "/product", endpoint: Endpoint::Product });
    assert(route_views(routes@) =~= product_route_table());
    routes
}

/// The whole routing table: the user routes, then the product routes.
pub fn router() -> (routes: Vec<Route>)
    ensures
        route_views(routes@) == user_route_table() + product_route_table(),
{
    let mut routes = user_routes();
    let mut others = product_routes();
    let ghost users = routes@;
    let ghost products = others@;
    routes.append(&mut others);
    assert(route_views(routes@) =~= route_views(users) + route_views(products));
    routes
}

/// The table is fit to be registered with a router that refuses a path
/// without a leading slash and a second handler for the same path: every
/// path starts with a slash, and no two routes share a path.
pub proof fn lemma_paths_are_rooted_and_distinct()
    ensures
        forall|i: int|
            0 <= i < 5 ==> {
                let path = (#[trigger] (user_route_table() + product_route_table())[i]).1;
                path.len() > 0 && path[0] == '/'
            },
        forall|i: int, j: int|
            0 <= i < j < 5 ==> (#[trigger] (user_route_table() + product_route_table())[i]).1 != (
            #[trigger] (user_route_table() + product_route_table())[j]).1,
{
    reveal_strlit("/getUser/:id");
    reveal_strlit("/addUser");
    reveal_strlit("/udateUser/:id");
    reveal_strlit("/deleteUser/:id");
    reveal_strlit("/product");
    let table = user_route_table() + product_route_table();
    assert(table[0].1 == "/getUser/:id"@);
    assert(table[1].1 == "/addUser"@);
    assert(table[2].1 == "/udateUser/:id"@);
    assert(table[3].1 == "/deleteUser/:id"@);
    assert(table[4].1 == "/product"@);
    assert("/getUser/:id"@.len() == 12);
    assert("/addUser"@.len() == 8);
    assert("/udateUser/:id"@.len() == 14);
    assert("/deleteUser/:id"@.len() == 15);
    assert("/product"@.len() == 8);
    assert("/addUser"@[1] == 'a');
    assert("/product"@[1] == 'p');
}

/// The fixed text that the product route answers with.
pub fn product_text() -> (text: &'static str)
    ensures
        text@ == "Hello, This is Product"@,
{
    "Hello, This is Product"
}

} // verus!
