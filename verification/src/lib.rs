//! The rules of a small service that keeps users in a document database.
//!
//! A request is decided in two steps, with the database call between them.
//! The first step looks at the request and either answers it at once or
//! names the one call that the shared client is to make; the second turns
//! the outcome of that call into the answer. Both steps are plain functions:
//! the caller owns the sockets, the runtime and the driver's client.

pub mod connection;
pub mod controller;
pub mod document;
pub mod envelope;
pub mod identifier;
pub mod laws;
pub mod routes;
pub mod text;
pub mod user;

pub use connection::{connect_db, mongo_client, ConnectOutcome, ConnectionCell};
pub use controller::{
    add_user, add_user_at, add_user_reply, delete_user, delete_user_reply, get_user,
    get_user_reply, update_user, update_user_at, update_user_reply, DeleteOne, FindOne,
    users_collection, InsertOne, Step, UpdateCounts, UpdateOne,
};
pub use envelope::{
    handle_db_error, handle_invalid_id_error, ApiResponse, ErrorDetail, ErrorKind,
};
pub use routes::{product_routes, product_text, router, user_routes, Endpoint, Method, Route};
pub use user::User;
