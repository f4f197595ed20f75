//! Decision logic of a daily time-blocking planner: account and session rules,
//! password checks, and the request flows over plans, interruption columns and
//! time blocks. Database access, HTTP and serialisation live outside this crate;
//! the flows here say which query to run next and what to answer.

pub mod clock;
pub mod models;
pub mod db;
pub mod auth;
pub mod handlers;
