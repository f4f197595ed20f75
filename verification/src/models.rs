//! The records of the planner as plain values: accounts, sessions, day plans,
//! planning columns and time blocks, with the request and response bodies.

use vstd::prelude::*;
use crate::clock::{CalendarDate, TimeOfDay, Timestamp};

verus! {

/// A registered account.
#[derive(Debug, PartialEq)]
pub struct User {
    pub id: i64,
    pub username: String,
    pub password_hash: String,
    pub created_at: Timestamp,
}

/// Body of a registration request.
#[derive(Debug, PartialEq)]
pub struct RegisterRequest {
    pub username: String,
    pub password: String,
}

/// Body of a login request.
#[derive(Debug, PartialEq)]
pub struct LoginRequest {
    pub username: String,
    pub password: String,
}

/// Answer to a successful registration or login.
#[derive(Debug, PartialEq)]
pub struct AuthResponse {
    pub user: UserResponse,
    pub session_id: String,
}

/// The public part of an account.
#[derive(Debug, PartialEq)]
pub struct UserResponse {
    pub id: i64,
    pub username: String,
}

/// A login session, valid until `expires_at`.
#[derive(Debug, PartialEq)]
pub struct Session {
    pub id: String,
    pub user_id: i64,
    pub expires_at: Timestamp,
    pub created_at: Timestamp,
}

/// The plan of one user for one day, between a start and an end time.
#[derive(Debug, PartialEq)]
pub struct Plan {
    pub id: i64,
    pub user_id: i64,
    pub plan_date: CalendarDate,
    pub start_time: TimeOfDay,
    pub end_time: TimeOfDay,
    pub created_at: Timestamp,
    pub updated_at: Timestamp,
}

/// Body of a request that creates a plan.
#[derive(Debug, PartialEq)]
pub struct CreatePlanRequest {
    pub plan_date: CalendarDate,
    pub start_time: TimeOfDay,
    pub end_time: TimeOfDay,
}

/// Body of a request that changes the hours of a plan; absent fields stay.
#[derive(Debug, PartialEq)]
pub struct UpdatePlanRequest {
    pub start_time: Option<TimeOfDay>,
    pub end_time: Option<TimeOfDay>,
}

/// A plan with its columns, each with its blocks.
#[derive(Debug, PartialEq)]
pub struct PlanResponse {
    pub plan: Plan,
    pub columns: Vec<ColumnWithBlocks>,
}

/// A planning column: the original plan of the day, or a revision made at an
/// interruption.
#[derive(Debug, PartialEq)]
pub struct Column {
    pub id: i64,
    pub plan_id: i64,
    pub column_order: i64,
    pub column_type: String,
    pub interruption_time: Option<Timestamp>,
    pub created_at: Timestamp,
}

/// A column with its time blocks.
#[derive(Debug, PartialEq)]
pub struct ColumnWithBlocks {
    pub column: Column,
    pub blocks: Vec<TimeBlock>,
}

/// Body of a request that marks an interruption in a plan.
#[derive(Debug, PartialEq)]
pub struct CreateColumnRequest {
    pub plan_id: i64,
    pub interruption_time: Timestamp,
}

/// A block of time in a column.
#[derive(Debug, PartialEq)]
pub struct TimeBlock {
    pub id: i64,
    pub column_id: i64,
    pub title: String,
    pub start_time: Timestamp,
    pub end_time: Timestamp,
    pub color: Option<String>,
    pub is_completed: bool,
    pub created_at: Timestamp,
    pub updated_at: Timestamp,
}

/// Body of a request that creates a time block.
#[derive(Debug, PartialEq)]
pub struct CreateBlockRequest {
    pub column_id: i64,
    pub title: String,
    pub start_time: Timestamp,
    pub end_time: Timestamp,
    pub color: Option<String>,
}

/// Body of a request that changes a time block; absent fields stay.
#[derive(Debug, PartialEq)]
pub struct UpdateBlockRequest {
    pub title: Option<String>,
    pub start_time: Option<Timestamp>,
    pub end_time: Option<Timestamp>,
    pub color: Option<String>,
    pub is_completed: Option<bool>,
}

} // verus!
