//! Interruption columns: a revision of the day's plan is added behind the
//! existing columns; the original column of a plan can never be removed.

use vstd::prelude::*;
use crate::auth::AuthUser;
use crate::db::{Query, Reply, ReplyKind, Step};
use crate::handlers::auth::{fails_as, text, AppError, ErrorKind};
use crate::models::{Column, CreateColumnRequest};

verus! {

/// The order given to a new revision column: one past the largest order in
/// the plan, or 1 when the plan has no column yet.
pub open spec fn next_column_order(max_order: Option<i64>) -> int {
    match max_order {
        Some(m) => m + 1,
        None => 1,
    }
}

/// The order for a new revision column.
pub fn next_order(max_order: Option<i64>) -> (order: i64)
    requires
        max_order matches Some(m) ==> m < i64::MAX,
    ensures
        order == next_column_order(max_order),
{
    match max_order {
        Some(m) => m + 1,
        None => 1,
    }
}

/// A new revision column lands behind every existing column of its plan: its
/// order exceeds the order of each column already there.
pub proof fn revision_goes_last(max_order: Option<i64>, existing_order: i64)
    requires
        max_order matches Some(m) && existing_order <= m,
    ensures
        existing_order < next_column_order(max_order),
{
}

/// A new revision column takes the very next order: no order is left free
/// between the largest order of its plan and its own; in a plan without
/// columns it takes order 1.
pub proof fn revision_takes_next_free_order(max_order: Option<i64>)
    ensures
        max_order matches Some(m) ==> next_column_order(max_order) == m + 1,
        max_order is None ==> next_column_order(max_order) == 1,
{
}

/// The flow that adds an interruption column to a plan.
pub enum CreateColumnFlow {
    /// Checking that the plan belongs to the user.
    AwaitPlan { payload: CreateColumnRequest },
    /// Reading the largest column order of the plan.
    AwaitMaxOrder { payload: CreateColumnRequest },
    /// Inserting the column.
    AwaitInsert,
    /// Reading back the new column.
    AwaitColumn,
}

impl CreateColumnFlow {
    /// The shape of reply the flow waits for.
    pub open spec fn awaiting(self) -> ReplyKind {
        match self {
            CreateColumnFlow::AwaitPlan { .. } => ReplyKind::MaybeId,
            CreateColumnFlow::AwaitMaxOrder { .. } => ReplyKind::MaybeOrder,
            CreateColumnFlow::AwaitInsert => ReplyKind::Executed,
            CreateColumnFlow::AwaitColumn => ReplyKind::ColumnRow,
        }
    }

    /// Takes the database's answer: a plan of another user is not found;
    /// otherwise a revision column stamped with the interruption time is
    /// inserted one past the plan's largest column order, and read back.
    pub fn resume(self, reply: Reply) -> (step: Step<CreateColumnFlow, Column, AppError>)
        requires
            reply.fits(self.awaiting()),
        ensures
            reply matches Reply::Failed(d) ==> step == Step::<CreateColumnFlow, Column, AppError>::Done(Err(AppError::Database(d))),
            self matches CreateColumnFlow::AwaitPlan { payload } ==> {
                &&& reply matches Reply::MaybeId(None) ==> fails_as(step, ErrorKind::NotFound, "Plan not found"@)
                &&& reply matches Reply::MaybeId(Some(_)) ==> step == Step::<CreateColumnFlow, Column, AppError>::Run(
                    CreateColumnFlow::AwaitMaxOrder { payload },
                    Query::MaxColumnOrder { plan_id: payload.plan_id },
                )
            },
            self matches CreateColumnFlow::AwaitMaxOrder { payload } ==> (reply matches Reply::MaybeOrder(m) ==> (
                step matches Step::Run(CreateColumnFlow::AwaitInsert, Query::InsertColumn {
                    plan_id,
                    column_order,
                    column_type,
                    interruption_time,
                })
                && plan_id == payload.plan_id
                && column_order == next_column_order(m)
                && column_type@ == "revision"@
                && interruption_time == Some(payload.interruption_time))),
            self is AwaitInsert ==> (reply matches Reply::Executed { last_insert_id, .. } ==>
                step == Step::<CreateColumnFlow, Column, AppError>::Run(
                    CreateColumnFlow::AwaitColumn,
                    Query::FetchColumn { id: last_insert_id },
                )),
            self is AwaitColumn ==> (reply matches Reply::ColumnRow(c) ==>
                step == Step::<CreateColumnFlow, Column, AppError>::Done(Ok(c))),
            step matches Step::Run(s, q) ==> s.awaiting() == q.reply_kind(),
    {
        match reply {
            Reply::Failed(d) => Step::Done(Err(AppError::Database(d))),
            Reply::MaybeId(found) => match self {
                CreateColumnFlow::AwaitPlan { payload } => match found {
                    None => Step::Done(Err(AppError::NotFound(text("Plan not found")))),
                    Some(_) => {
                        let plan_id = payload.plan_id;
                        Step::Run(CreateColumnFlow::AwaitMaxOrder { payload }, Query::MaxColumnOrder { plan_id })
                    },
                },
                _ => {
                    proof {
                        assert(false);
                    }
                    Step::Done(Err(AppError::Internal(text(""))))
                },
            },
            Reply::MaybeOrder(m) => match self {
                CreateColumnFlow::AwaitMaxOrder { payload } => Step::Run(
                    CreateColumnFlow::AwaitInsert,
                    Query::InsertColumn {
                        plan_id: payload.plan_id,
                        column_order: next_order(m),
                        column_type: text("revision"),
                        interruption_time: Some(payload.interruption_time),
                    },
                ),
                _ => {
                    proof {
                        assert(false);
                    }
                    Step::Done(Err(AppError::Internal(text(""))))
                },
            },
            Reply::Executed { last_insert_id, .. } => Step::Run(
                CreateColumnFlow::AwaitColumn,
                Query::FetchColumn { id: last_insert_id },
            ),
            Reply::ColumnRow(c) => Step::Done(Ok(c)),
            _ => {
                proof {
                    assert(false);
                }
                Step::Done(Err(AppError::Internal(text(""))))
            },
        }
    }
}

/// Starts adding a column by checking that the plan belongs to the user.
pub fn create_column(auth_user: AuthUser, payload: CreateColumnRequest) -> (step: Step<CreateColumnFlow, Column, AppError>)
    ensures
        step == Step::<CreateColumnFlow, Column, AppError>::Run(
            CreateColumnFlow::AwaitPlan { payload },
            Query::FindOwnedPlan { plan_id: payload.plan_id, user_id: auth_user.0.id },
        ),
{
    let plan_id = payload.plan_id;
    Step::Run(CreateColumnFlow::AwaitPlan { payload }, Query::FindOwnedPlan { plan_id, user_id: auth_user.0.id })
}

/// The flow that removes an interruption column.
pub enum DeleteColumnFlow {
    /// Reading the type of the column, if it lies in a plan of the user.
    AwaitColumn { id: i64 },
    /// Removing the column.
    AwaitDelete,
}

impl DeleteColumnFlow {
    /// The shape of reply the flow waits for.
    pub open spec fn awaiting(self) -> ReplyKind {
        match self {
            DeleteColumnFlow::AwaitColumn { .. } => ReplyKind::MaybeColumnType,
            DeleteColumnFlow::AwaitDelete => ReplyKind::Executed,
        }
    }

    /// Takes the database's answer: a column outside the user's plans is not
    /// found, the original column is refused, any other is removed.
    pub fn resume(self, reply: Reply) -> (step: Step<DeleteColumnFlow, (), AppError>)
        requires
            reply.fits(self.awaiting()),
        ensures
            reply matches Reply::Failed(d) ==> step == Step::<DeleteColumnFlow, (), AppError>::Done(Err(AppError::Database(d))),
            self matches DeleteColumnFlow::AwaitColumn { id } ==> {
                &&& reply matches Reply::MaybeColumnType(None) ==> fails_as(step, ErrorKind::NotFound, "Column not found"@)
                &&& reply matches Reply::MaybeColumnType(Some(t)) ==> if t@ == "original"@ {
                    fails_as(step, ErrorKind::BadRequest, "Cannot delete the original column"@)
                } else {
                    step == Step::<DeleteColumnFlow, (), AppError>::Run(DeleteColumnFlow::AwaitDelete, Query::DeleteColumn { id })
                }
            },
            self is AwaitDelete ==> (reply is Executed ==> step == Step::<DeleteColumnFlow, (), AppError>::Done(Ok(()))),
            step matches Step::Run(s, q) ==> s.awaiting() == q.reply_kind(),
    {
        match reply {
            Reply::Failed(d) => Step::Done(Err(AppError::Database(d))),
            Reply::MaybeColumnType(found) => match self {
                DeleteColumnFlow::AwaitColumn { id } => match found {
                    None => Step::Done(Err(AppError::NotFound(text("Column not found")))),
                    Some(t) => {
                        if t == text("original") {
                            Step::Done(Err(AppError::BadRequest(text("Cannot delete the original column"))))
                        } else {
                            Step::Run(DeleteColumnFlow::AwaitDelete, Query::DeleteColumn { id })
                        }
                    },
                },
                _ => {
                    proof {
                        assert(false);
                    }
                    Step::Done(Ok(()))
                },
            },
            _ => Step::Done(Ok(())),
        }
    }
}

/// Starts removing column `id` by reading its type, if the column lies in
/// a plan of the user.
pub fn delete_column(auth_user: AuthUser, id: i64) -> (step: Step<DeleteColumnFlow, (), AppError>)
    ensures
        step == Step::<DeleteColumnFlow, (), AppError>::Run(
            DeleteColumnFlow::AwaitColumn { id },
            Query::FindOwnedColumnType { column_id: id, user_id: auth_user.0.id },
        ),
{
    Step::Run(DeleteColumnFlow::AwaitColumn { id }, Query::FindOwnedColumnType { column_id: id, user_id: auth_user.0.id })
}

} // verus!
