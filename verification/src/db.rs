//! The conversation between a request flow and the database: the queries a flow
//! asks for, the replies it is handed back, and the step a flow takes next.

use vstd::prelude::*;
use crate::clock::{CalendarDate, TimeOfDay, Timestamp};
use crate::models::{Column, Plan, Session, TimeBlock, User};

verus! {

/// One change to a stored time block.
#[derive(Debug, PartialEq)]
pub enum BlockChange {
    Title(String),
    StartTime(Timestamp),
    EndTime(Timestamp),
    Color(String),
    Completed(bool),
}

/// One change to a stored plan.
#[derive(Debug, PartialEq)]
pub enum PlanChange {
    StartTime(TimeOfDay),
    EndTime(TimeOfDay),
}

/// A database operation that a flow needs performed. The comment on each
/// variant names the reply it is answered with.
#[derive(Debug, PartialEq)]
pub enum Query {
    /// Id of the account with this name, if any: `MaybeId`.
    FindUserIdByName { username: String },
    /// Store a new account: `Executed`.
    InsertUser { username: String, password_hash: String },
    /// The account with this id, which must exist: `UserRow`.
    FetchUser { id: i64 },
    /// The account with this id, if any: `MaybeUser`.
    FindUser { id: i64 },
    /// The account with this name, if any: `MaybeUser`.
    FindUserByName { username: String },
    /// Store a new session: `Executed`.
    InsertSession { id: String, user_id: i64, expires_at: Timestamp },
    /// The session with this id, if any: `MaybeSession`.
    FindSession { id: String },
    /// Remove the session with this id: `Executed`.
    DeleteSession { id: String },
    /// Id of this column if it lies in a plan of this user: `MaybeId`.
    FindOwnedColumn { column_id: i64, user_id: i64 },
    /// Store a new time block: `Executed`.
    InsertBlock {
        column_id: i64,
        title: String,
        start_time: Timestamp,
        end_time: Timestamp,
        color: Option<String>,
    },
    /// The time block with this id, which must exist: `BlockRow`.
    FetchBlock { id: i64 },
    /// Id of this block if it lies in a plan of this user: `MaybeId`.
    FindOwnedBlock { block_id: i64, user_id: i64 },
    /// Apply one change to a block and stamp it: `Executed`.
    UpdateBlock { id: i64, change: BlockChange, updated_at: Timestamp },
    /// Remove this block if it lies in a plan of this user: `Executed`.
    DeleteOwnedBlock { block_id: i64, user_id: i64 },
    /// Id of this plan if it belongs to this user: `MaybeId`.
    FindOwnedPlan { plan_id: i64, user_id: i64 },
    /// Largest column order in this plan, if it has columns: `MaybeOrder`.
    MaxColumnOrder { plan_id: i64 },
    /// Store a new column: `Executed`.
    InsertColumn {
        plan_id: i64,
        column_order: i64,
        column_type: String,
        interruption_time: Option<Timestamp>,
    },
    /// The column with this id, which must exist: `ColumnRow`.
    FetchColumn { id: i64 },
    /// Type of this column if it lies in a plan of this user: `MaybeColumnType`.
    FindOwnedColumnType { column_id: i64, user_id: i64 },
    /// Remove the column with this id: `Executed`.
    DeleteColumn { id: i64 },
    /// All plans of this user, latest day first: `PlanRows`.
    ListPlans { user_id: i64 },
    /// The plan of this user for this day, if any: `MaybePlan`.
    FindPlanByDate { user_id: i64, date: CalendarDate },
    /// Id of the plan of this user for this day, if any: `MaybeId`.
    FindPlanIdByDate { user_id: i64, date: CalendarDate },
    /// Store a new plan: `Executed`.
    InsertPlan { user_id: i64, date: CalendarDate, start_time: TimeOfDay, end_time: TimeOfDay },
    /// The plan with this id, which must exist: `PlanRow`.
    FetchPlan { id: i64 },
    /// Apply one change to a plan and stamp it: `Executed`.
    UpdatePlan { id: i64, change: PlanChange, updated_at: Timestamp },
    /// Remove this plan if it belongs to this user: `Executed`.
    DeleteOwnedPlan { plan_id: i64, user_id: i64 },
    /// The columns of this plan in column order: `ColumnRows`.
    ListColumns { plan_id: i64 },
    /// The blocks of this column by start time: `BlockRows`.
    ListBlocks { column_id: i64 },
}

/// What the database answered.
#[derive(Debug, PartialEq)]
pub enum Reply {
    /// The operation failed; the text describes the failure.
    Failed(String),
    /// A statement ran.
    Executed { rows_affected: u64, last_insert_id: i64 },
    MaybeId(Option<i64>),
    MaybeOrder(Option<i64>),
    MaybeColumnType(Option<String>),
    MaybeUser(Option<User>),
    UserRow(User),
    MaybeSession(Option<Session>),
    MaybePlan(Option<Plan>),
    PlanRow(Plan),
    PlanRows(Vec<Plan>),
    ColumnRow(Column),
    ColumnRows(Vec<Column>),
    BlockRow(TimeBlock),
    BlockRows(Vec<TimeBlock>),
}

/// The shape of a successful reply.
#[derive(Debug, Clone, Copy, PartialEq, Eq, Structural)]
pub enum ReplyKind {
    Executed,
    MaybeId,
    MaybeOrder,
    MaybeColumnType,
    MaybeUser,
    UserRow,
    MaybeSession,
    MaybePlan,
    PlanRow,
    PlanRows,
    ColumnRow,
    ColumnRows,
    BlockRow,
    BlockRows,
}

/// The next move of a request flow: run a query and resume the flow with the
/// reply, or finish with an answer.
pub enum Step<S, T, E> {
    Run(S, Query),
    Done(Result<T, E>),
}

impl<S, T, E> Step<S, T, E> {
    /// Whether the step finishes with this error.
    pub open spec fn fails_with(self, e: E) -> bool {
        self matches Step::Done(Err(x)) && x == e
    }

    /// Whether the step runs this query next.
    pub open spec fn runs(self, q: Query) -> bool {
        self matches Step::Run(_, x) && x == q
    }
}

/// Whether `outer` is the step `inner` of a flow nested in another one: the
/// inner flow's query is run with the outer flow wrapped around it by `wrap`,
/// and its answer is the outer answer.
pub open spec fn lifted<A, B, T, E>(inner: Step<A, T, E>, outer: Step<B, T, E>, wrap: spec_fn(A) -> B) -> bool {
    match inner {
        Step::Run(a, q) => outer == Step::<B, T, E>::Run(wrap(a), q),
        Step::Done(r) => outer == Step::<B, T, E>::Done(r),
    }
}

/// A flow nested in another runs its queries unchanged, with the outer flow
/// wrapped around its own, and its answer, or failure, is the outer one.
pub proof fn nested_flow_keeps_queries_and_answer<A, B, T, E>(inner: Step<A, T, E>, outer: Step<B, T, E>, wrap: spec_fn(A) -> B)
    requires
        lifted(inner, outer, wrap),
    ensures
        inner matches Step::Run(a, q) ==> (outer matches Step::Run(b, q2) && q2 == q && b == wrap(a)),
        inner matches Step::Done(r) ==> (outer matches Step::Done(r2) && r2 == r),
{
}

impl Query {
    /// The shape of a successful reply to this query.
    pub open spec fn reply_kind(self) -> ReplyKind {
        match self {
            Query::FindUserIdByName { .. } => ReplyKind::MaybeId,
            Query::InsertUser { .. } => ReplyKind::Executed,
            Query::FetchUser { .. } => ReplyKind::UserRow,
            Query::FindUser { .. } => ReplyKind::MaybeUser,
            Query::FindUserByName { .. } => ReplyKind::MaybeUser,
            Query::InsertSession { .. } => ReplyKind::Executed,
            Query::FindSession { .. } => ReplyKind::MaybeSession,
            Query::DeleteSession { .. } => ReplyKind::Executed,
            Query::FindOwnedColumn { .. } => ReplyKind::MaybeId,
            Query::InsertBlock { .. } => ReplyKind::Executed,
            Query::FetchBlock { .. } => ReplyKind::BlockRow,
            Query::FindOwnedBlock { .. } => ReplyKind::MaybeId,
            Query::UpdateBlock { .. } => ReplyKind::Executed,
            Query::DeleteOwnedBlock { .. } => ReplyKind::Executed,
            Query::FindOwnedPlan { .. } => ReplyKind::MaybeId,
            Query::MaxColumnOrder { .. } => ReplyKind::MaybeOrder,
            Query::InsertColumn { .. } => ReplyKind::Executed,
            Query::FetchColumn { .. } => ReplyKind::ColumnRow,
            Query::FindOwnedColumnType { .. } => ReplyKind::MaybeColumnType,
            Query::DeleteColumn { .. } => ReplyKind::Executed,
            Query::ListPlans { .. } => ReplyKind::PlanRows,
            Query::FindPlanByDate { .. } => ReplyKind::MaybePlan,
            Query::FindPlanIdByDate { .. } => ReplyKind::MaybeId,
            Query::InsertPlan { .. } => ReplyKind::Executed,
            Query::FetchPlan { .. } => ReplyKind::PlanRow,
            Query::UpdatePlan { .. } => ReplyKind::Executed,
            Query::DeleteOwnedPlan { .. } => ReplyKind::Executed,
            Query::ListColumns { .. } => ReplyKind::ColumnRows,
            Query::ListBlocks { .. } => ReplyKind::BlockRows,
        }
    }
}

impl Reply {
    /// The shape of this reply, if it is not a failure.
    pub open spec fn kind(self) -> Option<ReplyKind> {
        match self {
            Reply::Failed(_) => None,
            Reply::Executed { .. } => Some(ReplyKind::Executed),
            Reply::MaybeId(_) => Some(ReplyKind::MaybeId),
            Reply::MaybeOrder(_) => Some(ReplyKind::MaybeOrder),
            Reply::MaybeColumnType(_) => Some(ReplyKind::MaybeColumnType),
            Reply::MaybeUser(_) => Some(ReplyKind::MaybeUser),
            Reply::UserRow(_) => Some(ReplyKind::UserRow),
            Reply::MaybeSession(_) => Some(ReplyKind::MaybeSession),
            Reply::MaybePlan(_) => Some(ReplyKind::MaybePlan),
            Reply::PlanRow(_) => Some(ReplyKind::PlanRow),
            Reply::PlanRows(_) => Some(ReplyKind::PlanRows),
            Reply::ColumnRow(_) => Some(ReplyKind::ColumnRow),
            Reply::ColumnRows(_) => Some(ReplyKind::ColumnRows),
            Reply::BlockRow(_) => Some(ReplyKind::BlockRow),
            Reply::BlockRows(_) => Some(ReplyKind::BlockRows),
        }
    }

    /// Whether this reply can answer a query whose successful replies have
    /// shape `kind`: a failure always can; a largest column order must leave
    /// room for one more.
    pub open spec fn fits(self, kind: ReplyKind) -> bool {
        match self.kind() {
            None => true,
            Some(k) => {
                &&& k == kind
                &&& (self matches Reply::MaybeOrder(Some(m)) ==> m < i64::MAX)
            },
        }
    }

    /// Whether this reply can answer `query`. A program that runs the queries
    /// calls this before it hands the reply back to a flow.
    pub fn answers(&self, query: &Query) -> (b: bool)
        ensures
            b == self.fits(query.reply_kind()),
    {
        let kind = query.kind_of_reply();
        match self {
            Reply::Failed(_) => true,
            Reply::Executed { .. } => matches!(kind, ReplyKind::Executed),
            Reply::MaybeId(_) => matches!(kind, ReplyKind::MaybeId),
            Reply::MaybeOrder(m) => matches!(kind, ReplyKind::MaybeOrder) && match m {
                Some(v) => *v < i64::MAX,
                None => true,
            },
            Reply::MaybeColumnType(_) => matches!(kind, ReplyKind::MaybeColumnType),
            Reply::MaybeUser(_) => matches!(kind, ReplyKind::MaybeUser),
            Reply::UserRow(_) => matches!(kind, ReplyKind::UserRow),
            Reply::MaybeSession(_) => matches!(kind, ReplyKind::MaybeSession),
            Reply::MaybePlan(_) => matches!(kind, ReplyKind::MaybePlan),
            Reply::PlanRow(_) => matches!(kind, ReplyKind::PlanRow),
            Reply::PlanRows(_) => matches!(kind, ReplyKind::PlanRows),
            Reply::ColumnRow(_) => matches!(kind, ReplyKind::ColumnRow),
            Reply::ColumnRows(_) => matches!(kind, ReplyKind::ColumnRows),
            Reply::BlockRow(_) => matches!(kind, ReplyKind::BlockRow),
            Reply::BlockRows(_) => matches!(kind, ReplyKind::BlockRows),
        }
    }
}

impl Query {
    /// The shape of a successful reply to this query.
    pub fn kind_of_reply(&self) -> (k: ReplyKind)
        ensures
            k == self.reply_kind(),
    {
        match self {
            Query::FindUserIdByName { .. } => ReplyKind::MaybeId,
            Query::InsertUser { .. } => ReplyKind::Executed,
            Query::FetchUser { .. } => ReplyKind::UserRow,
            Query::FindUser { .. } => ReplyKind::MaybeUser,
            Query::FindUserByName { .. } => ReplyKind::MaybeUser,
            Query::InsertSession { .. } => ReplyKind::Executed,
            Query::FindSession { .. } => ReplyKind::MaybeSession,
            Query::DeleteSession { .. } => ReplyKind::Executed,
            Query::FindOwnedColumn { .. } => ReplyKind::MaybeId,
            Query::InsertBlock { .. } => ReplyKind::Executed,
            Query::FetchBlock { .. } => ReplyKind::BlockRow,
            Query::FindOwnedBlock { .. } => ReplyKind::MaybeId,
            Query::UpdateBlock { .. } => ReplyKind::Executed,
            Query::DeleteOwnedBlock { .. } => ReplyKind::Executed,
            Query::FindOwnedPlan { .. } => ReplyKind::MaybeId,
            Query::MaxColumnOrder { .. } => ReplyKind::MaybeOrder,
            Query::InsertColumn { .. } => ReplyKind::Executed,
            Query::FetchColumn { .. } => ReplyKind::ColumnRow,
            Query::FindOwnedColumnType { .. } => ReplyKind::MaybeColumnType,
            Query::DeleteColumn { .. } => ReplyKind::Executed,
            Query::ListPlans { .. } => ReplyKind::PlanRows,
            Query::FindPlanByDate { .. } => ReplyKind::MaybePlan,
            Query::FindPlanIdByDate { .. } => ReplyKind::MaybeId,
            Query::InsertPlan { .. } => ReplyKind::Executed,
            Query::FetchPlan { .. } => ReplyKind::PlanRow,
            Query::UpdatePlan { .. } => ReplyKind::Executed,
            Query::DeleteOwnedPlan { .. } => ReplyKind::Executed,
            Query::ListColumns { .. } => ReplyKind::ColumnRows,
            Query::ListBlocks { .. } => ReplyKind::BlockRows,
        }
    }
}

} // verus!
