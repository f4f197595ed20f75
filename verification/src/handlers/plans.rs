//! Day plans: listing them, opening the plan of a day (made on first use),
//! creating, changing and removing a plan, and gathering a plan's columns with
//! their blocks.

use vstd::prelude::*;
use crate::auth::AuthUser;
use crate::clock::{utc_now, MAX_TIMESTAMP_SECS, NANOS_PER_SEC, CalendarDate, TimeOfDay, Timestamp};
use crate::db::{lifted, PlanChange, Query, Reply, ReplyKind, Step};
use crate::handlers::auth::{fails_as, text, AppError, ErrorKind};
use crate::models::{Column, ColumnWithBlocks, CreatePlanRequest, Plan, PlanResponse, UpdatePlanRequest};

verus! {

/// The columns of a list of columns with blocks, in order.
pub open spec fn columns_of(cwbs: Seq<ColumnWithBlocks>) -> Seq<Column> {
    cwbs.map_values(|c: ColumnWithBlocks| c.column)
}

/// The flow that gathers the columns of a plan, each with its blocks.
pub enum ColumnsFlow {
    /// Listing the plan's columns.
    AwaitColumns,
    /// Listing the blocks of `current`; `done` are the columns gathered so far,
    /// `rest` those still to come, `listed` all columns of the plan.
    AwaitBlocks {
        done: Vec<ColumnWithBlocks>,
        current: Column,
        rest: Vec<Column>,
        listed: Ghost<Seq<Column>>,
    },
}

/// Whether `step` goes on gathering after `done`, with the columns `rest` still
/// to come out of `listed`: it lists the blocks of the next column, or answers
/// `done` when no column is left.
pub open spec fn gathers(
    step: Step<ColumnsFlow, Vec<ColumnWithBlocks>, AppError>,
    done: Seq<ColumnWithBlocks>,
    rest: Seq<Column>,
    listed: Seq<Column>,
) -> bool {
    if rest.len() == 0 {
        step matches Step::Done(Ok(r)) && r@ == done
    } else {
        step matches Step::Run(ColumnsFlow::AwaitBlocks { done: d, current, rest: r, listed: l }, q)
            && d@ == done && current == rest[0] && r@ == rest.drop_first() && l@ == listed
            && q == (Query::ListBlocks { column_id: rest[0].id })
    }
}

impl ColumnsFlow {
    /// The shape of reply the flow waits for.
    pub open spec fn awaiting(self) -> ReplyKind {
        match self {
            ColumnsFlow::AwaitColumns => ReplyKind::ColumnRows,
            ColumnsFlow::AwaitBlocks { .. } => ReplyKind::BlockRows,
        }
    }

    /// The gathered columns, the current one and those to come make up the
    /// plan's column list.
    pub open spec fn wf(self) -> bool {
        match self {
            ColumnsFlow::AwaitColumns => true,
            ColumnsFlow::AwaitBlocks { done, current, rest, listed } =>
                columns_of(done@) + seq![current] + rest@ == listed@,
        }
    }

    /// The plan's column list, as known once `reply` has arrived.
    pub open spec fn listing(self, reply: Reply) -> Seq<Column> {
        match self {
            ColumnsFlow::AwaitColumns => match reply {
                Reply::ColumnRows(cols) => cols@,
                _ => Seq::empty(),
            },
            ColumnsFlow::AwaitBlocks { listed, .. } => listed@,
        }
    }

    /// How the flow moves on `reply`: a failure ends it; the column list
    /// starts the gathering; the blocks of the current column are paired with
    /// it and the gathering goes on.
    pub open spec fn moves(self, reply: Reply, step: Step<ColumnsFlow, Vec<ColumnWithBlocks>, AppError>) -> bool {
        &&& reply matches Reply::Failed(d) ==> step == Step::<ColumnsFlow, Vec<ColumnWithBlocks>, AppError>::Done(Err(AppError::Database(d)))
        &&& self is AwaitColumns ==> (reply matches Reply::ColumnRows(cols) ==> gathers(step, Seq::empty(), cols@, cols@))
        &&& self matches ColumnsFlow::AwaitBlocks { done, current, rest, listed } ==> (reply matches Reply::BlockRows(bs)
            ==> gathers(step, done@.push(ColumnWithBlocks { column: current, blocks: bs }), rest@, listed@))
    }

    /// Lists the blocks of the next column, or answers when none is left.
    fn gather_next(done: Vec<ColumnWithBlocks>, rest: Vec<Column>, listed: Ghost<Seq<Column>>) -> (step: Step<ColumnsFlow, Vec<ColumnWithBlocks>, AppError>)
        ensures
            gathers(step, done@, rest@, listed@),
    {
        let mut rest = rest;
        if rest.len() == 0 {
            Step::Done(Ok(done))
        } else {
            let current = rest.remove(0);
            let column_id = current.id;
            Step::Run(ColumnsFlow::AwaitBlocks { done, current, rest, listed }, Query::ListBlocks { column_id })
        }
    }

    /// Takes the database's answer and moves the gathering on.
    pub fn resume(self, reply: Reply) -> (step: Step<ColumnsFlow, Vec<ColumnWithBlocks>, AppError>)
        requires
            reply.fits(self.awaiting()),
        ensures
            self.moves(reply, step),
            step matches Step::Run(s, q) ==> s.awaiting() == q.reply_kind(),
    {
        match reply {
            Reply::Failed(d) => Step::Done(Err(AppError::Database(d))),
            Reply::ColumnRows(cols) => {
                let ghost listed = cols@;
                Self::gather_next(Vec::new(), cols, Ghost(listed))
            },
            Reply::BlockRows(blocks) => match self {
                ColumnsFlow::AwaitBlocks { done, current, rest, listed } => {
                    let mut done = done;
                    done.push(ColumnWithBlocks { column: current, blocks });
                    Self::gather_next(done, rest, listed)
                },
                _ => {
                    proof {
                        assert(false);
                    }
                    Step::Done(Err(AppError::Internal(text(""))))
                },
            },
            _ => {
                proof {
                    assert(false);
                }
                Step::Done(Err(AppError::Internal(text(""))))
            },
        }
    }
}

/// Starts gathering the columns of plan `plan_id`.
pub fn fetch_columns_with_blocks(plan_id: i64) -> (step: Step<ColumnsFlow, Vec<ColumnWithBlocks>, AppError>)
    ensures
        step == Step::<ColumnsFlow, Vec<ColumnWithBlocks>, AppError>::Run(ColumnsFlow::AwaitColumns, Query::ListColumns { plan_id }),
{
    Step::Run(ColumnsFlow::AwaitColumns, Query::ListColumns { plan_id })
}

/// The columns of a plan are answered in the order the database listed them,
/// each exactly once, each paired with the blocks read for it: every step of
/// the gathering keeps the flow well formed, and its answer lists exactly the
/// plan's columns.
pub proof fn gathering_keeps_column_order(flow: ColumnsFlow, reply: Reply, step: Step<ColumnsFlow, Vec<ColumnWithBlocks>, AppError>)
    requires
        flow.wf(),
        reply.fits(flow.awaiting()),
        flow.moves(reply, step),
    ensures
        step matches Step::Run(s, _) ==> s.wf() && s.listing(reply) == flow.listing(reply),
        step matches Step::Done(Ok(r)) ==> columns_of(r@) == flow.listing(reply),
{
    match reply {
        Reply::ColumnRows(cols) => {
            assert(columns_of(Seq::<ColumnWithBlocks>::empty()) =~= Seq::<Column>::empty());
            if cols@.len() > 0 {
                assert(Seq::<Column>::empty() + seq![cols@[0]] + cols@.drop_first() =~= cols@);
            }
        },
        Reply::BlockRows(bs) => {
            if let ColumnsFlow::AwaitBlocks { done, current, rest, listed } = flow {
                let pushed = done@.push(ColumnWithBlocks { column: current, blocks: bs });
                assert(columns_of(pushed) =~= columns_of(done@).push(current));
                if rest@.len() > 0 {
                    assert(columns_of(pushed) + seq![rest@[0]] + rest@.drop_first() =~= columns_of(done@) + seq![current] + rest@);
                } else {
                    assert(columns_of(pushed) =~= columns_of(done@) + seq![current] + rest@);
                }
            }
        },
        _ => {},
    }
}

/// Whether `flows`, `replies`, `queries` and `answer` make up a whole run of
/// the gathering: the k-th flow took the k-th reply, which fit it, and moved
/// on to the next flow with the k-th query, or, for the last flow, answered
/// `answer`.
pub open spec fn gathering_run(
    flows: Seq<ColumnsFlow>,
    replies: Seq<Reply>,
    queries: Seq<Query>,
    answer: Vec<ColumnWithBlocks>,
) -> bool {
    &&& flows.len() > 0
    &&& replies.len() == flows.len()
    &&& queries.len() + 1 == flows.len()
    &&& forall|k: int| 0 <= k < flows.len() ==> #[trigger] replies[k].fits(flows[k].awaiting())
    &&& forall|k: int| #![trigger queries[k]] 0 <= k < queries.len() ==>
        flows[k].moves(replies[k], Step::<ColumnsFlow, Vec<ColumnWithBlocks>, AppError>::Run(flows[k + 1], queries[k]))
    &&& flows.last().moves(replies.last(), Step::<ColumnsFlow, Vec<ColumnWithBlocks>, AppError>::Done(Ok(answer)))
}

/// A gathering that ends in an answer pairs every listed column with exactly
/// the blocks read for it, the last column included: the first reply lists
/// the columns `cols`; then the blocks of each column are asked for in turn,
/// and the i-th answered column is `cols[i]` with the blocks that the reply
/// to the i-th block listing held.
pub proof fn gathering_pairs_each_column_with_its_blocks(
    flows: Seq<ColumnsFlow>,
    replies: Seq<Reply>,
    queries: Seq<Query>,
    answer: Vec<ColumnWithBlocks>,
)
    requires
        gathering_run(flows, replies, queries, answer),
        flows[0] is AwaitColumns,
    ensures
        replies[0] matches Reply::ColumnRows(cols) && {
            &&& answer@.len() == cols@.len()
            &&& queries.len() == cols@.len()
            &&& forall|i: int| #![trigger answer@[i]] 0 <= i < cols@.len() ==> {
                &&& queries[i] == (Query::ListBlocks { column_id: cols@[i].id })
                &&& replies[i + 1] matches Reply::BlockRows(bs) && answer@[i] == (ColumnWithBlocks { column: cols@[i], blocks: bs })
            }
        },
{
    assert(replies[0].fits(flows[0].awaiting()));
    if queries.len() > 0 {
        assert(flows[0].moves(replies[0], Step::<ColumnsFlow, Vec<ColumnWithBlocks>, AppError>::Run(flows[1], queries[0])));
    }
    if let Reply::ColumnRows(cols) = replies[0] {
        if cols@.len() == 0 {
            assert(answer@ =~= Seq::<ColumnWithBlocks>::empty());
        } else {
            assert(cols@.skip(1) =~= cols@.drop_first());
            lemma_gathering_goes_on(flows, replies, queries, answer, cols@, 1);
        }
    }
}

/// The rest of a gathering run, from its k-th flow on, where the first k - 1
/// columns have been paired with their blocks.
proof fn lemma_gathering_goes_on(
    flows: Seq<ColumnsFlow>,
    replies: Seq<Reply>,
    queries: Seq<Query>,
    answer: Vec<ColumnWithBlocks>,
    cols: Seq<Column>,
    k: int,
)
    requires
        gathering_run(flows, replies, queries, answer),
        1 <= k < flows.len(),
        k <= cols.len(),
        forall|i: int| 0 <= i < k ==> #[trigger] queries[i] == (Query::ListBlocks { column_id: cols[i].id }),
        flows[k] matches ColumnsFlow::AwaitBlocks { done, current, rest, listed } && {
            &&& done@.len() == k - 1
            &&& current == cols[k - 1]
            &&& rest@ == cols.skip(k)
            &&& listed@ == cols
            &&& forall|i: int| #![trigger done@[i]] 0 <= i < k - 1 ==>
                (replies[i + 1] matches Reply::BlockRows(bs) && done@[i] == (ColumnWithBlocks { column: cols[i], blocks: bs }))
        },
    ensures
        answer@.len() == cols.len(),
        queries.len() == cols.len(),
        forall|i: int| #![trigger answer@[i]] 0 <= i < cols.len() ==> {
            &&& queries[i] == (Query::ListBlocks { column_id: cols[i].id })
            &&& replies[i + 1] matches Reply::BlockRows(bs) && answer@[i] == (ColumnWithBlocks { column: cols[i], blocks: bs })
        },
    decreases flows.len() - k,
{
    assert(replies[k].fits(flows[k].awaiting()));
    if k < queries.len() {
        assert(flows[k].moves(replies[k], Step::<ColumnsFlow, Vec<ColumnWithBlocks>, AppError>::Run(flows[k + 1], queries[k])));
    }
    if let ColumnsFlow::AwaitBlocks { done, current, rest, listed } = flows[k] {
        if let Reply::BlockRows(bs) = replies[k] {
            let pushed = done@.push(ColumnWithBlocks { column: current, blocks: bs });
            if rest@.len() == 0 {
                assert(answer@ == pushed);
            } else {
                assert(cols.skip(k + 1) =~= cols.skip(k).drop_first());
                lemma_gathering_goes_on(flows, replies, queries, answer, cols, k + 1);
            }
        }
    }
}

/// The flow that shows a plan with its columns and blocks.
pub struct PlanViewFlow {
    pub plan: Plan,
    pub columns: ColumnsFlow,
}

/// Whether `outer` is the step `inner` of the column gathering, shown as the
/// view of `plan`.
pub open spec fn shows_plan(
    inner: Step<ColumnsFlow, Vec<ColumnWithBlocks>, AppError>,
    outer: Step<PlanViewFlow, PlanResponse, AppError>,
    plan: Plan,
) -> bool {
    match inner {
        Step::Run(c, q) => outer == Step::<PlanViewFlow, PlanResponse, AppError>::Run(PlanViewFlow { plan, columns: c }, q),
        Step::Done(Ok(v)) => outer == Step::<PlanViewFlow, PlanResponse, AppError>::Done(Ok(PlanResponse { plan, columns: v })),
        Step::Done(Err(e)) => outer == Step::<PlanViewFlow, PlanResponse, AppError>::Done(Err(e)),
    }
}

impl PlanViewFlow {
    /// The shape of reply the flow waits for.
    pub open spec fn awaiting(self) -> ReplyKind {
        self.columns.awaiting()
    }

    /// How the flow moves on `reply`: as the column gathering does, with the
    /// plan attached to the answer.
    pub open spec fn moves(self, reply: Reply, step: Step<PlanViewFlow, PlanResponse, AppError>) -> bool {
        exists|inner: Step<ColumnsFlow, Vec<ColumnWithBlocks>, AppError>|
            #![trigger self.columns.moves(reply, inner)]
            self.columns.moves(reply, inner) && shows_plan(inner, step, self.plan)
    }

    /// Starts showing `plan` by listing its columns.
    pub fn show(plan: Plan) -> (step: Step<PlanViewFlow, PlanResponse, AppError>)
        ensures
            step == Step::<PlanViewFlow, PlanResponse, AppError>::Run(
                PlanViewFlow { plan, columns: ColumnsFlow::AwaitColumns },
                Query::ListColumns { plan_id: plan.id },
            ),
    {
        let plan_id = plan.id;
        Step::Run(PlanViewFlow { plan, columns: ColumnsFlow::AwaitColumns }, Query::ListColumns { plan_id })
    }

    /// Takes the database's answer and moves the gathering on.
    pub fn resume(self, reply: Reply) -> (step: Step<PlanViewFlow, PlanResponse, AppError>)
        requires
            reply.fits(self.awaiting()),
        ensures
            self.moves(reply, step),
            step matches Step::Run(s, q) ==> s.awaiting() == q.reply_kind(),
    {
        let ghost columns = self.columns;
        let plan = self.plan;
        let inner = self.columns.resume(reply);
        let ghost g = inner;
        let step = match inner {
            Step::Run(c, q) => Step::Run(PlanViewFlow { plan, columns: c }, q),
            Step::Done(Ok(v)) => Step::Done(Ok(PlanResponse { plan, columns: v })),
            Step::Done(Err(e)) => Step::Done(Err(e)),
        };
        assert(columns.moves(reply, g) && shows_plan(g, step, self.plan));
        step
    }
}

/// Whether `flows`, `replies`, `queries` and `answer` make up a whole run of
/// showing a plan: the k-th flow took the k-th reply, which fit it, and moved
/// on to the next flow with the k-th query, or, for the last flow, answered
/// `answer`.
pub open spec fn view_run(
    flows: Seq<PlanViewFlow>,
    replies: Seq<Reply>,
    queries: Seq<Query>,
    answer: PlanResponse,
) -> bool {
    &&& flows.len() > 0
    &&& replies.len() == flows.len()
    &&& queries.len() + 1 == flows.len()
    &&& forall|k: int| 0 <= k < flows.len() ==> #[trigger] replies[k].fits(flows[k].awaiting())
    &&& forall|k: int| #![trigger queries[k]] 0 <= k < queries.len() ==>
        flows[k].moves(replies[k], Step::<PlanViewFlow, PlanResponse, AppError>::Run(flows[k + 1], queries[k]))
    &&& flows.last().moves(replies.last(), Step::<PlanViewFlow, PlanResponse, AppError>::Done(Ok(answer)))
}

/// Showing a plan answers that very plan with every listed column, in the
/// order listed, each with exactly the blocks read for it, the last column
/// included.
pub proof fn plan_view_shows_each_column_with_its_blocks(
    flows: Seq<PlanViewFlow>,
    replies: Seq<Reply>,
    queries: Seq<Query>,
    answer: PlanResponse,
)
    requires
        view_run(flows, replies, queries, answer),
        flows[0].columns is AwaitColumns,
    ensures
        answer.plan == flows[0].plan,
        replies[0] matches Reply::ColumnRows(cols) && {
            &&& answer.columns@.len() == cols@.len()
            &&& queries.len() == cols@.len()
            &&& forall|i: int| #![trigger answer.columns@[i]] 0 <= i < cols@.len() ==> {
                &&& queries[i] == (Query::ListBlocks { column_id: cols@[i].id })
                &&& replies[i + 1] matches Reply::BlockRows(bs)
                    && answer.columns@[i] == (ColumnWithBlocks { column: cols@[i], blocks: bs })
            }
        },
{
    let inner = flows.map_values(|f: PlanViewFlow| f.columns);
    assert forall|k: int| #![trigger queries[k]] #![trigger flows[k + 1]] 0 <= k < queries.len() implies
        inner[k].moves(replies[k], Step::<ColumnsFlow, Vec<ColumnWithBlocks>, AppError>::Run(inner[k + 1], queries[k]))
        && flows[k + 1].plan == flows[k].plan by {
        let outer = Step::<PlanViewFlow, PlanResponse, AppError>::Run(flows[k + 1], queries[k]);
        assert(flows[k].moves(replies[k], outer));
        let i = choose|i: Step<ColumnsFlow, Vec<ColumnWithBlocks>, AppError>|
            #![trigger flows[k].columns.moves(replies[k], i)]
            flows[k].columns.moves(replies[k], i) && shows_plan(i, outer, flows[k].plan);
        assert(i == Step::<ColumnsFlow, Vec<ColumnWithBlocks>, AppError>::Run(inner[k + 1], queries[k]));
    }
    let last = flows.len() - 1;
    let outer = Step::<PlanViewFlow, PlanResponse, AppError>::Done(Ok(answer));
    let i = choose|i: Step<ColumnsFlow, Vec<ColumnWithBlocks>, AppError>|
        #![trigger flows[last].columns.moves(replies[last], i)]
        flows[last].columns.moves(replies[last], i) && shows_plan(i, outer, flows[last].plan);
    assert(i == Step::<ColumnsFlow, Vec<ColumnWithBlocks>, AppError>::Done(Ok(answer.columns)));
    assert forall|k: int| 0 <= k < inner.len() implies #[trigger] replies[k].fits(inner[k].awaiting()) by {
        assert(replies[k].fits(flows[k].awaiting()));
    }
    assert(gathering_run(inner, replies, queries, answer.columns));
    gathering_pairs_each_column_with_its_blocks(inner, replies, queries, answer.columns);
    lemma_view_keeps_plan(flows, queries, last);
}

/// Every flow of a run of showing a plan shows the plan that the first one
/// showed.
proof fn lemma_view_keeps_plan(flows: Seq<PlanViewFlow>, queries: Seq<Query>, k: int)
    requires
        0 <= k < flows.len(),
        queries.len() + 1 == flows.len(),
        forall|j: int| 0 <= j < queries.len() ==> #[trigger] flows[j + 1].plan == flows[j].plan,
    ensures
        flows[k].plan == flows[0].plan,
    decreases k,
{
    if k > 0 {
        assert(flows[(k - 1) + 1].plan == flows[k - 1].plan);
        lemma_view_keeps_plan(flows, queries, k - 1);
    }
}

/// The flow that stores a new plan with its original column and shows it.
pub enum NewPlanFlow {
    /// Inserting the plan.
    AwaitInsertPlan,
    /// Inserting the original column of plan `plan_id`.
    AwaitInsertColumn { plan_id: i64 },
    /// Reading back plan `plan_id`.
    AwaitPlan { plan_id: i64 },
    /// Showing the plan.
    Viewing(PlanViewFlow),
}

impl NewPlanFlow {
    /// The shape of reply the flow waits for.
    pub open spec fn awaiting(self) -> ReplyKind {
        match self {
            NewPlanFlow::AwaitInsertPlan => ReplyKind::Executed,
            NewPlanFlow::AwaitInsertColumn { .. } => ReplyKind::Executed,
            NewPlanFlow::AwaitPlan { .. } => ReplyKind::PlanRow,
            NewPlanFlow::Viewing(v) => v.awaiting(),
        }
    }

    /// How the flow moves on `reply`: a stored plan at once gets its original
    /// column, at order 0 and without an interruption time; then the plan is
    /// read back and shown.
    pub open spec fn moves(self, reply: Reply, step: Step<NewPlanFlow, PlanResponse, AppError>) -> bool {
        &&& !(self is Viewing) ==> (reply matches Reply::Failed(d) ==> step == Step::<NewPlanFlow, PlanResponse, AppError>::Done(Err(AppError::Database(d))))
        &&& self is AwaitInsertPlan ==> (reply matches Reply::Executed { last_insert_id, .. } ==> (
            step matches Step::Run(NewPlanFlow::AwaitInsertColumn { plan_id: p }, Query::InsertColumn {
                plan_id,
                column_order,
                column_type,
                interruption_time,
            })
            && p == last_insert_id && plan_id == last_insert_id && column_order == 0
            && column_type@ == "original"@ && interruption_time is None))
        &&& self matches NewPlanFlow::AwaitInsertColumn { plan_id } ==> (reply is Executed ==>
            step == Step::<NewPlanFlow, PlanResponse, AppError>::Run(NewPlanFlow::AwaitPlan { plan_id }, Query::FetchPlan { id: plan_id }))
        &&& self is AwaitPlan ==> (reply matches Reply::PlanRow(p) ==>
            step == Step::<NewPlanFlow, PlanResponse, AppError>::Run(
                NewPlanFlow::Viewing(PlanViewFlow { plan: p, columns: ColumnsFlow::AwaitColumns }),
                Query::ListColumns { plan_id: p.id },
            ))
        &&& self matches NewPlanFlow::Viewing(v) ==> exists|inner: Step<PlanViewFlow, PlanResponse, AppError>|
            #![trigger v.moves(reply, inner)]
            v.moves(reply, inner) && lifted(inner, step, |x: PlanViewFlow| NewPlanFlow::Viewing(x))
    }

    /// Starts storing a plan of `user_id` for `date` between the given times.
    pub fn start(user_id: i64, date: CalendarDate, start_time: TimeOfDay, end_time: TimeOfDay) -> (step: Step<NewPlanFlow, PlanResponse, AppError>)
        ensures
            step == Step::<NewPlanFlow, PlanResponse, AppError>::Run(
                NewPlanFlow::AwaitInsertPlan,
                Query::InsertPlan { user_id, date, start_time, end_time },
            ),
    {
        Step::Run(NewPlanFlow::AwaitInsertPlan, Query::InsertPlan { user_id, date, start_time, end_time })
    }

    /// Takes the database's answer and moves the flow on.
    pub fn resume(self, reply: Reply) -> (step: Step<NewPlanFlow, PlanResponse, AppError>)
        requires
            reply.fits(self.awaiting()),
        ensures
            self.moves(reply, step),
            step matches Step::Run(s, q) ==> s.awaiting() == q.reply_kind(),
    {
        match self {
            NewPlanFlow::Viewing(v) => {
                let inner = v.resume(reply);
                let ghost g = inner;
                let step = match inner {
                    Step::Run(x, q) => Step::Run(NewPlanFlow::Viewing(x), q),
                    Step::Done(r) => Step::Done(r),
                };
                assert(lifted(g, step, |x: PlanViewFlow| NewPlanFlow::Viewing(x)));
                step
            },
            NewPlanFlow::AwaitInsertPlan => match reply {
                Reply::Executed { last_insert_id, .. } => Step::Run(
                    NewPlanFlow::AwaitInsertColumn { plan_id: last_insert_id },
                    Query::InsertColumn {
                        plan_id: last_insert_id,
                        column_order: 0,
                        column_type: text("original"),
                        interruption_time: None,
                    },
                ),
                Reply::Failed(d) => Step::Done(Err(AppError::Database(d))),
                _ => {
                    proof {
                        assert(false);
                    }
                    Step::Done(Err(AppError::Internal(text(""))))
                },
            },
            NewPlanFlow::AwaitInsertColumn { plan_id } => match reply {
                Reply::Failed(d) => Step::Done(Err(AppError::Database(d))),
                _ => Step::Run(NewPlanFlow::AwaitPlan { plan_id }, Query::FetchPlan { id: plan_id }),
            },
            NewPlanFlow::AwaitPlan { .. } => match reply {
                Reply::PlanRow(p) => match PlanViewFlow::show(p) {
                    Step::Run(v, q) => Step::Run(NewPlanFlow::Viewing(v), q),
                    Step::Done(r) => Step::Done(r),
                },
                Reply::Failed(d) => Step::Done(Err(AppError::Database(d))),
                _ => {
                    proof {
                        assert(false);
                    }
                    Step::Done(Err(AppError::Internal(text(""))))
                },
            },
        }
    }
}

/// The flow that lists the plans of the user.
pub enum ListPlansFlow {
    AwaitPlans,
}

impl ListPlansFlow {
    /// The shape of reply the flow waits for.
    pub open spec fn awaiting(self) -> ReplyKind {
        ReplyKind::PlanRows
    }

    /// Takes the database's answer: the listed plans.
    pub fn resume(self, reply: Reply) -> (step: Step<ListPlansFlow, Vec<Plan>, AppError>)
        requires
            reply.fits(self.awaiting()),
        ensures
            reply matches Reply::Failed(d) ==> step == Step::<ListPlansFlow, Vec<Plan>, AppError>::Done(Err(AppError::Database(d))),
            reply matches Reply::PlanRows(v) ==> step == Step::<ListPlansFlow, Vec<Plan>, AppError>::Done(Ok(v)),
    {
        match reply {
            Reply::Failed(d) => Step::Done(Err(AppError::Database(d))),
            Reply::PlanRows(v) => Step::Done(Ok(v)),
            _ => {
                proof {
                    assert(false);
                }
                Step::Done(Ok(Vec::new()))
            },
        }
    }
}

/// Starts listing the plans of the user, latest day first.
pub fn list_plans(auth_user: AuthUser) -> (step: Step<ListPlansFlow, Vec<Plan>, AppError>)
    ensures
        step == Step::<ListPlansFlow, Vec<Plan>, AppError>::Run(ListPlansFlow::AwaitPlans, Query::ListPlans { user_id: auth_user.0.id }),
{
    Step::Run(ListPlansFlow::AwaitPlans, Query::ListPlans { user_id: auth_user.0.id })
}

/// The hours of a plan made on first opening a day: 08:00 to 17:00.
pub open spec fn default_day(start_time: TimeOfDay, end_time: TimeOfDay) -> bool {
    start_time == (TimeOfDay { secs: 28800, nanos: 0 }) && end_time == (TimeOfDay { secs: 61200, nanos: 0 })
}

/// A plan made on the first visit of a day runs from eight o'clock to five
/// o'clock, on the hour: nine hours.
pub proof fn first_plan_of_a_day_runs_eight_to_five(start_time: TimeOfDay, end_time: TimeOfDay)
    requires
        default_day(start_time, end_time),
    ensures
        start_time.secs == 8 * 3600 && start_time.nanos == 0,
        end_time.secs == 17 * 3600 && end_time.nanos == 0,
        end_time.secs - start_time.secs == 9 * 3600,
{
}

/// The flow that opens the plan of a day, making it on first use.
pub enum GetPlanFlow {
    /// Looking up the plan of the user for the day.
    AwaitPlan { user_id: i64, date: CalendarDate },
    /// Making the plan.
    Creating(NewPlanFlow),
    /// Showing the existing plan.
    Viewing(PlanViewFlow),
}

impl GetPlanFlow {
    /// The shape of reply the flow waits for.
    pub open spec fn awaiting(self) -> ReplyKind {
        match self {
            GetPlanFlow::AwaitPlan { .. } => ReplyKind::MaybePlan,
            GetPlanFlow::Creating(n) => n.awaiting(),
            GetPlanFlow::Viewing(v) => v.awaiting(),
        }
    }

    /// Takes the database's answer: an existing plan is shown; a missing one is
    /// made for the day from 08:00 to 17:00, with its original column, and
    /// then shown.
    pub fn resume(self, reply: Reply) -> (step: Step<GetPlanFlow, PlanResponse, AppError>)
        requires
            reply.fits(self.awaiting()),
        ensures
            self matches GetPlanFlow::AwaitPlan { user_id, date } ==> {
                &&& reply matches Reply::Failed(d) ==> step == Step::<GetPlanFlow, PlanResponse, AppError>::Done(Err(AppError::Database(d)))
                &&& reply matches Reply::MaybePlan(Some(p)) ==> step == Step::<GetPlanFlow, PlanResponse, AppError>::Run(
                    GetPlanFlow::Viewing(PlanViewFlow { plan: p, columns: ColumnsFlow::AwaitColumns }),
                    Query::ListColumns { plan_id: p.id },
                )
                &&& reply matches Reply::MaybePlan(None) ==> (
                    step matches Step::Run(GetPlanFlow::Creating(NewPlanFlow::AwaitInsertPlan), Query::InsertPlan {
                        user_id: u,
                        date: d,
                        start_time,
                        end_time,
                    })
                    && u == user_id && d == date && default_day(start_time, end_time))
            },
            self matches GetPlanFlow::Creating(n) ==> exists|inner: Step<NewPlanFlow, PlanResponse, AppError>|
                #![trigger n.moves(reply, inner)]
                n.moves(reply, inner) && lifted(inner, step, |x: NewPlanFlow| GetPlanFlow::Creating(x)),
            self matches GetPlanFlow::Viewing(v) ==> exists|inner: Step<PlanViewFlow, PlanResponse, AppError>|
                #![trigger v.moves(reply, inner)]
                v.moves(reply, inner) && lifted(inner, step, |x: PlanViewFlow| GetPlanFlow::Viewing(x)),
            step matches Step::Run(s, q) ==> s.awaiting() == q.reply_kind(),
    {
        match self {
            GetPlanFlow::AwaitPlan { user_id, date } => match reply {
                Reply::Failed(d) => Step::Done(Err(AppError::Database(d))),
                Reply::MaybePlan(Some(p)) => match PlanViewFlow::show(p) {
                    Step::Run(v, q) => Step::Run(GetPlanFlow::Viewing(v), q),
                    Step::Done(r) => Step::Done(r),
                },
                Reply::MaybePlan(None) => {
                    match NewPlanFlow::start(user_id, date, TimeOfDay::at_hour(8), TimeOfDay::at_hour(17)) {
                        Step::Run(n, q) => Step::Run(GetPlanFlow::Creating(n), q),
                        Step::Done(r) => Step::Done(r),
                    }
                },
                _ => {
                    proof {
                        assert(false);
                    }
                    Step::Done(Err(AppError::Internal(text(""))))
                },
            },
            GetPlanFlow::Creating(n) => {
                let inner = n.resume(reply);
                let ghost g = inner;
                let step = match inner {
                    Step::Run(x, q) => Step::Run(GetPlanFlow::Creating(x), q),
                    Step::Done(r) => Step::Done(r),
                };
                assert(lifted(g, step, |x: NewPlanFlow| GetPlanFlow::Creating(x)));
                step
            },
            GetPlanFlow::Viewing(v) => {
                let inner = v.resume(reply);
                let ghost g = inner;
                let step = match inner {
                    Step::Run(x, q) => Step::Run(GetPlanFlow::Viewing(x), q),
                    Step::Done(r) => Step::Done(r),
                };
                assert(lifted(g, step, |x: PlanViewFlow| GetPlanFlow::Viewing(x)));
                step
            },
        }
    }
}

/// Starts opening the plan of the user for `date`.
pub fn get_plan(auth_user: AuthUser, date: CalendarDate) -> (step: Step<GetPlanFlow, PlanResponse, AppError>)
    ensures
        step == Step::<GetPlanFlow, PlanResponse, AppError>::Run(
            GetPlanFlow::AwaitPlan { user_id: auth_user.0.id, date },
            Query::FindPlanByDate { user_id: auth_user.0.id, date },
        ),
{
    let user_id = auth_user.0.id;
    Step::Run(GetPlanFlow::AwaitPlan { user_id, date }, Query::FindPlanByDate { user_id, date })
}

/// The flow that creates the plan of a day.
pub enum CreatePlanFlow {
    /// Looking for a plan of the user on the same day.
    AwaitExisting { user_id: i64, payload: CreatePlanRequest },
    /// Making the plan.
    Creating(NewPlanFlow),
}

impl CreatePlanFlow {
    /// The shape of reply the flow waits for.
    pub open spec fn awaiting(self) -> ReplyKind {
        match self {
            CreatePlanFlow::AwaitExisting { .. } => ReplyKind::MaybeId,
            CreatePlanFlow::Creating(n) => n.awaiting(),
        }
    }

    /// Takes the database's answer: a second plan for the same day is refused;
    /// otherwise the plan is made with the requested hours and its original
    /// column, and shown.
    pub fn resume(self, reply: Reply) -> (step: Step<CreatePlanFlow, PlanResponse, AppError>)
        requires
            reply.fits(self.awaiting()),
        ensures
            self matches CreatePlanFlow::AwaitExisting { user_id, payload } ==> {
                &&& reply matches Reply::Failed(d) ==> step == Step::<CreatePlanFlow, PlanResponse, AppError>::Done(Err(AppError::Database(d)))
                &&& reply matches Reply::MaybeId(Some(_)) ==> fails_as(step, ErrorKind::Conflict, "Plan for this date already exists"@)
                &&& reply matches Reply::MaybeId(None) ==> step == Step::<CreatePlanFlow, PlanResponse, AppError>::Run(
                    CreatePlanFlow::Creating(NewPlanFlow::AwaitInsertPlan),
                    Query::InsertPlan {
                        user_id,
                        date: payload.plan_date,
                        start_time: payload.start_time,
                        end_time: payload.end_time,
                    },
                )
            },
            self matches CreatePlanFlow::Creating(n) ==> exists|inner: Step<NewPlanFlow, PlanResponse, AppError>|
                #![trigger n.moves(reply, inner)]
                n.moves(reply, inner) && lifted(inner, step, |x: NewPlanFlow| CreatePlanFlow::Creating(x)),
            step matches Step::Run(s, q) ==> s.awaiting() == q.reply_kind(),
    {
        match self {
            CreatePlanFlow::AwaitExisting { user_id, payload } => match reply {
                Reply::Failed(d) => Step::Done(Err(AppError::Database(d))),
                Reply::MaybeId(Some(_)) => Step::Done(Err(AppError::Conflict(text("Plan for this date already exists")))),
                Reply::MaybeId(None) => {
                    match NewPlanFlow::start(user_id, payload.plan_date, payload.start_time, payload.end_time) {
                        Step::Run(n, q) => Step::Run(CreatePlanFlow::Creating(n), q),
                        Step::Done(r) => Step::Done(r),
                    }
                },
                _ => {
                    proof {
                        assert(false);
                    }
                    Step::Done(Err(AppError::Internal(text(""))))
                },
            },
            CreatePlanFlow::Creating(n) => {
                let inner = n.resume(reply);
                let ghost g = inner;
                let step = match inner {
                    Step::Run(x, q) => Step::Run(CreatePlanFlow::Creating(x), q),
                    Step::Done(r) => Step::Done(r),
                };
                assert(lifted(g, step, |x: NewPlanFlow| CreatePlanFlow::Creating(x)));
                step
            },
        }
    }
}

/// Starts creating a plan by looking for one on the same day.
pub fn create_plan(auth_user: AuthUser, payload: CreatePlanRequest) -> (step: Step<CreatePlanFlow, PlanResponse, AppError>)
    ensures
        step == Step::<CreatePlanFlow, PlanResponse, AppError>::Run(
            CreatePlanFlow::AwaitExisting { user_id: auth_user.0.id, payload },
            Query::FindPlanIdByDate { user_id: auth_user.0.id, date: payload.plan_date },
        ),
{
    let user_id = auth_user.0.id;
    let date = payload.plan_date;
    Step::Run(CreatePlanFlow::AwaitExisting { user_id, payload }, Query::FindPlanIdByDate { user_id, date })
}

/// The changes a plan update asks for, in the order they are applied: start
/// time, then end time.
pub open spec fn plan_changes(payload: UpdatePlanRequest) -> Seq<PlanChange> {
    let start = match payload.start_time {
        Some(t) => seq![PlanChange::StartTime(t)],
        None => Seq::empty(),
    };
    let end = match payload.end_time {
        Some(t) => seq![PlanChange::EndTime(t)],
        None => Seq::empty(),
    };
    start + end
}

/// A plan update writes each hour that the request gives, with the value
/// given, and nothing else: the changes hold a new start `s` exactly when the
/// request's start is `Some(s)`, and a new end `t` exactly when its end is
/// `Some(t)`, whatever the other one is; there is one change per given hour,
/// the start first.
pub proof fn plan_update_writes_given_hours(payload: UpdatePlanRequest)
    ensures
        forall|s: TimeOfDay| #[trigger] plan_changes(payload).contains(PlanChange::StartTime(s)) <==> payload.start_time == Some(s),
        forall|t: TimeOfDay| #[trigger] plan_changes(payload).contains(PlanChange::EndTime(t)) <==> payload.end_time == Some(t),
        plan_changes(payload).len() == (if payload.start_time is Some { 1int } else { 0int })
            + (if payload.end_time is Some { 1int } else { 0int }),
        payload.start_time matches Some(s) ==> plan_changes(payload)[0] == PlanChange::StartTime(s),
        payload.end_time matches Some(t) ==> plan_changes(payload).last() == PlanChange::EndTime(t),
{
    let start = match payload.start_time {
        Some(t) => seq![PlanChange::StartTime(t)],
        None => Seq::empty(),
    };
    let end = match payload.end_time {
        Some(t) => seq![PlanChange::EndTime(t)],
        None => Seq::empty(),
    };
    assert(plan_changes(payload) == start + end);
    assert forall|x: PlanChange| #[trigger] plan_changes(payload).contains(x) <==> (start.contains(x) || end.contains(x)) by {
        vstd::seq_lib::lemma_seq_concat_contains_all_elements(start, end, x);
    }
    assert forall|x: PlanChange| {
        &&& #[trigger] start.contains(x) <==> (payload.start_time matches Some(s) && x == PlanChange::StartTime(s))
        &&& end.contains(x) <==> (payload.end_time matches Some(t) && x == PlanChange::EndTime(t))
    } by {
        if start.len() == 1 {
            assert(start[0] == start[0]);
        }
        if end.len() == 1 {
            assert(end[0] == end[0]);
        }
    }
}

/// The changes that `payload` asks for, in the order they are applied.
fn plan_changes_of(payload: UpdatePlanRequest) -> (v: Vec<PlanChange>)
    ensures
        v@ == plan_changes(payload),
{
    let mut v: Vec<PlanChange> = Vec::new();
    if let Some(t) = payload.start_time {
        v.push(PlanChange::StartTime(t));
    }
    if let Some(t) = payload.end_time {
        v.push(PlanChange::EndTime(t));
    }
    v
}

/// The flow that changes the hours of a plan.
pub enum UpdatePlanFlow {
    /// Checking that the plan belongs to the user.
    AwaitOwnership { id: i64, payload: UpdatePlanRequest },
    /// Applying the requested changes one by one, all stamped `now`.
    Applying { id: i64, pending: Vec<PlanChange>, now: Timestamp },
    /// Reading back the plan.
    AwaitPlan { id: i64 },
    /// Showing the plan.
    Viewing(PlanViewFlow),
}

/// Whether `step` applies the changes `pending` to plan `id`, stamped `now`,
/// and afterwards reads the plan back.
pub open spec fn applies_plan_changes(step: Step<UpdatePlanFlow, PlanResponse, AppError>, id: i64, pending: Seq<PlanChange>, now: Timestamp) -> bool {
    if pending.len() == 0 {
        step == Step::<UpdatePlanFlow, PlanResponse, AppError>::Run(UpdatePlanFlow::AwaitPlan { id }, Query::FetchPlan { id })
    } else {
        step matches Step::Run(UpdatePlanFlow::Applying { id: i, pending: rest, now: n }, q)
            && i == id && rest@ == pending.drop_first() && n == now
            && q == (Query::UpdatePlan { id, change: pending[0], updated_at: now })
    }
}

impl UpdatePlanFlow {
    /// The shape of reply the flow waits for.
    pub open spec fn awaiting(self) -> ReplyKind {
        match self {
            UpdatePlanFlow::AwaitOwnership { .. } => ReplyKind::MaybeId,
            UpdatePlanFlow::Applying { .. } => ReplyKind::Executed,
            UpdatePlanFlow::AwaitPlan { .. } => ReplyKind::PlanRow,
            UpdatePlanFlow::Viewing(v) => v.awaiting(),
        }
    }

    /// Runs the next pending change, or reads the plan back when none is left.
    fn apply_next(id: i64, pending: Vec<PlanChange>, now: Timestamp) -> (step: Step<UpdatePlanFlow, PlanResponse, AppError>)
        ensures
            applies_plan_changes(step, id, pending@, now),
    {
        let mut pending = pending;
        if pending.len() == 0 {
            Step::Run(UpdatePlanFlow::AwaitPlan { id }, Query::FetchPlan { id })
        } else {
            let change = pending.remove(0);
            Step::Run(UpdatePlanFlow::Applying { id, pending, now }, Query::UpdatePlan { id, change, updated_at: now })
        }
    }

    /// Takes the database's answer: a plan of another user is not found;
    /// otherwise the requested hours are changed, stamped with the time the
    /// changes began, and the plan is read back and shown.
    pub fn resume(self, reply: Reply) -> (step: Step<UpdatePlanFlow, PlanResponse, AppError>)
        requires
            reply.fits(self.awaiting()),
        ensures
            !(self is Viewing) ==> (reply matches Reply::Failed(d) ==> step == Step::<UpdatePlanFlow, PlanResponse, AppError>::Done(Err(AppError::Database(d)))),
            self matches UpdatePlanFlow::AwaitOwnership { id, payload } ==> {
                &&& reply matches Reply::MaybeId(None) ==> fails_as(step, ErrorKind::NotFound, "Plan not found"@)
                &&& reply matches Reply::MaybeId(Some(_)) ==> exists|now: Timestamp|
                    0 <= now.secs <= MAX_TIMESTAMP_SECS && now.nanos < NANOS_PER_SEC
                    && applies_plan_changes(step, id, plan_changes(payload), now)
            },
            self matches UpdatePlanFlow::Applying { id, pending, now } ==> (reply is Executed ==>
                applies_plan_changes(step, id, pending@, now)),
            self is AwaitPlan ==> (reply matches Reply::PlanRow(p) ==>
                step == Step::<UpdatePlanFlow, PlanResponse, AppError>::Run(
                    UpdatePlanFlow::Viewing(PlanViewFlow { plan: p, columns: ColumnsFlow::AwaitColumns }),
                    Query::ListColumns { plan_id: p.id },
                )),
            self matches UpdatePlanFlow::Viewing(v) ==> exists|inner: Step<PlanViewFlow, PlanResponse, AppError>|
                #![trigger v.moves(reply, inner)]
                v.moves(reply, inner) && lifted(inner, step, |x: PlanViewFlow| UpdatePlanFlow::Viewing(x)),
            step matches Step::Run(s, q) ==> s.awaiting() == q.reply_kind(),
    {
        match self {
            UpdatePlanFlow::Viewing(v) => {
                let inner = v.resume(reply);
                let ghost g = inner;
                let step = match inner {
                    Step::Run(x, q) => Step::Run(UpdatePlanFlow::Viewing(x), q),
                    Step::Done(r) => Step::Done(r),
                };
                assert(lifted(g, step, |x: PlanViewFlow| UpdatePlanFlow::Viewing(x)));
                step
            },
            UpdatePlanFlow::AwaitOwnership { id, payload } => match reply {
                Reply::Failed(d) => Step::Done(Err(AppError::Database(d))),
                Reply::MaybeId(None) => Step::Done(Err(AppError::NotFound(text("Plan not found")))),
                Reply::MaybeId(Some(_)) => {
                    let now = utc_now();
                    Self::apply_next(id, plan_changes_of(payload), now)
                },
                _ => {
                    proof {
                        assert(false);
                    }
                    Step::Done(Err(AppError::Internal(text(""))))
                },
            },
            UpdatePlanFlow::Applying { id, pending, now } => match reply {
                Reply::Failed(d) => Step::Done(Err(AppError::Database(d))),
                _ => Self::apply_next(id, pending, now),
            },
            UpdatePlanFlow::AwaitPlan { .. } => match reply {
                Reply::Failed(d) => Step::Done(Err(AppError::Database(d))),
                Reply::PlanRow(p) => match PlanViewFlow::show(p) {
                    Step::Run(v, q) => Step::Run(UpdatePlanFlow::Viewing(v), q),
                    Step::Done(r) => Step::Done(r),
                },
                _ => {
                    proof {
                        assert(false);
                    }
                    Step::Done(Err(AppError::Internal(text(""))))
                },
            },
        }
    }
}

/// Whether the plan update moved from `before`, a step that applies a
/// change, to `after` once that change was acknowledged.
pub open spec fn goes_on_changing_hours(before: Step<UpdatePlanFlow, PlanResponse, AppError>, after: Step<UpdatePlanFlow, PlanResponse, AppError>) -> bool {
    before matches Step::Run(UpdatePlanFlow::Applying { id, pending, now }, _) && applies_plan_changes(after, id, pending@, now)
}

/// Once a plan update has begun applying `changes` to plan `id`, stamped
/// `now`, and each applied change was acknowledged, the k-th query of the run
/// writes exactly the k-th change to that plan with that stamp, and the query
/// after the last change reads the plan back: no change is skipped, repeated
/// or reordered, and none is left out before the plan is read.
pub proof fn plan_update_applies_changes_in_turn(
    id: i64,
    changes: Seq<PlanChange>,
    now: Timestamp,
    steps: Seq<Step<UpdatePlanFlow, PlanResponse, AppError>>,
)
    requires
        steps.len() > 0,
        applies_plan_changes(steps[0], id, changes, now),
        forall|k: int| 0 <= k < steps.len() - 1 ==> #[trigger] goes_on_changing_hours(steps[k], steps[k + 1]),
    ensures
        steps.len() <= changes.len() + 1,
        forall|k: int| #![trigger steps[k]] 0 <= k < steps.len() && k < changes.len() ==>
            (steps[k] matches Step::Run(UpdatePlanFlow::Applying { .. }, q)
                && q == (Query::UpdatePlan { id, change: changes[k], updated_at: now })),
        steps.len() == changes.len() + 1 ==>
            steps.last() == Step::<UpdatePlanFlow, PlanResponse, AppError>::Run(UpdatePlanFlow::AwaitPlan { id }, Query::FetchPlan { id }),
{
    assert(changes.skip(0) =~= changes);
    lemma_plan_changes_from(id, changes, now, steps, 0);
}

/// The plan update run from its k-th step on, where that step applies the
/// changes after the first k.
proof fn lemma_plan_changes_from(
    id: i64,
    changes: Seq<PlanChange>,
    now: Timestamp,
    steps: Seq<Step<UpdatePlanFlow, PlanResponse, AppError>>,
    k: int,
)
    requires
        0 <= k < steps.len(),
        k <= changes.len(),
        applies_plan_changes(steps[k], id, changes.skip(k), now),
        forall|j: int| 0 <= j < steps.len() - 1 ==> #[trigger] goes_on_changing_hours(steps[j], steps[j + 1]),
    ensures
        steps.len() <= changes.len() + 1,
        forall|j: int| #![trigger steps[j]] k <= j < steps.len() && j < changes.len() ==>
            (steps[j] matches Step::Run(UpdatePlanFlow::Applying { .. }, q)
                && q == (Query::UpdatePlan { id, change: changes[j], updated_at: now })),
        steps.len() == changes.len() + 1 ==>
            steps.last() == Step::<UpdatePlanFlow, PlanResponse, AppError>::Run(UpdatePlanFlow::AwaitPlan { id }, Query::FetchPlan { id }),
    decreases steps.len() - k,
{
    if k < changes.len() {
        assert(changes.skip(k)[0] == changes[k]);
    }
    if k + 1 < steps.len() {
        let next = steps[k + 1];
        assert(goes_on_changing_hours(steps[k], next));
        if k < changes.len() {
            assert(changes.skip(k).drop_first() =~= changes.skip(k + 1));
            if let Step::Run(UpdatePlanFlow::Applying { id: i, pending, now: n }, _) = steps[k] {
                assert(i == id && n == now && pending@ == changes.skip(k + 1));
                assert(applies_plan_changes(next, id, changes.skip(k + 1), now));
            }
            lemma_plan_changes_from(id, changes, now, steps, k + 1);
        } else {
            assert(changes.skip(k).len() == 0);
        }
    }
}

/// Starts changing plan `id` by checking that it belongs to the user.
pub fn update_plan(auth_user: AuthUser, id: i64, payload: UpdatePlanRequest) -> (step: Step<UpdatePlanFlow, PlanResponse, AppError>)
    ensures
        step == Step::<UpdatePlanFlow, PlanResponse, AppError>::Run(
            UpdatePlanFlow::AwaitOwnership { id, payload },
            Query::FindOwnedPlan { plan_id: id, user_id: auth_user.0.id },
        ),
{
    Step::Run(UpdatePlanFlow::AwaitOwnership { id, payload }, Query::FindOwnedPlan { plan_id: id, user_id: auth_user.0.id })
}

/// The flow that removes a plan.
pub enum DeletePlanFlow {
    /// Removing the plan if it belongs to the user.
    AwaitDelete,
}

impl DeletePlanFlow {
    /// The shape of reply the flow waits for.
    pub open spec fn awaiting(self) -> ReplyKind {
        ReplyKind::Executed
    }

    /// Takes the database's answer: nothing removed means the plan was not
    /// found.
    pub fn resume(self, reply: Reply) -> (step: Step<DeletePlanFlow, (), AppError>)
        requires
            reply.fits(self.awaiting()),
        ensures
            reply matches Reply::Failed(d) ==> step == Step::<DeletePlanFlow, (), AppError>::Done(Err(AppError::Database(d))),
            reply matches Reply::Executed { rows_affected, .. } ==> if rows_affected == 0 {
                fails_as(step, ErrorKind::NotFound, "Plan not found"@)
            } else {
                step == Step::<DeletePlanFlow, (), AppError>::Done(Ok(()))
            },
    {
        match reply {
            Reply::Failed(d) => Step::Done(Err(AppError::Database(d))),
            Reply::Executed { rows_affected, .. } => if rows_affected == 0 {
                Step::Done(Err(AppError::NotFound(text("Plan not found"))))
            } else {
                Step::Done(Ok(()))
            },
            _ => {
                proof {
                    assert(false);
                }
                Step::Done(Ok(()))
            },
        }
    }
}

/// Starts removing plan `id`; only a plan of the user is removed.
pub fn delete_plan(auth_user: AuthUser, id: i64) -> (step: Step<DeletePlanFlow, (), AppError>)
    ensures
        step == Step::<DeletePlanFlow, (), AppError>::Run(
            DeletePlanFlow::AwaitDelete,
            Query::DeleteOwnedPlan { plan_id: id, user_id: auth_user.0.id },
        ),
{
    Step::Run(DeletePlanFlow::AwaitDelete, Query::DeleteOwnedPlan { plan_id: id, user_id: auth_user.0.id })
}

} // verus!
