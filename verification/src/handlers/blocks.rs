//! Creating, changing and removing time blocks. Every change is made only
//! after the database has confirmed that the block (or its column) lies in a
//! plan of the signed-in user.

use vstd::prelude::*;
use crate::auth::AuthUser;
use crate::clock::{utc_now, MAX_TIMESTAMP_SECS, NANOS_PER_SEC, Timestamp};
use crate::db::{BlockChange, Query, Reply, ReplyKind, Step};
use crate::handlers::auth::{fails_as, text, AppError, ErrorKind};
use crate::models::{CreateBlockRequest, TimeBlock, UpdateBlockRequest};

verus! {

/// The flow that creates a time block.
pub enum CreateBlockFlow {
    /// Checking that the column lies in a plan of the user.
    AwaitColumn { payload: CreateBlockRequest },
    /// Inserting the block.
    AwaitInsert,
    /// Reading back the new block.
    AwaitBlock,
}

impl CreateBlockFlow {
    /// The shape of reply the flow waits for.
    pub open spec fn awaiting(self) -> ReplyKind {
        match self {
            CreateBlockFlow::AwaitColumn { .. } => ReplyKind::MaybeId,
            CreateBlockFlow::AwaitInsert => ReplyKind::Executed,
            CreateBlockFlow::AwaitBlock => ReplyKind::BlockRow,
        }
    }

    /// Takes the database's answer: a column outside the user's plans is not
    /// found; otherwise the block is inserted as requested and read back.
    pub fn resume(self, reply: Reply) -> (step: Step<CreateBlockFlow, TimeBlock, AppError>)
        requires
            reply.fits(self.awaiting()),
        ensures
            reply matches Reply::Failed(d) ==> step == Step::<CreateBlockFlow, TimeBlock, AppError>::Done(Err(AppError::Database(d))),
            self matches CreateBlockFlow::AwaitColumn { payload } ==> {
                &&& reply matches Reply::MaybeId(None) ==> fails_as(step, ErrorKind::NotFound, "Column not found"@)
                &&& reply matches Reply::MaybeId(Some(_)) ==> step == Step::<CreateBlockFlow, TimeBlock, AppError>::Run(
                    CreateBlockFlow::AwaitInsert,
                    Query::InsertBlock {
                        column_id: payload.column_id,
                        title: payload.title,
                        start_time: payload.start_time,
                        end_time: payload.end_time,
                        color: payload.color,
                    },
                )
            },
            self is AwaitInsert ==> (reply matches Reply::Executed { last_insert_id, .. } ==>
                step == Step::<CreateBlockFlow, TimeBlock, AppError>::Run(
                    CreateBlockFlow::AwaitBlock,
                    Query::FetchBlock { id: last_insert_id },
                )),
            self is AwaitBlock ==> (reply matches Reply::BlockRow(b) ==>
                step == Step::<CreateBlockFlow, TimeBlock, AppError>::Done(Ok(b))),
            step matches Step::Run(s, q) ==> s.awaiting() == q.reply_kind(),
    {
        match reply {
            Reply::Failed(d) => Step::Done(Err(AppError::Database(d))),
            Reply::MaybeId(found) => {
                let payload = match self {
                    CreateBlockFlow::AwaitColumn { payload } => payload,
                    _ => {
                        proof {
                            assert(false);
                        }
                        return Step::Done(Err(AppError::Internal(text(""))));
                    },
                };
                match found {
                    None => Step::Done(Err(AppError::NotFound(text("Column not found")))),
                    Some(_) => Step::Run(
                        CreateBlockFlow::AwaitInsert,
                        Query::InsertBlock {
                            column_id: payload.column_id,
                            title: payload.title,
                            start_time: payload.start_time,
                            end_time: payload.end_time,
                            color: payload.color,
                        },
                    ),
                }
            },
            Reply::Executed { last_insert_id, .. } => Step::Run(
                CreateBlockFlow::AwaitBlock,
                Query::FetchBlock { id: last_insert_id },
            ),
            Reply::BlockRow(b) => Step::Done(Ok(b)),
            _ => {
                proof {
                    assert(false);
                }
                Step::Done(Err(AppError::Internal(text(""))))
            },
        }
    }
}

/// Starts creating a block by checking that its column belongs to the user.
pub fn create_block(auth_user: AuthUser, payload: CreateBlockRequest) -> (step: Step<CreateBlockFlow, TimeBlock, AppError>)
    ensures
        step == Step::<CreateBlockFlow, TimeBlock, AppError>::Run(
            CreateBlockFlow::AwaitColumn { payload },
            Query::FindOwnedColumn { column_id: payload.column_id, user_id: auth_user.0.id },
        ),
{
    let column_id = payload.column_id;
    Step::Run(
        CreateBlockFlow::AwaitColumn { payload },
        Query::FindOwnedColumn { column_id, user_id: auth_user.0.id },
    )
}

/// The changes a block update asks for, in the order they are applied: title,
/// start time, end time, colour, completion.
pub open spec fn block_changes(payload: UpdateBlockRequest) -> Seq<BlockChange> {
    let title = match payload.title {
        Some(t) => seq![BlockChange::Title(t)],
        None => Seq::empty(),
    };
    let start = match payload.start_time {
        Some(t) => seq![BlockChange::StartTime(t)],
        None => Seq::empty(),
    };
    let end = match payload.end_time {
        Some(t) => seq![BlockChange::EndTime(t)],
        None => Seq::empty(),
    };
    let color = match payload.color {
        Some(c) => seq![BlockChange::Color(c)],
        None => Seq::empty(),
    };
    let completed = match payload.is_completed {
        Some(b) => seq![BlockChange::Completed(b)],
        None => Seq::empty(),
    };
    title + start + end + color + completed
}

/// A block update writes each field that the request gives, with the value
/// given, and nothing else: the changes hold a new title `t` exactly when the
/// request's title is `Some(t)`, and likewise for the start, the end, the
/// colour and the completion, each field independently of the others; there
/// is one change per given field, with the title first and the completion
/// last.
pub proof fn block_update_writes_given_fields(payload: UpdateBlockRequest)
    ensures
        forall|t: String| #[trigger] block_changes(payload).contains(BlockChange::Title(t)) <==> payload.title == Some(t),
        forall|t: Timestamp| #[trigger] block_changes(payload).contains(BlockChange::StartTime(t)) <==> payload.start_time == Some(t),
        forall|t: Timestamp| #[trigger] block_changes(payload).contains(BlockChange::EndTime(t)) <==> payload.end_time == Some(t),
        forall|c: String| #[trigger] block_changes(payload).contains(BlockChange::Color(c)) <==> payload.color == Some(c),
        forall|b: bool| #[trigger] block_changes(payload).contains(BlockChange::Completed(b)) <==> payload.is_completed == Some(b),
        block_changes(payload).len() == (if payload.title is Some { 1int } else { 0int })
            + (if payload.start_time is Some { 1int } else { 0int })
            + (if payload.end_time is Some { 1int } else { 0int })
            + (if payload.color is Some { 1int } else { 0int })
            + (if payload.is_completed is Some { 1int } else { 0int }),
        payload.title matches Some(t) ==> block_changes(payload)[0] == BlockChange::Title(t),
        payload.is_completed matches Some(b) ==> block_changes(payload).last() == BlockChange::Completed(b),
{
    let title = match payload.title {
        Some(t) => seq![BlockChange::Title(t)],
        None => Seq::empty(),
    };
    let start = match payload.start_time {
        Some(t) => seq![BlockChange::StartTime(t)],
        None => Seq::empty(),
    };
    let end = match payload.end_time {
        Some(t) => seq![BlockChange::EndTime(t)],
        None => Seq::empty(),
    };
    let color = match payload.color {
        Some(c) => seq![BlockChange::Color(c)],
        None => Seq::empty(),
    };
    let completed = match payload.is_completed {
        Some(b) => seq![BlockChange::Completed(b)],
        None => Seq::empty(),
    };
    assert(block_changes(payload) == title + start + end + color + completed);
    assert forall|x: BlockChange| #[trigger] block_changes(payload).contains(x) <==>
        (title.contains(x) || start.contains(x) || end.contains(x) || color.contains(x) || completed.contains(x)) by {
        lemma_parts_contain(title, start, end, color, completed, x);
    }
    assert forall|x: BlockChange| {
        &&& #[trigger] title.contains(x) <==> (payload.title matches Some(t) && x == BlockChange::Title(t))
        &&& start.contains(x) <==> (payload.start_time matches Some(t) && x == BlockChange::StartTime(t))
        &&& end.contains(x) <==> (payload.end_time matches Some(t) && x == BlockChange::EndTime(t))
        &&& color.contains(x) <==> (payload.color matches Some(c) && x == BlockChange::Color(c))
        &&& completed.contains(x) <==> (payload.is_completed matches Some(b) && x == BlockChange::Completed(b))
    } by {
        lemma_one_or_none_contains(title, x);
        lemma_one_or_none_contains(start, x);
        lemma_one_or_none_contains(end, x);
        lemma_one_or_none_contains(color, x);
        lemma_one_or_none_contains(completed, x);
    }
}

/// What five sequences joined together contain.
proof fn lemma_parts_contain<A>(a: Seq<A>, b: Seq<A>, c: Seq<A>, d: Seq<A>, e: Seq<A>, x: A)
    ensures
        (a + b + c + d + e).contains(x) <==> (a.contains(x) || b.contains(x) || c.contains(x) || d.contains(x) || e.contains(x)),
{
    vstd::seq_lib::lemma_seq_concat_contains_all_elements(a, b, x);
    vstd::seq_lib::lemma_seq_concat_contains_all_elements(a + b, c, x);
    vstd::seq_lib::lemma_seq_concat_contains_all_elements(a + b + c, d, x);
    vstd::seq_lib::lemma_seq_concat_contains_all_elements(a + b + c + d, e, x);
}

/// A sequence of at most one item contains exactly that item.
proof fn lemma_one_or_none_contains<A>(s: Seq<A>, x: A)
    requires
        s.len() <= 1,
    ensures
        s.contains(x) <==> (s.len() == 1 && s[0] == x),
{
    if s.len() == 1 {
        assert(s[0] == s[0]);
    }
}

/// The changes that `payload` asks for, in the order they are applied.
fn changes_of(payload: UpdateBlockRequest) -> (v: Vec<BlockChange>)
    ensures
        v@ == block_changes(payload),
{
    let mut v: Vec<BlockChange> = Vec::new();
    if let Some(t) = payload.title {
        v.push(BlockChange::Title(t));
    }
    if let Some(t) = payload.start_time {
        v.push(BlockChange::StartTime(t));
    }
    if let Some(t) = payload.end_time {
        v.push(BlockChange::EndTime(t));
    }
    if let Some(c) = payload.color {
        v.push(BlockChange::Color(c));
    }
    if let Some(b) = payload.is_completed {
        v.push(BlockChange::Completed(b));
    }
    v
}

/// The flow that changes a time block.
pub enum UpdateBlockFlow {
    /// Checking that the block lies in a plan of the user.
    AwaitOwnership { id: i64, payload: UpdateBlockRequest },
    /// Applying the requested changes one by one; `pending` are those still to
    /// come, and `now` stamps them all.
    Applying { id: i64, pending: Vec<BlockChange>, now: Timestamp },
    /// Reading back the changed block.
    AwaitBlock,
}

/// Whether `step` applies the changes `pending` to block `id`, stamped `now`,
/// and afterwards reads the block back: the first change runs now and the rest
/// wait in the flow; with none left the block is read.
pub open spec fn applies_block_changes(step: Step<UpdateBlockFlow, TimeBlock, AppError>, id: i64, pending: Seq<BlockChange>, now: Timestamp) -> bool {
    if pending.len() == 0 {
        step == Step::<UpdateBlockFlow, TimeBlock, AppError>::Run(UpdateBlockFlow::AwaitBlock, Query::FetchBlock { id })
    } else {
        step matches Step::Run(UpdateBlockFlow::Applying { id: i, pending: rest, now: n }, q)
            && i == id && rest@ == pending.drop_first() && n == now
            && q == (Query::UpdateBlock { id, change: pending[0], updated_at: now })
    }
}

impl UpdateBlockFlow {
    /// The shape of reply the flow waits for.
    pub open spec fn awaiting(self) -> ReplyKind {
        match self {
            UpdateBlockFlow::AwaitOwnership { .. } => ReplyKind::MaybeId,
            UpdateBlockFlow::Applying { .. } => ReplyKind::Executed,
            UpdateBlockFlow::AwaitBlock => ReplyKind::BlockRow,
        }
    }

    /// Runs the next pending change, or reads the block back when none is left.
    fn apply_next(id: i64, pending: Vec<BlockChange>, now: Timestamp) -> (step: Step<UpdateBlockFlow, TimeBlock, AppError>)
        ensures
            applies_block_changes(step, id, pending@, now),
    {
        let mut pending = pending;
        if pending.len() == 0 {
            Step::Run(UpdateBlockFlow::AwaitBlock, Query::FetchBlock { id })
        } else {
            let change = pending.remove(0);
            Step::Run(
                UpdateBlockFlow::Applying { id, pending, now },
                Query::UpdateBlock { id, change, updated_at: now },
            )
        }
    }

    /// Takes the database's answer: a block outside the user's plans is not
    /// found; otherwise each requested change is applied, all stamped with the
    /// time the changes began, and the block is read back.
    pub fn resume(self, reply: Reply) -> (step: Step<UpdateBlockFlow, TimeBlock, AppError>)
        requires
            reply.fits(self.awaiting()),
        ensures
            reply matches Reply::Failed(d) ==> step == Step::<UpdateBlockFlow, TimeBlock, AppError>::Done(Err(AppError::Database(d))),
            self matches UpdateBlockFlow::AwaitOwnership { id, payload } ==> {
                &&& reply matches Reply::MaybeId(None) ==> fails_as(step, ErrorKind::NotFound, "Block not found"@)
                &&& reply matches Reply::MaybeId(Some(_)) ==> exists|now: Timestamp|
                    0 <= now.secs <= MAX_TIMESTAMP_SECS && now.nanos < NANOS_PER_SEC
                    && applies_block_changes(step, id, block_changes(payload), now)
            },
            self matches UpdateBlockFlow::Applying { id, pending, now } ==> (reply is Executed ==>
                applies_block_changes(step, id, pending@, now)),
            self is AwaitBlock ==> (reply matches Reply::BlockRow(b) ==>
                step == Step::<UpdateBlockFlow, TimeBlock, AppError>::Done(Ok(b))),
            step matches Step::Run(s, q) ==> s.awaiting() == q.reply_kind(),
    {
        match reply {
            Reply::Failed(d) => Step::Done(Err(AppError::Database(d))),
            Reply::MaybeId(found) => match self {
                UpdateBlockFlow::AwaitOwnership { id, payload } => match found {
                    None => Step::Done(Err(AppError::NotFound(text("Block not found")))),
                    Some(_) => {
                        let now = utc_now();
                        let pending = changes_of(payload);
                        Self::apply_next(id, pending, now)
                    },
                },
                _ => {
                    proof {
                        assert(false);
                    }
                    Step::Done(Err(AppError::Internal(text(""))))
                },
            },
            Reply::Executed { .. } => match self {
                UpdateBlockFlow::Applying { id, pending, now } => Self::apply_next(id, pending, now),
                _ => {
                    proof {
                        assert(false);
                    }
                    Step::Done(Err(AppError::Internal(text(""))))
                },
            },
            Reply::BlockRow(b) => Step::Done(Ok(b)),
            _ => {
                proof {
                    assert(false);
                }
                Step::Done(Err(AppError::Internal(text(""))))
            },
        }
    }
}

/// Whether the block update moved from `before`, a step that applies a
/// change, to `after` once that change was acknowledged.
pub open spec fn goes_on_applying(before: Step<UpdateBlockFlow, TimeBlock, AppError>, after: Step<UpdateBlockFlow, TimeBlock, AppError>) -> bool {
    before matches Step::Run(UpdateBlockFlow::Applying { id, pending, now }, _) && applies_block_changes(after, id, pending@, now)
}

/// Once a block update has begun applying `changes` to block `id`, stamped
/// `now`, and each applied change was acknowledged, the k-th query of the run
/// writes exactly the k-th change to that block with that stamp, and the query
/// after the last change reads the block back: no change is skipped, repeated
/// or reordered, and none is left out before the block is read.
pub proof fn block_update_applies_changes_in_turn(
    id: i64,
    changes: Seq<BlockChange>,
    now: Timestamp,
    steps: Seq<Step<UpdateBlockFlow, TimeBlock, AppError>>,
)
    requires
        steps.len() > 0,
        applies_block_changes(steps[0], id, changes, now),
        forall|k: int| 0 <= k < steps.len() - 1 ==> #[trigger] goes_on_applying(steps[k], steps[k + 1]),
    ensures
        steps.len() <= changes.len() + 1,
        forall|k: int| #![trigger steps[k]] 0 <= k < steps.len() && k < changes.len() ==>
            (steps[k] matches Step::Run(UpdateBlockFlow::Applying { .. }, q)
                && q == (Query::UpdateBlock { id, change: changes[k], updated_at: now })),
        steps.len() == changes.len() + 1 ==>
            steps.last() == Step::<UpdateBlockFlow, TimeBlock, AppError>::Run(UpdateBlockFlow::AwaitBlock, Query::FetchBlock { id }),
{
    assert(changes.skip(0) =~= changes);
    lemma_block_changes_from(id, changes, now, steps, 0);
}

/// The block update run from its k-th step on, where that step applies the
/// changes after the first k.
proof fn lemma_block_changes_from(
    id: i64,
    changes: Seq<BlockChange>,
    now: Timestamp,
    steps: Seq<Step<UpdateBlockFlow, TimeBlock, AppError>>,
    k: int,
)
    requires
        0 <= k < steps.len(),
        k <= changes.len(),
        applies_block_changes(steps[k], id, changes.skip(k), now),
        forall|j: int| 0 <= j < steps.len() - 1 ==> #[trigger] goes_on_applying(steps[j], steps[j + 1]),
    ensures
        steps.len() <= changes.len() + 1,
        forall|j: int| #![trigger steps[j]] k <= j < steps.len() && j < changes.len() ==>
            (steps[j] matches Step::Run(UpdateBlockFlow::Applying { .. }, q)
                && q == (Query::UpdateBlock { id, change: changes[j], updated_at: now })),
        steps.len() == changes.len() + 1 ==>
            steps.last() == Step::<UpdateBlockFlow, TimeBlock, AppError>::Run(UpdateBlockFlow::AwaitBlock, Query::FetchBlock { id }),
    decreases steps.len() - k,
{
    if k < changes.len() {
        assert(changes.skip(k)[0] == changes[k]);
    }
    if k + 1 < steps.len() {
        let next = steps[k + 1];
        assert(goes_on_applying(steps[k], next));
        if k < changes.len() {
            assert(changes.skip(k).drop_first() =~= changes.skip(k + 1));
            if let Step::Run(UpdateBlockFlow::Applying { id: i, pending, now: n }, _) = steps[k] {
                assert(i == id && n == now && pending@ == changes.skip(k + 1));
                assert(applies_block_changes(next, id, changes.skip(k + 1), now));
            }
            lemma_block_changes_from(id, changes, now, steps, k + 1);
        } else {
            assert(changes.skip(k).len() == 0);
        }
    }
}

/// Starts changing block `id` by checking that it belongs to the user.
pub fn update_block(auth_user: AuthUser, id: i64, payload: UpdateBlockRequest) -> (step: Step<UpdateBlockFlow, TimeBlock, AppError>)
    ensures
        step == Step::<UpdateBlockFlow, TimeBlock, AppError>::Run(
            UpdateBlockFlow::AwaitOwnership { id, payload },
            Query::FindOwnedBlock { block_id: id, user_id: auth_user.0.id },
        ),
{
    Step::Run(
        UpdateBlockFlow::AwaitOwnership { id, payload },
        Query::FindOwnedBlock { block_id: id, user_id: auth_user.0.id },
    )
}

/// The flow that removes a time block.
pub enum DeleteBlockFlow {
    /// Removing the block if it lies in a plan of the user.
    AwaitDelete,
}

impl DeleteBlockFlow {
    /// The shape of reply the flow waits for.
    pub open spec fn awaiting(self) -> ReplyKind {
        ReplyKind::Executed
    }

    /// Takes the database's answer: nothing removed means the block was not
    /// found.
    pub fn resume(self, reply: Reply) -> (step: Step<DeleteBlockFlow, (), AppError>)
        requires
            reply.fits(self.awaiting()),
        ensures
            reply matches Reply::Failed(d) ==> step == Step::<DeleteBlockFlow, (), AppError>::Done(Err(AppError::Database(d))),
            reply matches Reply::Executed { rows_affected, .. } ==> if rows_affected == 0 {
                fails_as(step, ErrorKind::NotFound, "Block not found"@)
            } else {
                step == Step::<DeleteBlockFlow, (), AppError>::Done(Ok(()))
            },
    {
        match reply {
            Reply::Failed(d) => Step::Done(Err(AppError::Database(d))),
            Reply::Executed { rows_affected, .. } => if rows_affected == 0 {
                Step::Done(Err(AppError::NotFound(text("Block not found"))))
            } else {
                Step::Done(Ok(()))
            },
            _ => {
                proof {
                    assert(false);
                }
                Step::Done(Ok(()))
            },
        }
    }
}

/// Starts removing block `id`; only a block in a plan of the user is removed.
pub fn delete_block(auth_user: AuthUser, id: i64) -> (step: Step<DeleteBlockFlow, (), AppError>)
    ensures
        step == Step::<DeleteBlockFlow, (), AppError>::Run(
            DeleteBlockFlow::AwaitDelete,
            Query::DeleteOwnedBlock { block_id: id, user_id: auth_user.0.id },
        ),
{
    Step::Run(DeleteBlockFlow::AwaitDelete, Query::DeleteOwnedBlock { block_id: id, user_id: auth_user.0.id })
}

} // verus!
