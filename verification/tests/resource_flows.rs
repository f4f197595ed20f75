use time_block_planner::auth::AuthUser;
use time_block_planner::clock::{CalendarDate, TimeOfDay, Timestamp};
use time_block_planner::db::{BlockChange, PlanChange, Query, Reply, Step};
use time_block_planner::handlers::auth::AppError;
use time_block_planner::handlers::blocks::{create_block, delete_block, update_block, DeleteBlockFlow, UpdateBlockFlow};
use time_block_planner::handlers::columns::{create_column, delete_column, next_order, DeleteColumnFlow};
use time_block_planner::handlers::plans::{
    create_plan, delete_plan, fetch_columns_with_blocks, get_plan, list_plans, update_plan, ColumnsFlow,
    DeletePlanFlow,
};
use time_block_planner::models::{
    Column, CreateBlockRequest, CreateColumnRequest, CreatePlanRequest, Plan, TimeBlock, UpdateBlockRequest,
    UpdatePlanRequest, User,
};

fn ts(secs: i64) -> Timestamp {
    Timestamp { secs, nanos: 0 }
}

fn tod(h: u32) -> TimeOfDay {
    TimeOfDay { secs: h * 3600, nanos: 0 }
}

fn who(id: i64) -> AuthUser {
    AuthUser(User { id, username: "u".to_string(), password_hash: "h".to_string(), created_at: ts(0) })
}

fn block(id: i64, column_id: i64, title: &str) -> TimeBlock {
    TimeBlock {
        id,
        column_id,
        title: title.to_string(),
        start_time: ts(100),
        end_time: ts(200),
        color: None,
        is_completed: false,
        created_at: ts(0),
        updated_at: ts(0),
    }
}

fn column(id: i64, plan_id: i64, order: i64, kind: &str) -> Column {
    Column {
        id,
        plan_id,
        column_order: order,
        column_type: kind.to_string(),
        interruption_time: None,
        created_at: ts(0),
    }
}

fn plan(id: i64, user_id: i64, day: i32) -> Plan {
    Plan {
        id,
        user_id,
        plan_date: CalendarDate { days_from_ce: day },
        start_time: tod(8),
        end_time: tod(17),
        created_at: ts(0),
        updated_at: ts(0),
    }
}

fn executed(id: i64) -> Reply {
    Reply::Executed { rows_affected: 1, last_insert_id: id }
}

#[test]
fn block_in_foreign_column_is_not_found() {
    let req = CreateBlockRequest { column_id: 3, title: "t".to_string(), start_time: ts(1), end_time: ts(2), color: None };
    let flow = match create_block(who(7), req) {
        Step::Run(flow, q) => {
            assert_eq!(q, Query::FindOwnedColumn { column_id: 3, user_id: 7 });
            flow
        }
        _ => panic!(),
    };
    match flow.resume(Reply::MaybeId(None)) {
        Step::Done(Err(AppError::NotFound(m))) => assert_eq!(m, "Column not found"),
        _ => panic!(),
    }
}

#[test]
fn block_is_created_as_requested() {
    let req = CreateBlockRequest {
        column_id: 3,
        title: "Write".to_string(),
        start_time: ts(10),
        end_time: ts(20),
        color: Some("#ff0000".to_string()),
    };
    let flow = match create_block(who(7), req) {
        Step::Run(flow, _) => flow,
        _ => panic!(),
    };
    let flow = match flow.resume(Reply::MaybeId(Some(3))) {
        Step::Run(flow, q) => {
            assert_eq!(
                q,
                Query::InsertBlock {
                    column_id: 3,
                    title: "Write".to_string(),
                    start_time: ts(10),
                    end_time: ts(20),
                    color: Some("#ff0000".to_string()),
                }
            );
            flow
        }
        _ => panic!(),
    };
    let flow = match flow.resume(executed(11)) {
        Step::Run(flow, q) => {
            assert_eq!(q, Query::FetchBlock { id: 11 });
            flow
        }
        _ => panic!(),
    };
    match flow.resume(Reply::BlockRow(block(11, 3, "Write"))) {
        Step::Done(Ok(b)) => assert_eq!(b, block(11, 3, "Write")),
        _ => panic!(),
    }
}

#[test]
fn block_update_applies_given_fields_in_order() {
    let req = UpdateBlockRequest {
        title: None,
        start_time: Some(ts(30)),
        end_time: None,
        color: Some("blue".to_string()),
        is_completed: Some(true),
    };
    let flow = match update_block(who(2), 5, req) {
        Step::Run(flow, q) => {
            assert_eq!(q, Query::FindOwnedBlock { block_id: 5, user_id: 2 });
            flow
        }
        _ => panic!(),
    };
    let mut step = flow.resume(Reply::MaybeId(Some(5)));
    let mut changes = Vec::new();
    let mut stamps = Vec::new();
    loop {
        match step {
            Step::Run(flow, Query::UpdateBlock { id, change, updated_at }) => {
                assert_eq!(id, 5);
                changes.push(change);
                stamps.push(updated_at);
                step = flow.resume(executed(0));
            }
            Step::Run(flow, Query::FetchBlock { id }) => {
                assert_eq!(id, 5);
                step = flow.resume(Reply::BlockRow(block(5, 1, "x")));
            }
            Step::Run(_, q) => panic!("unexpected query {:?}", q),
            Step::Done(r) => {
                assert!(r.is_ok());
                break;
            }
        }
    }
    assert_eq!(
        changes,
        vec![BlockChange::StartTime(ts(30)), BlockChange::Color("blue".to_string()), BlockChange::Completed(true)]
    );
    assert!(stamps.iter().all(|s| *s == stamps[0]));
}

#[test]
fn empty_block_update_reads_the_block() {
    let req = UpdateBlockRequest { title: None, start_time: None, end_time: None, color: None, is_completed: None };
    let flow = match update_block(who(2), 5, req) {
        Step::Run(flow, _) => flow,
        _ => panic!(),
    };
    assert!(matches!(flow.resume(Reply::MaybeId(Some(5))), Step::Run(UpdateBlockFlow::AwaitBlock, Query::FetchBlock { id: 5 })));
}

#[test]
fn foreign_block_update_is_not_found() {
    let req = UpdateBlockRequest { title: Some("x".to_string()), start_time: None, end_time: None, color: None, is_completed: None };
    let flow = match update_block(who(2), 5, req) {
        Step::Run(flow, _) => flow,
        _ => panic!(),
    };
    match flow.resume(Reply::MaybeId(None)) {
        Step::Done(Err(AppError::NotFound(m))) => assert_eq!(m, "Block not found"),
        _ => panic!(),
    }
}

#[test]
fn deleting_a_block() {
    let flow = match delete_block(who(2), 9) {
        Step::Run(flow, q) => {
            assert_eq!(q, Query::DeleteOwnedBlock { block_id: 9, user_id: 2 });
            flow
        }
        _ => panic!(),
    };
    match flow.resume(Reply::Executed { rows_affected: 0, last_insert_id: 0 }) {
        Step::Done(Err(AppError::NotFound(m))) => assert_eq!(m, "Block not found"),
        _ => panic!(),
    }
    assert!(matches!(
        DeleteBlockFlow::AwaitDelete.resume(Reply::Executed { rows_affected: 1, last_insert_id: 0 }),
        Step::Done(Ok(()))
    ));
}

#[test]
fn next_column_order_values() {
    assert_eq!(next_order(None), 1);
    assert_eq!(next_order(Some(0)), 1);
    assert_eq!(next_order(Some(3)), 4);
}

#[test]
fn interruption_column_goes_behind_the_others() {
    let req = CreateColumnRequest { plan_id: 4, interruption_time: ts(5000) };
    let flow = match create_column(who(1), req) {
        Step::Run(flow, q) => {
            assert_eq!(q, Query::FindOwnedPlan { plan_id: 4, user_id: 1 });
            flow
        }
        _ => panic!(),
    };
    let flow = match flow.resume(Reply::MaybeId(Some(4))) {
        Step::Run(flow, q) => {
            assert_eq!(q, Query::MaxColumnOrder { plan_id: 4 });
            flow
        }
        _ => panic!(),
    };
    let flow = match flow.resume(Reply::MaybeOrder(Some(2))) {
        Step::Run(flow, q) => {
            assert_eq!(
                q,
                Query::InsertColumn {
                    plan_id: 4,
                    column_order: 3,
                    column_type: "revision".to_string(),
                    interruption_time: Some(ts(5000)),
                }
            );
            flow
        }
        _ => panic!(),
    };
    let flow = match flow.resume(executed(12)) {
        Step::Run(flow, q) => {
            assert_eq!(q, Query::FetchColumn { id: 12 });
            flow
        }
        _ => panic!(),
    };
    match flow.resume(Reply::ColumnRow(column(12, 4, 3, "revision"))) {
        Step::Done(Ok(c)) => assert_eq!(c.column_order, 3),
        _ => panic!(),
    }
}

#[test]
fn interruption_in_foreign_plan_is_not_found() {
    let req = CreateColumnRequest { plan_id: 4, interruption_time: ts(5000) };
    let flow = match create_column(who(1), req) {
        Step::Run(flow, _) => flow,
        _ => panic!(),
    };
    match flow.resume(Reply::MaybeId(None)) {
        Step::Done(Err(AppError::NotFound(m))) => assert_eq!(m, "Plan not found"),
        _ => panic!(),
    }
}

#[test]
fn original_column_cannot_be_deleted() {
    let flow = match delete_column(who(1), 6) {
        Step::Run(flow, q) => {
            assert_eq!(q, Query::FindOwnedColumnType { column_id: 6, user_id: 1 });
            flow
        }
        _ => panic!(),
    };
    match flow.resume(Reply::MaybeColumnType(Some("original".to_string()))) {
        Step::Done(Err(AppError::BadRequest(m))) => assert_eq!(m, "Cannot delete the original column"),
        _ => panic!(),
    }
}

#[test]
fn revision_column_is_deleted() {
    let flow = DeleteColumnFlow::AwaitColumn { id: 6 };
    let flow = match flow.resume(Reply::MaybeColumnType(Some("revision".to_string()))) {
        Step::Run(flow, q) => {
            assert_eq!(q, Query::DeleteColumn { id: 6 });
            flow
        }
        _ => panic!(),
    };
    assert!(matches!(flow.resume(executed(0)), Step::Done(Ok(()))));
    match (DeleteColumnFlow::AwaitColumn { id: 6 }).resume(Reply::MaybeColumnType(None)) {
        Step::Done(Err(AppError::NotFound(m))) => assert_eq!(m, "Column not found"),
        _ => panic!(),
    }
}

#[test]
fn plans_are_listed() {
    let flow = match list_plans(who(3)) {
        Step::Run(flow, q) => {
            assert_eq!(q, Query::ListPlans { user_id: 3 });
            flow
        }
        _ => panic!(),
    };
    match flow.resume(Reply::PlanRows(vec![plan(2, 3, 700), plan(1, 3, 699)])) {
        Step::Done(Ok(v)) => assert_eq!(v, vec![plan(2, 3, 700), plan(1, 3, 699)]),
        _ => panic!(),
    }
}

#[test]
fn columns_are_gathered_in_order_with_their_blocks() {
    let flow = match fetch_columns_with_blocks(4) {
        Step::Run(flow, q) => {
            assert_eq!(q, Query::ListColumns { plan_id: 4 });
            flow
        }
        _ => panic!(),
    };
    let flow = match flow.resume(Reply::ColumnRows(vec![column(10, 4, 0, "original"), column(11, 4, 1, "revision")])) {
        Step::Run(flow, q) => {
            assert_eq!(q, Query::ListBlocks { column_id: 10 });
            flow
        }
        _ => panic!(),
    };
    let flow = match flow.resume(Reply::BlockRows(vec![block(1, 10, "a"), block(2, 10, "b")])) {
        Step::Run(flow, q) => {
            assert_eq!(q, Query::ListBlocks { column_id: 11 });
            flow
        }
        _ => panic!(),
    };
    match flow.resume(Reply::BlockRows(vec![])) {
        Step::Done(Ok(cols)) => {
            assert_eq!(cols.len(), 2);
            assert_eq!(cols[0].column, column(10, 4, 0, "original"));
            assert_eq!(cols[0].blocks, vec![block(1, 10, "a"), block(2, 10, "b")]);
            assert_eq!(cols[1].column, column(11, 4, 1, "revision"));
            assert!(cols[1].blocks.is_empty());
        }
        _ => panic!(),
    }
}

#[test]
fn plan_without_columns_is_answered_at_once() {
    assert!(matches!(ColumnsFlow::AwaitColumns.resume(Reply::ColumnRows(vec![])), Step::Done(Ok(v)) if v.is_empty()));
}

#[test]
fn existing_plan_is_shown() {
    let date = CalendarDate { days_from_ce: 739000 };
    let flow = match get_plan(who(3), date) {
        Step::Run(flow, q) => {
            assert_eq!(q, Query::FindPlanByDate { user_id: 3, date });
            flow
        }
        _ => panic!(),
    };
    let flow = match flow.resume(Reply::MaybePlan(Some(plan(5, 3, 739000)))) {
        Step::Run(flow, q) => {
            assert_eq!(q, Query::ListColumns { plan_id: 5 });
            flow
        }
        _ => panic!(),
    };
    match flow.resume(Reply::ColumnRows(vec![])) {
        Step::Done(Ok(r)) => {
            assert_eq!(r.plan, plan(5, 3, 739000));
            assert!(r.columns.is_empty());
        }
        _ => panic!(),
    }
}

#[test]
fn missing_plan_is_made_from_eight_to_five_with_an_original_column() {
    let date = CalendarDate { days_from_ce: 739001 };
    let flow = match get_plan(who(3), date) {
        Step::Run(flow, _) => flow,
        _ => panic!(),
    };
    let flow = match flow.resume(Reply::MaybePlan(None)) {
        Step::Run(flow, q) => {
            assert_eq!(q, Query::InsertPlan { user_id: 3, date, start_time: tod(8), end_time: tod(17) });
            flow
        }
        _ => panic!(),
    };
    let flow = match flow.resume(executed(21)) {
        Step::Run(flow, q) => {
            assert_eq!(
                q,
                Query::InsertColumn {
                    plan_id: 21,
                    column_order: 0,
                    column_type: "original".to_string(),
                    interruption_time: None,
                }
            );
            flow
        }
        _ => panic!(),
    };
    let flow = match flow.resume(executed(30)) {
        Step::Run(flow, q) => {
            assert_eq!(q, Query::FetchPlan { id: 21 });
            flow
        }
        _ => panic!(),
    };
    let flow = match flow.resume(Reply::PlanRow(plan(21, 3, 739001))) {
        Step::Run(flow, q) => {
            assert_eq!(q, Query::ListColumns { plan_id: 21 });
            flow
        }
        _ => panic!(),
    };
    let flow = match flow.resume(Reply::ColumnRows(vec![column(30, 21, 0, "original")])) {
        Step::Run(flow, q) => {
            assert_eq!(q, Query::ListBlocks { column_id: 30 });
            flow
        }
        _ => panic!(),
    };
    match flow.resume(Reply::BlockRows(vec![])) {
        Step::Done(Ok(r)) => {
            assert_eq!(r.plan.id, 21);
            assert_eq!(r.columns.len(), 1);
            assert_eq!(r.columns[0].column.column_type, "original");
        }
        _ => panic!(),
    }
}

#[test]
fn second_plan_for_a_day_is_a_conflict() {
    let req = CreatePlanRequest { plan_date: CalendarDate { days_from_ce: 5 }, start_time: tod(9), end_time: tod(18) };
    let flow = match create_plan(who(3), req) {
        Step::Run(flow, q) => {
            assert_eq!(q, Query::FindPlanIdByDate { user_id: 3, date: CalendarDate { days_from_ce: 5 } });
            flow
        }
        _ => panic!(),
    };
    match flow.resume(Reply::MaybeId(Some(1))) {
        Step::Done(Err(AppError::Conflict(m))) => assert_eq!(m, "Plan for this date already exists"),
        _ => panic!(),
    }
}

#[test]
fn plan_is_created_with_requested_hours() {
    let req = CreatePlanRequest { plan_date: CalendarDate { days_from_ce: 5 }, start_time: tod(9), end_time: tod(18) };
    let flow = match create_plan(who(3), req) {
        Step::Run(flow, _) => flow,
        _ => panic!(),
    };
    let flow = match flow.resume(Reply::MaybeId(None)) {
        Step::Run(flow, q) => {
            assert_eq!(
                q,
                Query::InsertPlan { user_id: 3, date: CalendarDate { days_from_ce: 5 }, start_time: tod(9), end_time: tod(18) }
            );
            flow
        }
        _ => panic!(),
    };
    assert!(matches!(
        flow.resume(executed(8)),
        Step::Run(_, Query::InsertColumn { plan_id: 8, column_order: 0, interruption_time: None, .. })
    ));
}

#[test]
fn plan_hours_are_changed() {
    let req = UpdatePlanRequest { start_time: Some(tod(7)), end_time: Some(tod(15)) };
    let flow = match update_plan(who(3), 8, req) {
        Step::Run(flow, q) => {
            assert_eq!(q, Query::FindOwnedPlan { plan_id: 8, user_id: 3 });
            flow
        }
        _ => panic!(),
    };
    let (flow, first_stamp) = match flow.resume(Reply::MaybeId(Some(8))) {
        Step::Run(flow, Query::UpdatePlan { id: 8, change, updated_at }) => {
            assert_eq!(change, PlanChange::StartTime(tod(7)));
            (flow, updated_at)
        }
        _ => panic!(),
    };
    let flow = match flow.resume(executed(0)) {
        Step::Run(flow, Query::UpdatePlan { id: 8, change, updated_at }) => {
            assert_eq!(change, PlanChange::EndTime(tod(15)));
            assert_eq!(updated_at, first_stamp);
            flow
        }
        _ => panic!(),
    };
    let flow = match flow.resume(executed(0)) {
        Step::Run(flow, q) => {
            assert_eq!(q, Query::FetchPlan { id: 8 });
            flow
        }
        _ => panic!(),
    };
    assert!(matches!(flow.resume(Reply::PlanRow(plan(8, 3, 1))), Step::Run(_, Query::ListColumns { plan_id: 8 })));
}

#[test]
fn foreign_plan_update_is_not_found() {
    let req = UpdatePlanRequest { start_time: None, end_time: None };
    let flow = match update_plan(who(3), 8, req) {
        Step::Run(flow, _) => flow,
        _ => panic!(),
    };
    match flow.resume(Reply::MaybeId(None)) {
        Step::Done(Err(AppError::NotFound(m))) => assert_eq!(m, "Plan not found"),
        _ => panic!(),
    }
}

#[test]
fn deleting_a_plan() {
    let flow = match delete_plan(who(3), 8) {
        Step::Run(flow, q) => {
            assert_eq!(q, Query::DeleteOwnedPlan { plan_id: 8, user_id: 3 });
            flow
        }
        _ => panic!(),
    };
    match flow.resume(Reply::Executed { rows_affected: 0, last_insert_id: 0 }) {
        Step::Done(Err(AppError::NotFound(m))) => assert_eq!(m, "Plan not found"),
        _ => panic!(),
    }
    assert!(matches!(
        DeletePlanFlow::AwaitDelete.resume(Reply::Executed { rows_affected: 1, last_insert_id: 0 }),
        Step::Done(Ok(()))
    ));
}

#[test]
fn database_failures_end_a_flow() {
    let flow = ColumnsFlow::AwaitColumns;
    match flow.resume(Reply::Failed("locked".to_string())) {
        Step::Done(Err(AppError::Database(d))) => assert_eq!(d, "locked"),
        _ => panic!(),
    }
}

#[test]
fn replies_must_fit_their_query() {
    let q = Query::MaxColumnOrder { plan_id: 1 };
    assert!(Reply::MaybeOrder(None).answers(&q));
    assert!(Reply::MaybeOrder(Some(5)).answers(&q));
    assert!(!Reply::MaybeOrder(Some(i64::MAX)).answers(&q));
    assert!(Reply::Failed("x".to_string()).answers(&q));
    assert!(!Reply::MaybeId(None).answers(&q));
    assert!(Reply::Executed { rows_affected: 0, last_insert_id: 0 }.answers(&Query::DeleteColumn { id: 1 }));
    assert!(!Reply::BlockRows(vec![]).answers(&Query::ListColumns { plan_id: 1 }));
}
