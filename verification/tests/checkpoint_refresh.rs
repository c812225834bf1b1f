use zerofs::checkpoint_refresh::{
    refresh_at_object_path, start_checkpoint_refresh, CheckpointRefresh, CheckpointRefreshParams,
    RefreshAction, RefreshEvent, RefreshFailure, RefreshStage,
};
use zerofs::machine::Machine;

type Action = RefreshAction<u32, &'static str, &'static str>;
type Event = RefreshEvent<u32, &'static str, &'static str>;

fn start(db_path: &str) -> CheckpointRefresh<u8> {
    let (refresh, action): (_, Action) = start_checkpoint_refresh(CheckpointRefreshParams {
        db_path: db_path.to_string(),
        object_store: 9,
    });
    assert_eq!(action, tick(None));
    refresh
}

fn tick(failure: Option<RefreshFailure<&'static str>>) -> Action {
    RefreshAction::AwaitTick {
        period_secs: 10,
        failure,
    }
}

fn answer(
    refresh: CheckpointRefresh<u8>,
    event: Event,
) -> (CheckpointRefresh<u8>, Option<Action>) {
    refresh.step(event)
}

#[test]
fn a_plain_path_is_read_as_it_was_opened() {
    assert_eq!(start("data/fs").db_path, "data/fs");
    assert_eq!(start("data/fs").object_store, 9);
}

#[test]
fn a_path_with_a_percent_sign_is_encoded_once_more() {
    assert_eq!(start("b%25c").db_path, "b%2525c");
}

#[test]
fn an_encoded_path_is_kept() {
    let (refresh, action): (_, Action) = refresh_at_object_path("b%25c".to_string(), 9u8);
    assert_eq!(refresh.db_path, "b%25c");
    assert_eq!(refresh.stage, RefreshStage::AwaitingTick);
    assert_eq!(action, tick(None));
}

#[test]
fn a_refresh_swaps_in_the_reader_of_a_new_checkpoint() {
    let (refresh, action) = answer(start("db"), RefreshEvent::Tick);
    assert_eq!(
        action,
        Some(RefreshAction::CreateCheckpoint {
            db_path: "db".to_string(),
            lifetime_secs: 100,
        })
    );
    let (refresh, action) = answer(refresh, RefreshEvent::CheckpointCreated(Ok(4)));
    assert_eq!(
        action,
        Some(RefreshAction::OpenReader {
            db_path: "db".to_string(),
            checkpoint: 4,
        })
    );
    let (refresh, action) = answer(refresh, RefreshEvent::ReaderOpened(Ok("reader")));
    assert_eq!(action, Some(RefreshAction::SwapReader { reader: "reader" }));
    let (refresh, action) = answer(refresh, RefreshEvent::ReaderSwapped(Ok(())));
    assert_eq!(action, Some(tick(None)));
    assert_eq!(refresh, start("db"));
}

#[test]
fn a_failed_checkpoint_waits_for_the_next_tick() {
    let (refresh, _) = answer(start("db"), RefreshEvent::Tick);
    let (refresh, action) = answer(refresh, RefreshEvent::CheckpointCreated(Err("full")));
    assert_eq!(
        action,
        Some(tick(Some(RefreshFailure::CreateCheckpoint("full"))))
    );
    assert_eq!(refresh, start("db"));
}

#[test]
fn a_failed_open_waits_for_the_next_tick() {
    let (refresh, _) = answer(start("db"), RefreshEvent::Tick);
    let (refresh, _) = answer(refresh, RefreshEvent::CheckpointCreated(Ok(1)));
    let (refresh, action) = answer(refresh, RefreshEvent::ReaderOpened(Err("gone")));
    assert_eq!(action, Some(tick(Some(RefreshFailure::OpenReader("gone")))));
    assert_eq!(refresh, start("db"));
}

#[test]
fn a_failed_swap_waits_for_the_next_tick() {
    let (refresh, _) = answer(start("db"), RefreshEvent::Tick);
    let (refresh, _) = answer(refresh, RefreshEvent::CheckpointCreated(Ok(1)));
    let (refresh, _) = answer(refresh, RefreshEvent::ReaderOpened(Ok("reader")));
    let (refresh, action) = answer(refresh, RefreshEvent::ReaderSwapped(Err("busy")));
    assert_eq!(action, Some(tick(Some(RefreshFailure::SwapReader("busy")))));
    assert_eq!(refresh, start("db"));
}

#[test]
fn events_that_answer_nothing_change_nothing() {
    let (refresh, action) = answer(start("db"), RefreshEvent::ReaderSwapped(Ok(())));
    assert_eq!(action, None);
    assert_eq!(refresh, start("db"));
}
