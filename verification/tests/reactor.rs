use proto::reactor::processor::{flatten, is_busy_group};
use proto::reactor::reclaim::reclaim_step;
use proto::{
    settle, ClaimMode, ConsumerGroupState, Context, DeliveryStatus, EventProcessor, GroupCreate,
    LoopPlan, ReclaimBounds, ReclaimScan, ReclaimStep, Settlement, Step, TaskError,
};
use redis::streams::{StreamId, StreamKey, StreamRangeReply, StreamReadReply};
use redis::{Arg, Cmd, RedisError, ToRedisArgs};
use std::collections::HashMap;
use std::time::{Duration, SystemTime};

fn server_error(line: &str) -> RedisError {
    match redis::parse_redis_value(line.as_bytes()).and_then(|value| value.extract_error()) {
        Err(err) => err,
        Ok(value) => panic!("expected an error, got {:?}", value),
    }
}

fn busy_group() -> RedisError {
    server_error("-BUSYGROUP Consumer Group name already exists\r\n")
}

fn reactor<'a>() -> EventProcessor<'a> {
    EventProcessor::new(Context::new("jobs", "staff", Some("sara".to_owned())))
}

fn reactor_in<'a>(status: ConsumerGroupState) -> EventProcessor<'a> {
    let mut processor = reactor();
    match status {
        ConsumerGroupState::Uninitialized => {}
        ConsumerGroupState::NewlyCreated => {
            processor.initialize_consumer_group(Ok(())).unwrap();
        }
        ConsumerGroupState::PreviouslyCreated => {
            processor.initialize_consumer_group(Err(busy_group())).unwrap();
        }
    }
    assert_eq!(processor.group_status(), status);
    processor
}

fn entry(id: &str) -> StreamId {
    StreamId { id: id.to_owned(), map: HashMap::new() }
}

fn ids(entries: &[StreamId]) -> Vec<&str> {
    entries.iter().map(|entry| entry.id.as_str()).collect()
}

fn args(cmd: &Cmd) -> Vec<String> {
    cmd.args_iter()
        .map(|arg| match arg {
            Arg::Simple(bytes) => String::from_utf8(bytes.to_vec()).unwrap(),
            Arg::Cursor => panic!("no cursor argument is expected"),
        })
        .collect()
}

const CREATE: Step<'static> = Step::CreateGroup(GroupCreate {
    stream_key: "jobs",
    group_name: "staff",
    start_id: "0",
});

const ZERO: Duration = Duration::ZERO;

#[test]
fn a_new_reactor_has_not_looked_for_its_group() {
    let processor = reactor();
    assert_eq!(processor.group_status(), ConsumerGroupState::Uninitialized);
    assert_eq!(processor.ctx().stream_key(), "jobs");
    assert_eq!(processor.ctx().group_name(), "staff");
    assert_eq!(processor.ctx().consumer_id(), "sara");
}

#[test]
fn start_first_asks_for_the_group() {
    let processor = reactor();
    for mode in [
        ClaimMode::ClaimAllPending,
        ClaimMode::ClearBacklog { min_idle: Duration::from_secs(1), max_idle: None },
        ClaimMode::Autoclaim(Duration::from_secs(1)),
        ClaimMode::NewOnly,
    ] {
        assert_eq!(processor.start(mode), CREATE);
    }
    assert_eq!(processor.clear_idle_backlog(&Duration::from_secs(1), &None), CREATE);
}

#[test]
fn a_fresh_stream_gives_a_newly_created_group() {
    let mut processor = reactor();
    let outcome = processor.initialize_consumer_group(Ok(()));
    assert_eq!(outcome.unwrap(), ConsumerGroupState::NewlyCreated);
    assert_eq!(processor.group_status(), ConsumerGroupState::NewlyCreated);
}

#[test]
fn busygroup_gives_a_previously_created_group() {
    let mut processor = reactor();
    let outcome = processor.initialize_consumer_group(Err(busy_group()));
    assert_eq!(outcome.unwrap(), ConsumerGroupState::PreviouslyCreated);
    assert_eq!(processor.group_status(), ConsumerGroupState::PreviouslyCreated);
}

#[test]
fn any_other_error_is_handed_back() {
    let mut processor = reactor();
    let err = processor
        .initialize_consumer_group(Err(server_error("-ERR unknown command\r\n")))
        .unwrap_err();
    assert_eq!(err.code(), Some("ERR"));
    assert_eq!(processor.group_status(), ConsumerGroupState::Uninitialized);

    let err = processor
        .initialize_consumer_group(Err(server_error("-NOGROUP No such key\r\n")))
        .unwrap_err();
    assert_eq!(err.code(), Some("NOGROUP"));
    assert_eq!(processor.group_status(), ConsumerGroupState::Uninitialized);

    let io = RedisError::from(std::io::Error::new(std::io::ErrorKind::TimedOut, "timed out"));
    assert!(processor.initialize_consumer_group(Err(io)).unwrap_err().is_io_error());
    assert_eq!(processor.group_status(), ConsumerGroupState::Uninitialized);
    assert_eq!(processor.start(ClaimMode::NewOnly), CREATE);
}

#[test]
fn the_group_state_is_settled_once() {
    let mut processor = reactor_in(ConsumerGroupState::NewlyCreated);
    assert_eq!(
        processor.initialize_consumer_group(Err(busy_group())).unwrap(),
        ConsumerGroupState::NewlyCreated
    );
    assert_eq!(processor.group_status(), ConsumerGroupState::NewlyCreated);

    let mut processor = reactor_in(ConsumerGroupState::PreviouslyCreated);
    assert_eq!(
        processor.initialize_consumer_group(Ok(())).unwrap(),
        ConsumerGroupState::PreviouslyCreated
    );
    assert!(processor.initialize_consumer_group(Err(server_error("-ERR no\r\n"))).is_err());
    assert_eq!(processor.group_status(), ConsumerGroupState::PreviouslyCreated);
}

#[test]
fn only_the_code_busygroup_means_that_the_group_exists() {
    assert!(is_busy_group(Some("BUSYGROUP")));
    assert!(!is_busy_group(Some("busygroup")));
    assert!(!is_busy_group(Some("BUSYGROUP ")));
    assert!(!is_busy_group(Some("BUSY")));
    assert!(!is_busy_group(Some("")));
    assert!(!is_busy_group(None));
}

#[test]
fn claim_all_pending_drains_a_group_that_was_there() {
    let drained = Some(ReclaimBounds { min_idle: ZERO, max_idle: Some(ZERO) });
    assert_eq!(
        reactor_in(ConsumerGroupState::PreviouslyCreated).start(ClaimMode::ClaimAllPending),
        Step::Run(LoopPlan { reclaim: drained, new_deliveries: true })
    );
    assert_eq!(
        reactor_in(ConsumerGroupState::NewlyCreated).start(ClaimMode::ClaimAllPending),
        Step::Run(LoopPlan { reclaim: None, new_deliveries: true })
    );
}

#[test]
fn clear_backlog_keeps_its_bounds() {
    let min_idle = Duration::from_millis(1500);
    let max_idle = Duration::from_secs(60);
    let previously = reactor_in(ConsumerGroupState::PreviouslyCreated);
    assert_eq!(
        previously.start(ClaimMode::ClearBacklog { min_idle, max_idle: Some(max_idle) }),
        Step::Run(LoopPlan {
            reclaim: Some(ReclaimBounds { min_idle, max_idle: Some(max_idle) }),
            new_deliveries: true,
        })
    );
    assert_eq!(
        previously.start(ClaimMode::ClearBacklog { min_idle, max_idle: None }),
        Step::Run(LoopPlan {
            reclaim: Some(ReclaimBounds { min_idle, max_idle: Some(ZERO) }),
            new_deliveries: true,
        })
    );
    assert_eq!(
        reactor_in(ConsumerGroupState::NewlyCreated)
            .start(ClaimMode::ClearBacklog { min_idle, max_idle: Some(max_idle) }),
        Step::Run(LoopPlan { reclaim: None, new_deliveries: true })
    );
}

#[test]
fn clear_backlog_with_zero_bounds_runs_what_claim_all_pending_runs() {
    for status in [ConsumerGroupState::NewlyCreated, ConsumerGroupState::PreviouslyCreated] {
        let processor = reactor_in(status);
        assert_eq!(
            processor.start(ClaimMode::ClearBacklog { min_idle: ZERO, max_idle: Some(ZERO) }),
            processor.start(ClaimMode::ClaimAllPending)
        );
    }
}

#[test]
fn autoclaim_always_reclaims() {
    let min_idle = Duration::from_secs(1);
    for status in [ConsumerGroupState::NewlyCreated, ConsumerGroupState::PreviouslyCreated] {
        assert_eq!(
            reactor_in(status).start(ClaimMode::Autoclaim(min_idle)),
            Step::Run(LoopPlan {
                reclaim: Some(ReclaimBounds { min_idle, max_idle: None }),
                new_deliveries: true,
            })
        );
    }
}

#[test]
fn new_only_never_reclaims() {
    for status in [ConsumerGroupState::NewlyCreated, ConsumerGroupState::PreviouslyCreated] {
        assert_eq!(
            reactor_in(status).start(ClaimMode::NewOnly),
            Step::Run(LoopPlan { reclaim: None, new_deliveries: true })
        );
    }
}

#[test]
fn clearing_the_backlog_reads_no_new_entries() {
    let min_idle = Duration::from_secs(5);
    let previously = reactor_in(ConsumerGroupState::PreviouslyCreated);
    assert_eq!(
        previously.clear_idle_backlog(&min_idle, &Some(Duration::from_secs(9))),
        Step::Run(LoopPlan {
            reclaim: Some(ReclaimBounds { min_idle, max_idle: Some(Duration::from_secs(9)) }),
            new_deliveries: false,
        })
    );
    assert_eq!(
        previously.clear_idle_backlog(&min_idle, &None),
        Step::Run(LoopPlan {
            reclaim: Some(ReclaimBounds { min_idle, max_idle: Some(ZERO) }),
            new_deliveries: false,
        })
    );
    assert_eq!(
        reactor_in(ConsumerGroupState::NewlyCreated).clear_idle_backlog(&min_idle, &None),
        Step::Run(LoopPlan { reclaim: None, new_deliveries: false })
    );
}

#[test]
fn the_autoclaim_command_names_stream_group_and_consumer() {
    let processor = reactor();
    let cmd = processor
        .autoclaim_request(false, &Duration::from_millis(1500), "0-0", 25)
        .unwrap();
    assert_eq!(
        args(&cmd),
        vec!["XAUTOCLAIM", "jobs", "staff", "sara", "1500", "0-0", "COUNT", "25"]
    );
    let cmd = processor
        .autoclaim_batch(&Duration::new(2, 999_999), "1526569495631-0", 0)
        .unwrap();
    assert_eq!(
        args(&cmd),
        vec!["XAUTOCLAIM", "jobs", "staff", "sara", "2000", "1526569495631-0", "COUNT", "0"]
    );
    let cmd = processor.autoclaim_request(false, &ZERO, "0-0", usize::MAX).unwrap();
    assert_eq!(args(&cmd)[4], "0");
    assert_eq!(args(&cmd)[7], usize::MAX.to_string());
}

#[test]
fn the_group_read_blocks_for_new_entries() {
    let processor = reactor();
    let read = processor.read_request(false, &Duration::from_secs(5), 10).unwrap();
    assert_eq!(read.stream_key, "jobs");
    assert_eq!(read.id, ">");
    let written: Vec<String> = read
        .options
        .to_redis_args()
        .into_iter()
        .map(|arg| String::from_utf8(arg).unwrap())
        .collect();
    assert_eq!(written, vec!["GROUP", "staff", "sara", "BLOCK", "5000", "COUNT", "10"]);
    assert!(!read.options.read_only());

    let read = processor.next_batch(&Duration::from_micros(1999), 1).unwrap();
    let written: Vec<String> = read
        .options
        .to_redis_args()
        .into_iter()
        .map(|arg| String::from_utf8(arg).unwrap())
        .collect();
    assert_eq!(written, vec!["GROUP", "staff", "sara", "BLOCK", "1", "COUNT", "1"]);
}

#[test]
fn nothing_is_asked_of_the_broker_after_shutdown() {
    let processor = reactor();
    assert!(processor.autoclaim_request(true, &ZERO, "0-0", 10).is_none());
    assert!(processor.read_request(true, &ZERO, 10).is_none());

    assert!(processor.autoclaim_batch(&ZERO, "0-0", 10).is_some());
    assert!(processor.next_batch(&ZERO, 10).is_some());
    processor.ctx().shutdown_gracefully();
    assert!(processor.autoclaim_batch(&ZERO, "0-0", 10).is_none());
    assert!(processor.next_batch(&ZERO, 10).is_none());
}

#[test]
fn the_shutdown_token_is_the_one_of_the_context() {
    let processor = reactor();
    let token = processor.shutdown_token();
    assert!(!token.is_cancelled());
    assert!(!processor.ctx().is_cancelled());
    token.cancel();
    assert!(processor.ctx().is_cancelled());
    assert!(processor.shutdown_token().is_cancelled());
}

#[test]
fn a_reply_is_dispatched_key_by_key() {
    let reply = StreamReadReply {
        keys: vec![
            StreamKey { key: "jobs".into(), ids: vec![entry("1-0"), entry("1-1")] },
            StreamKey { key: "other".into(), ids: vec![] },
            StreamKey { key: "more".into(), ids: vec![entry("2-0")] },
        ],
    };
    let dispatch = EventProcessor::process_stream(reply).unwrap();
    assert_eq!(dispatch.status, DeliveryStatus::NewDelivery);
    assert_eq!(ids(&dispatch.entries), vec!["1-0", "1-1", "2-0"]);
}

#[test]
fn a_reply_without_keys_is_not_dispatched() {
    assert!(EventProcessor::process_stream(StreamReadReply { keys: vec![] }).is_none());
    let dispatch = EventProcessor::process_stream(StreamReadReply {
        keys: vec![StreamKey { key: "jobs".into(), ids: vec![] }],
    })
    .unwrap();
    assert!(dispatch.entries.is_empty());
}

#[test]
fn batches_are_laid_end_to_end() {
    assert_eq!(flatten(vec![vec![1, 2], vec![], vec![3], vec![4, 5]]), vec![1, 2, 3, 4, 5]);
    assert_eq!(flatten(Vec::<Vec<u8>>::new()), Vec::<u8>::new());
    assert_eq!(flatten(vec![Vec::<u8>::new(), vec![]]), Vec::<u8>::new());
}

#[test]
fn claimed_entries_are_dispatched_as_reclaimed() {
    let bounds = ReclaimBounds { min_idle: Duration::from_secs(1), max_idle: None };
    match reclaim_step(&bounds, vec![entry("5-0"), entry("6-0")], None) {
        ReclaimStep::Dispatch(dispatch) => {
            assert_eq!(dispatch.status, DeliveryStatus::MinIdleElapsed);
            assert_eq!(ids(&dispatch.entries), vec!["5-0", "6-0"]);
        }
        other => panic!("expected a dispatch, got {:?}", other),
    }
    let spent = ReclaimBounds { min_idle: ZERO, max_idle: Some(ZERO) };
    assert!(matches!(
        reclaim_step(&spent, vec![entry("5-0")], Some(Duration::from_secs(9))),
        ReclaimStep::Dispatch(_)
    ));
}

#[test]
fn an_empty_batch_is_followed_by_a_quarter_of_min_idle() {
    let bounds = ReclaimBounds { min_idle: Duration::from_secs(1), max_idle: None };
    for elapsed in [None, Some(ZERO), Some(Duration::from_secs(3600))] {
        match reclaim_step(&bounds, vec![], elapsed) {
            ReclaimStep::Sleep(pause) => assert_eq!(pause, Duration::from_millis(250)),
            other => panic!("expected a pause, got {:?}", other),
        }
    }
    let bounds = ReclaimBounds { min_idle: Duration::new(2, 2), max_idle: None };
    match reclaim_step(&bounds, vec![], None) {
        ReclaimStep::Sleep(pause) => assert_eq!(pause, Duration::new(2, 2) / 4),
        other => panic!("expected a pause, got {:?}", other),
    }
}

#[test]
fn no_pause_once_max_idle_has_passed() {
    let bounds = ReclaimBounds {
        min_idle: Duration::from_secs(4),
        max_idle: Some(Duration::from_secs(10)),
    };
    assert!(matches!(
        reclaim_step(&bounds, vec![], Some(Duration::new(10, 1))),
        ReclaimStep::Rescan
    ));
    for elapsed in [None, Some(ZERO), Some(Duration::from_secs(10))] {
        match reclaim_step(&bounds, vec![], elapsed) {
            ReclaimStep::Sleep(pause) => assert_eq!(pause, Duration::from_secs(1)),
            other => panic!("expected a pause, got {:?}", other),
        }
    }
    let drain = ReclaimBounds { min_idle: ZERO, max_idle: Some(ZERO) };
    assert!(matches!(
        reclaim_step(&drain, vec![], Some(Duration::from_nanos(1))),
        ReclaimStep::Rescan
    ));
    assert!(matches!(
        reclaim_step(&drain, vec![], Some(ZERO)),
        ReclaimStep::Sleep(pause) if pause == ZERO
    ));
}

#[test]
fn a_scan_follows_the_cursor_of_the_broker() {
    let processor = reactor();
    let min_idle = Duration::from_secs(1);
    let mut scan = processor.process_idle_pending(&min_idle, &None);
    assert_eq!(scan.cursor(), "0-0");
    assert_eq!(scan.bounds(), &ReclaimBounds { min_idle, max_idle: None });

    let step = scan.advance("7-0".to_owned(), StreamRangeReply { ids: vec![entry("5-0")] });
    assert_eq!(scan.cursor(), "7-0");
    match step {
        ReclaimStep::Dispatch(dispatch) => {
            assert_eq!(dispatch.status, DeliveryStatus::MinIdleElapsed);
            assert_eq!(ids(&dispatch.entries), vec!["5-0"]);
        }
        other => panic!("expected a dispatch, got {:?}", other),
    }

    let step = scan.advance("0-0".to_owned(), StreamRangeReply { ids: vec![] });
    assert_eq!(scan.cursor(), "0-0");
    assert!(matches!(step, ReclaimStep::Sleep(pause) if pause == Duration::from_millis(250)));
    assert_eq!(scan.bounds(), &ReclaimBounds { min_idle, max_idle: None });
}

#[test]
fn a_scan_with_a_spent_budget_goes_on_at_once() {
    let mut scan = ReclaimScan::begin(ReclaimBounds { min_idle: ZERO, max_idle: Some(ZERO) });
    let began = SystemTime::now();
    while SystemTime::now() <= began {}
    let step = scan.advance("0-0".to_owned(), StreamRangeReply { ids: vec![] });
    assert!(matches!(step, ReclaimStep::Rescan));
}

#[test]
fn reclaimed_and_new_entries_are_told_apart() {
    let processor = reactor_in(ConsumerGroupState::PreviouslyCreated);
    let min_idle = Duration::from_secs(1);
    let plan = match processor.start(ClaimMode::Autoclaim(min_idle)) {
        Step::Run(plan) => plan,
        other => panic!("expected a plan, got {:?}", other),
    };
    assert!(plan.new_deliveries);
    let bounds = plan.reclaim.unwrap();
    let mut scan = processor.process_idle_pending(&bounds.min_idle, &bounds.max_idle);
    let cmd = processor.autoclaim_batch(&scan.bounds().min_idle, scan.cursor(), 10).unwrap();
    assert_eq!(args(&cmd)[4], "1000");
    match scan.advance("0-0".to_owned(), StreamRangeReply { ids: vec![entry("1-0")] }) {
        ReclaimStep::Dispatch(dispatch) => assert_eq!(dispatch.status, DeliveryStatus::MinIdleElapsed),
        other => panic!("expected a dispatch, got {:?}", other),
    }
    let reply = StreamReadReply {
        keys: vec![StreamKey { key: "jobs".into(), ids: vec![entry("2-0")] }],
    };
    assert_eq!(
        EventProcessor::process_stream(reply).unwrap().status,
        DeliveryStatus::NewDelivery
    );
}

#[test]
fn success_is_acknowledged() {
    assert_eq!(settle::<String>(Ok(())), Settlement::Acknowledge);
}

#[test]
fn delete_deletes_without_acknowledging() {
    assert_eq!(settle::<String>(Err(TaskError::Delete)), Settlement::Delete);
}

#[test]
fn skip_leaves_the_entry_pending() {
    assert_eq!(settle::<String>(Err(TaskError::SkipAcknowledgement)), Settlement::LeavePending);
}

#[test]
fn a_handler_error_is_reported_and_the_entry_stays_pending() {
    assert_eq!(
        settle(Err(TaskError::Error("out of towels".to_owned()))),
        Settlement::Report("out of towels".to_owned())
    );
    assert_eq!(settle(Err(TaskError::from(7u8))), Settlement::Report(7u8));
}

#[test]
fn milliseconds_beyond_the_word_are_cut_to_it() {
    let processor = reactor();
    let longest = Duration::MAX;
    let cut = longest.as_millis() as usize;
    let cmd = processor.autoclaim_request(false, &longest, "0-0", 1).unwrap();
    assert_eq!(args(&cmd)[4], cut.to_string());
    let read = processor.read_request(false, &longest, 1).unwrap();
    let written: Vec<String> = read
        .options
        .to_redis_args()
        .into_iter()
        .map(|arg| String::from_utf8(arg).unwrap())
        .collect();
    assert_eq!(written[4], cut.to_string());
}
