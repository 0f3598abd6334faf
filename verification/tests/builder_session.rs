use fswatch::iterator::{IterStep, IteratorState, PollOutcome};
use fswatch::status::{FSW_ERR_INVALID_PATH, FSW_ERR_MEMORY, FSW_OK};
use fswatch::{
    BuildRun, FswError, FswEvent, FswEventFlag, FswFilterType, FswMonitorFilter, FswMonitorType,
    FswSession, FswSessionBuilder, FswStatus, RawEvent, SessionOp, FSW_INVALID_HANDLE,
};

#[test]
fn monitor_filter_new_keeps_its_arguments() {
    let f = FswMonitorFilter::new(".*\\.rs$", FswFilterType::Exclude, true, false);
    assert_eq!(f.text, ".*\\.rs$");
    assert_eq!(f.filter_type, FswFilterType::Exclude);
    assert!(f.case_sensitive);
    assert!(!f.extended);
}

#[test]
fn empty_builder_plans_nothing() {
    let plan = FswSessionBuilder::empty().build_plan();
    assert_eq!(plan.monitor_type, FswMonitorType::SystemDefault);
    assert!(plan.ops.is_empty());
}

#[test]
fn new_builder_plans_its_paths_in_order() {
    let plan = FswSessionBuilder::new(vec!["/a", "/b"]).add_path("/c").build_plan();
    assert_eq!(
        plan.ops,
        vec![
            SessionOp::AddPath("/a".to_string()),
            SessionOp::AddPath("/b".to_string()),
            SessionOp::AddPath("/c".to_string()),
        ]
    );
}

#[test]
fn properties_with_the_same_name_keep_the_last_value() {
    let plan = FswSession::builder()
        .property("a", "1")
        .property("b", "2")
        .property("a", "3")
        .build_plan();
    assert_eq!(
        plan.ops,
        vec![
            SessionOp::AddProperty("a".to_string(), "3".to_string()),
            SessionOp::AddProperty("b".to_string(), "2".to_string()),
        ]
    );
}

#[test]
fn setters_replace_earlier_values() {
    let plan = FswSessionBuilder::empty()
        .monitor(FswMonitorType::Poll)
        .monitor(FswMonitorType::INotify)
        .recursive(Some(false))
        .recursive(Some(true))
        .overflow(Some(true))
        .overflow(None)
        .build_plan();
    assert_eq!(plan.monitor_type, FswMonitorType::INotify);
    assert_eq!(plan.ops, vec![SessionOp::SetRecursive(true)]);
}

#[test]
fn build_plan_orders_every_option() {
    let latency = 0.5f64.to_bits();
    let plan = FswSession::builder_paths(vec!["/p"])
        .add_filter(FswMonitorFilter::new("x", FswFilterType::Include, false, true))
        .add_event_filter(FswEventFlag::Created)
        .follow_symlinks(Some(true))
        .directory_only(Some(false))
        .recursive(Some(true))
        .latency_bits(Some(latency))
        .overflow(Some(false))
        .property("k", "v")
        .add_event_filter(FswEventFlag::Removed)
        .build_plan();
    assert_eq!(
        plan.ops,
        vec![
            SessionOp::AddPath("/p".to_string()),
            SessionOp::AddProperty("k".to_string(), "v".to_string()),
            SessionOp::SetAllowOverflow(false),
            SessionOp::SetLatency(latency),
            SessionOp::SetRecursive(true),
            SessionOp::SetDirectoryOnly(false),
            SessionOp::SetFollowSymlinks(true),
            SessionOp::AddEventTypeFilter(FswEventFlag::Created),
            SessionOp::AddEventTypeFilter(FswEventFlag::Removed),
            SessionOp::AddFilter(FswMonitorFilter::new("x", FswFilterType::Include, false, true)),
        ]
    );
    assert_eq!(f64::from_bits(latency), 0.5);
}

#[test]
fn invalid_handle_gives_unknown_error() {
    assert_eq!(FSW_INVALID_HANDLE, -1);
    match FswSession::from_handle(FSW_INVALID_HANDLE) {
        Err(e) => assert_eq!(e, FswError::FromFsw(FswStatus::UnknownError)),
        Ok(_) => panic!("an invalid handle made a session"),
    }
}

#[test]
fn new_session_has_nothing_set() {
    let s = FswSession::from_handle(3).unwrap();
    assert_eq!(s.handle(), 3);
    assert!(!s.callback_set());
    assert!(!s.path_added());
    assert!(!s.started());
    assert_eq!(s.check_start_monitor(), Err(FswError::MissingRequiredParameters));
}

#[test]
fn start_needs_callback_and_path() {
    let mut s = FswSession::from_handle(0).unwrap();
    assert_eq!(s.record_add_path(FSW_OK), Ok(()));
    assert_eq!(s.check_start_monitor(), Err(FswError::MissingRequiredParameters));
    assert_eq!(s.record_set_callback(FSW_OK), Ok(()));
    assert_eq!(s.check_start_monitor(), Ok(()));
    assert_eq!(s.record_start_monitor(FSW_OK), Ok(()));
    assert!(s.started());
}

#[test]
fn failed_calls_change_nothing() {
    let mut s = FswSession::from_handle(7).unwrap();
    assert_eq!(
        s.record_add_path(FSW_ERR_INVALID_PATH),
        Err(FswError::FromFsw(FswStatus::InvalidPath))
    );
    assert!(!s.path_added());
    assert_eq!(s.record_set_callback(FSW_ERR_MEMORY), Err(FswError::FromFsw(FswStatus::Memory)));
    assert!(!s.callback_set());
    assert_eq!(s.record_start_monitor(3), Err(FswError::FromFsw(FswStatus::UnknownError)));
    assert!(!s.started());
}

#[test]
fn flags_stay_set_after_later_failures() {
    let mut s = FswSession::from_handle(1).unwrap();
    s.record_set_callback(FSW_OK).unwrap();
    s.record_add_path(FSW_OK).unwrap();
    assert!(s.record_add_path(FSW_ERR_INVALID_PATH).is_err());
    assert!(s.path_added());
    assert_eq!(s.check_start_monitor(), Ok(()));
}

#[test]
fn only_added_paths_mark_the_session() {
    let mut s = FswSession::from_handle(2).unwrap();
    assert_eq!(s.record_op(&SessionOp::SetRecursive(true), FSW_OK), Ok(()));
    assert!(!s.path_added());
    assert_eq!(
        s.record_op(&SessionOp::AddProperty("a".to_string(), "b".to_string()), FSW_ERR_MEMORY),
        Err(FswError::FromFsw(FswStatus::Memory))
    );
    assert_eq!(s.record_op(&SessionOp::AddPath("/x".to_string()), FSW_OK), Ok(()));
    assert!(s.path_added());
}

#[test]
fn shared_session_holds_the_same() {
    let mut s = FswSession::from_handle(9).unwrap();
    s.record_set_callback(FSW_OK).unwrap();
    let t = s.share();
    assert_eq!(t.handle(), 9);
    assert!(t.callback_set());
    assert!(!t.path_added());
    assert!(!t.started());
}

#[test]
fn raw_event_reads_its_flags_in_order() {
    let raw = RawEvent { path: "/tmp/f".to_string(), time: 42, flags: vec![2, 512, 4] };
    let e = raw.into_event().unwrap();
    assert_eq!(e.path, "/tmp/f");
    assert_eq!(e.time, 42);
    assert_eq!(e.flags, vec![FswEventFlag::Created, FswEventFlag::IsFile, FswEventFlag::Updated]);
}

#[test]
fn raw_event_with_unknown_flag_is_refused() {
    let raw = RawEvent { path: "/tmp/f".to_string(), time: 1, flags: vec![2, 3] };
    assert!(raw.into_event().is_none());
}

#[test]
fn raw_event_batches_convert_in_order() {
    let raw = vec![
        RawEvent { path: "a".to_string(), time: 1, flags: vec![] },
        RawEvent { path: "b".to_string(), time: -2, flags: vec![8192, 0] },
    ];
    let events = FswEvent::from_raw_events(&raw).unwrap();
    assert_eq!(
        events,
        vec![
            FswEvent { path: "a".to_string(), time: 1, flags: vec![] },
            FswEvent {
                path: "b".to_string(),
                time: -2,
                flags: vec![FswEventFlag::Overflow, FswEventFlag::NoOp],
            },
        ]
    );
    let bad = vec![
        RawEvent { path: "a".to_string(), time: 1, flags: vec![1] },
        RawEvent { path: "b".to_string(), time: 2, flags: vec![7] },
    ];
    assert!(FswEvent::from_raw_events(&bad).is_none());
    assert_eq!(FswEvent::from_raw_events(&Vec::new()), Some(Vec::new()));
}

#[test]
fn iterator_starts_the_monitor_once() {
    let mut st = IteratorState::new();
    assert!(!st.started());
    assert!(st.begin_next());
    assert!(st.started());
    assert!(!st.begin_next());
    assert!(!st.begin_next());
}

#[test]
fn iterator_decides_on_each_poll() {
    assert_eq!(IteratorState::after_poll(PollOutcome::Received, false), IterStep::Yield);
    assert_eq!(IteratorState::after_poll(PollOutcome::Empty, false), IterStep::Retry);
    assert_eq!(IteratorState::after_poll(PollOutcome::Disconnected, false), IterStep::Finish);
}

#[test]
fn iterator_hands_out_events_left_after_the_monitor_stopped() {
    assert_eq!(IteratorState::after_poll(PollOutcome::Received, true), IterStep::Yield);
    assert_eq!(IteratorState::after_poll(PollOutcome::Empty, true), IterStep::Finish);
    assert_eq!(IteratorState::after_poll(PollOutcome::Disconnected, true), IterStep::Finish);
}

#[test]
fn build_run_hands_out_options_in_order_and_succeeds() {
    let ops = vec![SessionOp::AddPath("/a".to_string()), SessionOp::SetRecursive(true)];
    let mut run = BuildRun::new(ops);
    assert!(!run.is_finished());
    assert_eq!(run.next_op(), Some(&SessionOp::AddPath("/a".to_string())));
    run.record(Ok(()));
    assert_eq!(run.next_op(), Some(&SessionOp::SetRecursive(true)));
    run.record(Ok(()));
    assert_eq!(run.next_op(), None);
    assert!(run.is_finished());
    assert_eq!(run.finish(), Ok(()));
}

#[test]
fn build_run_stops_at_the_first_failure() {
    let ops = vec![
        SessionOp::AddPath("/a".to_string()),
        SessionOp::SetRecursive(true),
        SessionOp::SetDirectoryOnly(true),
    ];
    let mut run = BuildRun::new(ops);
    run.record(Ok(()));
    run.record(Err(FswError::FromFsw(FswStatus::InvalidPath)));
    assert_eq!(run.next_op(), None);
    run.record(Err(FswError::FromFsw(FswStatus::Memory)));
    run.record(Ok(()));
    assert_eq!(run.finish(), Err(FswError::FromFsw(FswStatus::InvalidPath)));
}

#[test]
fn empty_build_run_succeeds() {
    let run = BuildRun::new(Vec::new());
    assert_eq!(run.next_op(), None);
    assert_eq!(run.finish(), Ok(()));
}
