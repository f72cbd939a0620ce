use dmnd_client::shares_monitor::{
    MonitorAction, MonitorEvent, PendingLock, SharesInfo, SharesMonitor, BATCH_SIZE,
};

fn share(nonce: i64) -> SharesInfo {
    SharesInfo::new("worker".to_string(), 1.5f32.to_bits(), 1, nonce, 3)
}

fn tick(monitor: &mut SharesMonitor) -> (MonitorAction<String>, PendingLock) {
    monitor.monitor(MonitorEvent::Tick)
}

#[test]
fn shares_are_sent_once_they_make_a_batch() {
    let mut monitor = SharesMonitor::new();
    assert_eq!(BATCH_SIZE, 20);
    assert!(matches!(tick(&mut monitor).0, MonitorAction::ReportEmpty));
    for nonce in 0..19 {
        assert_eq!(monitor.insert_share(share(nonce)), PendingLock::Taken);
    }
    assert!(matches!(tick(&mut monitor).0, MonitorAction::AwaitBatch));
    monitor.insert_share(share(19));
    match tick(&mut monitor).0 {
        MonitorAction::Send(shares) => {
            assert_eq!(
                shares.iter().map(|s| s.nonce).collect::<Vec<_>>(),
                (0..20).collect::<Vec<i64>>()
            );
            assert_eq!(shares[0].worker_name, "worker");
            assert_eq!(f32::from_bits(shares[0].difficulty), 1.5);
        }
        other => panic!("expected a batch, got {:?}", other),
    }
    assert_eq!(monitor.get_pending_shares().0.len(), 20);
    let sent: MonitorEvent<String> = MonitorEvent::Sent;
    assert!(matches!(monitor.monitor(sent).0, MonitorAction::AwaitTick));
    assert!(monitor.get_pending_shares().0.is_empty());
}

#[test]
fn a_failed_batch_stays_pending() {
    let mut monitor = SharesMonitor::new();
    for nonce in 0..25 {
        monitor.insert_share(share(nonce));
    }
    assert!(matches!(tick(&mut monitor).0, MonitorAction::Send(_)));
    match monitor.monitor(MonitorEvent::SendFailed("no route".to_string())).0 {
        MonitorAction::Fail(error) => assert_eq!(error, "no route"),
        other => panic!("expected the error, got {:?}", other),
    }
    assert_eq!(monitor.get_pending_shares().0.len(), 25);
}

#[test]
fn a_poisoned_lock_is_reported() {
    let mut monitor = SharesMonitor::new();
    monitor.pending_shares = None;
    assert_eq!(monitor.insert_share(share(1)), PendingLock::Poisoned);
    let (shares, lock) = monitor.get_pending_shares();
    assert!(shares.is_empty());
    assert_eq!(lock, PendingLock::Poisoned);
    assert_eq!(monitor.clear_pending_shares(), PendingLock::Poisoned);
    let (action, lock) = tick(&mut monitor);
    assert!(matches!(action, MonitorAction::ReportEmpty));
    assert_eq!(lock, PendingLock::Poisoned);
}
