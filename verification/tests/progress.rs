use tokio::sync::broadcast::error::TryRecvError;
use wowusb::progress::{ProgressManager, ProgressUpdate, CHANNEL_CAPACITY};
use wowusb::provision::{ProgressNotice, Stage};

#[test]
fn new_manager_is_not_cancelled() {
    assert!(!ProgressManager::new().is_cancelled());
    assert!(!ProgressManager::default().is_cancelled());
}

#[test]
fn cancel_raises_the_flag_until_reset() {
    let mut manager = ProgressManager::new();
    assert!(manager.cancel());
    assert!(manager.is_cancelled());
    assert!(manager.cancel());
    assert!(manager.is_cancelled());
    manager.reset();
    assert!(!manager.is_cancelled());
    manager.reset();
    assert!(!manager.is_cancelled());
}

#[test]
fn update_without_subscriber_returns_without_failing() {
    let manager = ProgressManager::new();
    assert_eq!(manager.update(10, "m".to_string(), "s".to_string()), Ok(()));
    assert_eq!(manager.update(20, "m".to_string(), "s".to_string()), Ok(()));
    assert_eq!(
        manager.announce(ProgressNotice { percent: 30, stage: Stage::Formatting }),
        Ok(())
    );
    let mut late = manager.subscribe();
    assert_eq!(late.try_recv(), Err(TryRecvError::Empty));
}

#[test]
fn subscriber_gets_the_update_with_its_contents() {
    let manager = ProgressManager::new();
    let mut receiver = manager.subscribe();
    assert_eq!(manager.update(40, "Formatting the main partition".to_string(), "Formatting".to_string()), Ok(()));
    let update = receiver.try_recv().unwrap();
    assert_eq!(update.progress, 40);
    assert_eq!(update.message, "Formatting the main partition");
    assert_eq!(update.stage, "Formatting");
    assert!(update.timestamp > 1_600_000_000_000, "the time is in milliseconds since 1970");
    assert_eq!(receiver.try_recv(), Err(TryRecvError::Empty));
}

#[test]
fn every_subscriber_gets_every_update_in_order() {
    let manager = ProgressManager::new();
    let mut first = manager.subscribe();
    let mut second = manager.subscribe();
    for percent in [0u8, 10, 20] {
        manager.update(percent, format!("m{}", percent), "s".to_string()).unwrap();
    }
    for receiver in [&mut first, &mut second] {
        for percent in [0u8, 10, 20] {
            let update = receiver.try_recv().unwrap();
            assert_eq!(update.progress, percent);
            assert_eq!(update.message, format!("m{}", percent));
        }
        assert_eq!(receiver.try_recv(), Err(TryRecvError::Empty));
    }
}

#[test]
fn subscriber_sees_nothing_from_before_it_subscribed() {
    let manager = ProgressManager::new();
    let mut early = manager.subscribe();
    manager.update(1, "before".to_string(), "s".to_string()).unwrap();
    let mut late = manager.subscribe();
    manager.update(2, "after".to_string(), "s".to_string()).unwrap();
    assert_eq!(early.try_recv().unwrap().message, "before");
    assert_eq!(early.try_recv().unwrap().message, "after");
    assert_eq!(late.try_recv().unwrap().message, "after");
    assert_eq!(late.try_recv(), Err(TryRecvError::Empty));
}

#[test]
fn slow_subscriber_loses_the_oldest_updates_and_never_blocks() {
    let manager = ProgressManager::new();
    let mut receiver = manager.subscribe();
    let sent = 300;
    for i in 0..sent {
        assert_eq!(manager.update((i % 101) as u8, i.to_string(), "s".to_string()), Ok(()));
    }
    let lost = match receiver.try_recv() {
        Err(TryRecvError::Lagged(lost)) => lost as usize,
        other => panic!("expected to have lagged, got {:?}", other),
    };
    assert!(lost >= sent - 2 * CHANNEL_CAPACITY);
    assert!(lost <= sent - CHANNEL_CAPACITY);
    let mut next = lost;
    while let Ok(update) = receiver.try_recv() {
        assert_eq!(update.message, next.to_string());
        next += 1;
    }
    assert_eq!(next, sent);
}

#[test]
fn update_after_the_last_subscriber_left_still_succeeds() {
    let manager = ProgressManager::new();
    let receiver = manager.subscribe();
    assert!(manager.update(1, "m".to_string(), "s".to_string()).is_ok());
    drop(receiver);
    assert_eq!(manager.update(2, "m".to_string(), "s".to_string()), Ok(()));
    let mut again = manager.subscribe();
    assert!(manager.update(3, "m".to_string(), "s".to_string()).is_ok());
    assert_eq!(again.try_recv().unwrap().progress, 3);
}

#[test]
fn notice_is_published_with_the_name_and_message_of_its_stage() {
    let manager = ProgressManager::new();
    let mut receiver = manager.subscribe();
    manager.announce(ProgressNotice { percent: 20, stage: Stage::Partitioning }).unwrap();
    let update = receiver.try_recv().unwrap();
    assert_eq!(update.progress, 20);
    assert_eq!(update.stage, "Partitioning");
    assert_eq!(update.message, "Creating partitions");
}

#[test]
fn update_is_made_of_its_parts() {
    let update = ProgressUpdate::new(55, "m".to_string(), "Mounting".to_string(), 1234);
    assert_eq!(
        update,
        ProgressUpdate {
            progress: 55,
            message: "m".to_string(),
            stage: "Mounting".to_string(),
            timestamp: 1234,
        }
    );
    assert_eq!(
        ProgressUpdate::from_notice(ProgressNotice { percent: 100, stage: Stage::Succeeded }, -5),
        ProgressUpdate {
            progress: 100,
            message: "The device is ready".to_string(),
            stage: "Succeeded".to_string(),
            timestamp: -5,
        }
    );
}

#[test]
fn delivery_to_nobody_is_no_failure() {
    assert_eq!(ProgressManager::delivery(Ok(3)), Ok(()));
    assert_eq!(ProgressManager::delivery(Ok(0)), Ok(()));
    let update = ProgressUpdate::new(1, "m".to_string(), "s".to_string(), 0);
    assert_eq!(ProgressManager::delivery(Err(update)), Ok(()));
}

#[test]
fn flag_does_not_stop_publishing() {
    let mut manager = ProgressManager::new();
    let mut receiver = manager.subscribe();
    manager.cancel();
    assert!(manager.update(5, "m".to_string(), "s".to_string()).is_ok());
    assert_eq!(receiver.try_recv().unwrap().progress, 5);
}
