use oem_driver::hex::decode_hex;
use oem_driver::model::{
    entry_command, BestXYZLog, ConfigOption, ConfigStruct, FatalError, Log, MessageID, OemCommand,
    RxStatusEventLog, Subsystem, VersionLog, ERROR_QUEUE_CAPACITY,
};
use oem_driver::queue::{BoundedQueue, RecvError, SendOutcome};
use oem_driver::telemetry::{LockData, LockInfo, LockStatus, OEMTime, Vector3};
use oem_driver::text::{bool_string, u64_dec};

fn xyz_frame(pos_status: u32, vel_status: u32, week: u16, ms: u32, seed: u64) -> BestXYZLog {
    BestXYZLog {
        pos_status,
        pos_type: 34,
        position: Vector3 { x: seed, y: seed + 1, z: seed + 2 },
        vel_status,
        vel_type: 34,
        velocity: Vector3 { x: seed + 3, y: seed + 4, z: seed + 5 },
        time_status: 180,
        week,
        ms,
    }
}

fn error_frame(word: u32, bit: u32, event: u32, description: &str) -> RxStatusEventLog {
    RxStatusEventLog { word, bit, event, description: description.to_string() }
}

#[test]
fn valid_frame_updates_status_and_info() {
    let mut sub = Subsystem::new();
    let frame = xyz_frame(0, 0, 120, 500, 10);
    assert_eq!(sub.handle_log(Log::BestXYZ(frame)), Ok(()));
    let status = sub.get_lock_status();
    assert_eq!(status.time, OEMTime { week: 120, ms: 500 });
    assert_eq!(status.position_status, 0);
    let info = sub.get_lock_info();
    assert_eq!(info.time, OEMTime { week: 120, ms: 500 });
    assert_eq!(info.position, Vector3 { x: 10, y: 11, z: 12 });
}

#[test]
fn invalid_frame_updates_status_only() {
    let mut sub = Subsystem::new();
    sub.handle_log(Log::BestXYZ(xyz_frame(0, 0, 120, 500, 10))).unwrap();
    let good = sub.get_lock_info();
    // Two consecutive degraded frames: status tracks each one, info stays.
    sub.handle_log(Log::BestXYZ(xyz_frame(1, 0, 121, 600, 20))).unwrap();
    sub.handle_log(Log::BestXYZ(xyz_frame(1, 2, 122, 700, 30))).unwrap();
    let status = sub.get_lock_status();
    assert_eq!(status.time, OEMTime { week: 122, ms: 700 });
    assert_eq!(status.position_status, 1);
    assert_eq!(status.velocity_status, 2);
    assert_eq!(sub.get_lock_info(), good);
}

#[test]
fn update_info_is_idempotent() {
    let mut data = LockData::new();
    let info = LockInfo {
        time: OEMTime { week: 3, ms: 4 },
        position: Vector3 { x: 1, y: 2, z: 3 },
        velocity: Vector3 { x: 4, y: 5, z: 6 },
    };
    data.update_info(info);
    let once = data.read_info();
    data.update_info(info);
    assert_eq!(data.read_info(), once);
}

#[test]
fn status_update_leaves_info_alone() {
    let mut data = LockData::new();
    let before = data.read_info();
    data.update_status(LockStatus { position_status: 9, ..LockStatus::default() });
    assert_eq!(data.read_status().position_status, 9);
    assert_eq!(data.read_info(), before);
}

#[test]
fn error_queue_drops_overflow_without_stalling() {
    let mut sub = Subsystem::new();
    // One more frame than the queue holds: the overflow is dropped and the
    // dispatcher keeps going.
    for i in 0..(ERROR_QUEUE_CAPACITY + 1) {
        let frame = error_frame(i as u32, 0, 0, "event");
        assert_eq!(sub.handle_log(Log::RxStatusEvent(frame)), Ok(()));
    }
    // Still processing afterwards: a telemetry frame lands in the cache.
    sub.handle_log(Log::BestXYZ(xyz_frame(0, 0, 7, 8, 40))).unwrap();
    assert_eq!(sub.get_lock_status().time, OEMTime { week: 7, ms: 8 });
    // Exactly the capacity's worth of records were kept, in order.
    sub.get_errors();
    assert_eq!(sub.errors.len(), ERROR_QUEUE_CAPACITY);
    assert_eq!(sub.errors[0], "RxStatusEvent(0, 0, 0): event");
    assert_eq!(sub.errors[ERROR_QUEUE_CAPACITY - 1], "RxStatusEvent(9, 0, 0): event");
}

#[test]
fn get_errors_formats_records() {
    let mut sub = Subsystem::new();
    sub.handle_log(Log::RxStatusEvent(error_frame(1, 2, 3, "Low voltage"))).unwrap();
    sub.get_errors();
    assert_eq!(sub.errors, vec!["RxStatusEvent(1, 2, 3): Low voltage".to_string()]);
    // Empty queue: another drain records nothing.
    sub.get_errors();
    assert_eq!(sub.errors.len(), 1);
}

#[test]
fn get_errors_records_lost_sender() {
    let mut sub = Subsystem::new();
    sub.error_queue.close_sender();
    sub.get_errors();
    assert_eq!(sub.errors, vec!["Errors sender disconnected".to_string()]);
}

#[test]
fn dispatcher_fails_fast_on_torn_down_receiver() {
    let mut sub = Subsystem::new();
    sub.error_queue.close_receiver();
    let r = sub.handle_log(Log::RxStatusEvent(error_frame(0, 0, 0, "x")));
    assert_eq!(r, Err(FatalError::ErrorReceiverDisconnected));
    sub.version_queue.close_receiver();
    let r = sub.handle_log(Log::Version(VersionLog { num_components: 0, components: vec![] }));
    assert_eq!(r, Err(FatalError::VersionReceiverDisconnected));
}

#[test]
fn noop_times_out_without_response() {
    let mut sub = Subsystem::new();
    let r = sub.noop(Ok(()));
    assert!(!r.success);
    assert_eq!(r.errors, "timed out waiting on channel");
    assert_eq!(
        sub.errors,
        vec!["Noop: Failed to receive version info - timed out waiting on channel".to_string()]
    );
}

#[test]
fn noop_succeeds_with_response() {
    let mut sub = Subsystem::new();
    sub.handle_log(Log::Version(VersionLog { num_components: 1, components: vec!["GPS".to_string()] }))
        .unwrap();
    let r = sub.noop(Ok(()));
    assert!(r.success);
    assert_eq!(r.errors, "");
    assert!(sub.errors.is_empty());
}

#[test]
fn noop_records_write_failure() {
    let mut sub = Subsystem::new();
    let r = sub.noop(Err("UART write failed".to_string()));
    assert!(!r.success);
    assert_eq!(r.errors, "UART write failed");
    assert_eq!(sub.errors, vec!["UART write failed".to_string()]);
}

#[test]
fn get_test_results_surfaces_version_payload() {
    let mut sub = Subsystem::new();
    let version = VersionLog {
        num_components: 2,
        components: vec!["receiver 1.0".to_string(), "antenna 2.1".to_string()],
    };
    sub.handle_log(Log::Version(version)).unwrap();
    let r = sub.get_test_results(Ok(()));
    assert!(r.success);
    assert_eq!(r.errors, "");
    let info = r.telemetry_debug.unwrap();
    assert_eq!(info.num_components, 2);
    assert_eq!(info.components, vec!["receiver 1.0".to_string(), "antenna 2.1".to_string()]);
}

#[test]
fn get_test_results_times_out_without_response() {
    let mut sub = Subsystem::new();
    let r = sub.get_test_results(Ok(()));
    assert!(!r.success);
    assert_eq!(r.errors, "timed out waiting on channel");
    assert!(r.telemetry_debug.is_none());
    assert_eq!(
        sub.errors,
        vec!["Self-Test: Failed to receive version info - timed out waiting on channel".to_string()]
    );
}

#[test]
fn configure_hardware_reports_partial_failure() {
    let mut sub = Subsystem::new();
    let entries = vec![
        ConfigStruct { option: ConfigOption::LogErrorData, hold: true, interval: 0, offset: 0 },
        ConfigStruct { option: ConfigOption::LogPositionData, hold: false, interval: 1, offset: 2 },
        ConfigStruct { option: ConfigOption::UnlogAll, hold: false, interval: 0, offset: 0 },
    ];
    let results = vec![Ok(()), Err("boom".to_string()), Ok(())];
    let r = sub.configure_hardware(entries, results);
    assert!(!r.success);
    assert_eq!(r.errors, "LogPositionData: boom");
    assert_eq!(
        r.config,
        "LogErrorData(Hold: true), LogPositionData(Hold: false): 1+2sec, UnlogAll(Hold: false)"
    );
    assert_eq!(sub.errors, vec!["boom".to_string()]);
}

#[test]
fn configure_hardware_joins_multiple_failures() {
    let mut sub = Subsystem::new();
    let entries = vec![
        ConfigStruct { option: ConfigOption::UnlogErrorData, hold: false, interval: 0, offset: 0 },
        ConfigStruct { option: ConfigOption::UnlogPositionData, hold: false, interval: 0, offset: 0 },
    ];
    let results = vec![Err("first".to_string()), Err("second".to_string())];
    let r = sub.configure_hardware(entries, results);
    assert!(!r.success);
    assert_eq!(r.errors, "UnlogErrorData: first. UnlogPositionData: second");
    assert_eq!(r.config, "UnlogErrorData(Hold: false), UnlogPositionData(Hold: false)");
}

#[test]
fn configure_hardware_all_ok() {
    let mut sub = Subsystem::new();
    let entries = vec![ConfigStruct {
        option: ConfigOption::UnlogAll,
        hold: true,
        interval: 0,
        offset: 0,
    }];
    let r = sub.configure_hardware(entries, vec![Ok(())]);
    assert!(r.success);
    assert_eq!(r.errors, "");
    assert_eq!(r.config, "UnlogAll(Hold: true)");
    assert!(sub.errors.is_empty());
}

#[test]
fn entry_command_maps_each_option() {
    let entry = ConfigStruct { option: ConfigOption::LogErrorData, hold: true, interval: 0, offset: 0 };
    assert_eq!(entry_command(&entry), OemCommand::RequestErrors { hold: true });
    let entry = ConfigStruct { option: ConfigOption::LogPositionData, hold: false, interval: 3, offset: 1 };
    assert_eq!(
        entry_command(&entry),
        OemCommand::RequestPosition { interval: 3, offset: 1, hold: false }
    );
    let entry = ConfigStruct { option: ConfigOption::UnlogAll, hold: true, interval: 0, offset: 0 };
    assert_eq!(entry_command(&entry), OemCommand::RequestUnlogAll { hold: true });
    let entry = ConfigStruct { option: ConfigOption::UnlogErrorData, hold: false, interval: 0, offset: 0 };
    assert_eq!(entry_command(&entry), OemCommand::RequestUnlog { id: MessageID::RxStatusEvent });
    let entry = ConfigStruct { option: ConfigOption::UnlogPositionData, hold: false, interval: 0, offset: 0 };
    assert_eq!(entry_command(&entry), OemCommand::RequestUnlog { id: MessageID::BestXYZ });
}

#[test]
fn passthrough_decodes_hex_pairs() {
    assert_eq!(decode_hex("c3c2"), Some(vec![0xC3, 0xC2]));
    assert_eq!(decode_hex("00ff10"), Some(vec![0x00, 0xFF, 0x10]));
    assert_eq!(decode_hex("AbCd"), Some(vec![0xAB, 0xCD]));
    assert_eq!(decode_hex(""), Some(vec![]));
}

#[test]
fn passthrough_rejects_odd_length_before_any_write() {
    let mut sub = Subsystem::new();
    assert_eq!(decode_hex("c3c"), None);
    let r = sub.passthrough("c3c".to_string(), Ok(()));
    assert!(!r.success);
    assert_eq!(r.errors, "invalid hex command");
    assert!(sub.errors.is_empty());
}

#[test]
fn passthrough_rejects_non_hex_characters() {
    assert_eq!(decode_hex("zz"), None);
    assert_eq!(decode_hex("0g"), None);
}

#[test]
fn passthrough_forwards_and_reports_write_outcome() {
    let mut sub = Subsystem::new();
    let r = sub.passthrough("c3c2".to_string(), Ok(()));
    assert!(r.success);
    assert_eq!(r.errors, "");
    let r = sub.passthrough("c3c2".to_string(), Err("bus gone".to_string()));
    assert!(!r.success);
    assert_eq!(r.errors, "bus gone");
    assert_eq!(sub.errors, vec!["bus gone".to_string()]);
}

#[test]
fn bounded_queue_is_fifo_with_drop_on_full() {
    let mut q: BoundedQueue<i32> = BoundedQueue::new(2);
    assert_eq!(q.try_send(1), SendOutcome::Sent);
    assert_eq!(q.try_send(2), SendOutcome::Sent);
    assert_eq!(q.try_send(3), SendOutcome::Full);
    assert_eq!(q.len(), 2);
    assert_eq!(q.try_recv(), Ok(1));
    assert_eq!(q.try_recv(), Ok(2));
    assert_eq!(q.try_recv(), Err(RecvError::Empty));
}

#[test]
fn bounded_queue_reports_torn_down_sides() {
    let mut q: BoundedQueue<i32> = BoundedQueue::new(1);
    q.try_send(7);
    q.close_sender();
    // A buffered item is still delivered; only then is the loss visible.
    assert_eq!(q.try_recv(), Ok(7));
    assert_eq!(q.try_recv(), Err(RecvError::Disconnected));
    let mut q: BoundedQueue<i32> = BoundedQueue::new(1);
    q.close_receiver();
    assert_eq!(q.try_send(1), SendOutcome::Disconnected);
}

#[test]
fn decimal_and_bool_rendering() {
    assert_eq!(u64_dec(0), "0");
    assert_eq!(u64_dec(7), "7");
    assert_eq!(u64_dec(1234567890), "1234567890");
    assert_eq!(u64_dec(u64::MAX), "18446744073709551615");
    assert_eq!(bool_string(true), "true");
    assert_eq!(bool_string(false), "false");
}

#[test]
fn configure_hardware_empty_batch() {
    let mut sub = Subsystem::new();
    let r = sub.configure_hardware(vec![], vec![]);
    assert!(r.success);
    assert_eq!(r.errors, "");
    assert_eq!(r.config, "");
    assert!(sub.errors.is_empty());
}

#[test]
fn version_queue_keeps_single_response() {
    let mut sub = Subsystem::new();
    let first = VersionLog { num_components: 1, components: vec!["first".to_string()] };
    let second = VersionLog { num_components: 1, components: vec!["second".to_string()] };
    // Capacity one: the overlapping response is dropped, not queued behind.
    assert_eq!(sub.handle_log(Log::Version(first)), Ok(()));
    assert_eq!(sub.handle_log(Log::Version(second)), Ok(()));
    let r = sub.get_test_results(Ok(()));
    assert!(r.success);
    assert_eq!(r.telemetry_debug.unwrap().components, vec!["first".to_string()]);
    // The queue is empty again: the next wait runs out.
    let r = sub.noop(Ok(()));
    assert!(!r.success);
}
