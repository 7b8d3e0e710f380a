use kitty_shm::manager::{
    cleanup_plan, close_segment, CreateAction, CreatePhase, Creation, OsEvent, Release, ShmError,
    MAX_ATTEMPTS,
};
use kitty_shm::naming::format_segment_name;
use kitty_shm::registry::{SegmentRecord, SegmentRegistry};

fn is_digits(s: &str) -> bool {
    !s.is_empty() && s.chars().all(|c| c.is_ascii_digit())
}

fn matches_name_pattern(name: &str) -> bool {
    let Some(rest) = name.strip_prefix("/pi-nes-shm-") else {
        return false;
    };
    let parts: Vec<&str> = rest.split('-').collect();
    parts.len() == 3 && parts.iter().all(|p| is_digits(p))
}

fn open_event(name: &str, descriptor: i32) -> OsEvent {
    OsEvent::Opened { name: name.to_string(), descriptor }
}

#[test]
fn name_has_documented_shape() {
    let name = format_segment_name(4242, 1_700_000_000_123_456_789, 7);
    assert_eq!(name, "/pi-nes-shm-4242-1700000000123456789-7");
    assert!(matches_name_pattern(&name));
    assert!(name.starts_with('/'));
}

#[test]
fn name_of_zeros() {
    assert_eq!(format_segment_name(0, 0, 0), "/pi-nes-shm-0-0-0");
}

#[test]
fn name_of_largest_values() {
    let name = format_segment_name(u32::MAX, u128::MAX, u64::MAX);
    assert_eq!(
        name,
        format!("/pi-nes-shm-{}-{}-{}", u32::MAX, u128::MAX, u64::MAX)
    );
}

#[test]
fn distinct_counters_give_distinct_names() {
    let a = format_segment_name(100, 5_000, 1);
    let b = format_segment_name(100, 5_000, 2);
    assert_ne!(a, b);
    // a counter that is a suffix of another still differs
    let c = format_segment_name(100, 5_000, 11);
    let d = format_segment_name(100, 50_001, 1);
    assert_ne!(c, d);
}

#[test]
fn zero_size_is_refused_before_any_os_work() {
    let r = Creation::start(0);
    assert!(matches!(r, Err(ShmError::InvalidSize)));
}

#[test]
fn create_write_close_close() {
    let mut registry = SegmentRegistry::new();
    let (mut creation, first) = Creation::start(4096).unwrap();
    assert_eq!(first, CreateAction::OpenFresh);

    let name = format_segment_name(31, 123_456, 0);
    let action = creation.step(open_event(&name, 9));
    assert_eq!(action, CreateAction::Resize { descriptor: 9, size: 4096 });
    let action = creation.step(OsEvent::Resized);
    assert_eq!(action, CreateAction::MapObject { descriptor: 9, size: 4096 });
    let action = creation.step(OsEvent::Mapped { address: 0x7000_0000 });
    let record = match action {
        CreateAction::Register(record) => record,
        other => panic!("expected a registration, got {:?}", other),
    };
    assert_eq!(record.size, 4096);
    assert!(registry.insert(record));
    assert_eq!(registry.len(), 1);
    let action = creation.step(OsEvent::Registered);
    match action {
        CreateAction::Publish { name: published, address, size } => {
            assert_eq!(published, name);
            assert!(matches_name_pattern(&published));
            assert_eq!(address, 0x7000_0000);
            assert_eq!(size, 4096);
        }
        other => panic!("expected publication, got {:?}", other),
    }
    assert_eq!(creation.phase, CreatePhase::Live);
    assert_eq!(creation.step(OsEvent::Registered), CreateAction::Nothing);

    let steps = close_segment(&mut registry, &name).expect("a live segment");
    assert_eq!(
        steps,
        vec![
            Release::Unmap { address: 0x7000_0000, size: 4096 },
            Release::CloseDescriptor(9),
            Release::Unlink(name.clone()),
        ]
    );
    assert!(close_segment(&mut registry, &name).is_none());
    assert_eq!(registry.len(), 0);
}

#[test]
fn release_after_close_is_no_op() {
    let mut registry = SegmentRegistry::new();
    let name = format_segment_name(1, 2, 3);
    let record = SegmentRecord { name: name.clone(), address: 4096, size: 64, descriptor: 3 };
    assert!(registry.insert(record));
    assert!(close_segment(&mut registry, &name).is_some());
    assert!(close_segment(&mut registry, &name).is_none());
    assert!(!registry.contains(&name));
}

#[test]
fn close_of_unknown_name_finds_nothing() {
    let mut registry = SegmentRegistry::new();
    assert!(close_segment(&mut registry, "/pi-nes-shm-1-1-1").is_none());
}

#[test]
fn collision_is_retried_with_fresh_name() {
    let (mut creation, _) = Creation::start(16).unwrap();
    assert_eq!(creation.step(OsEvent::NameTaken), CreateAction::OpenFresh);
    assert_eq!(creation.phase, CreatePhase::Opening { attempts: 2 });
    let action = creation.step(open_event("/pi-nes-shm-1-2-4", 5));
    assert_eq!(action, CreateAction::Resize { descriptor: 5, size: 16 });
}

#[test]
fn collisions_exhaust_attempts() {
    let (mut creation, _) = Creation::start(16).unwrap();
    for _ in 1..MAX_ATTEMPTS {
        assert_eq!(creation.step(OsEvent::NameTaken), CreateAction::OpenFresh);
    }
    assert_eq!(
        creation.step(OsEvent::NameTaken),
        CreateAction::Fail(ShmError::AllocationExhausted)
    );
    assert_eq!(creation.phase, CreatePhase::Failed(ShmError::AllocationExhausted));
    assert_eq!(creation.step(OsEvent::NameTaken), CreateAction::Nothing);
}

#[test]
fn open_failure_is_not_retried() {
    let (mut creation, _) = Creation::start(16).unwrap();
    assert_eq!(creation.step(OsEvent::OpenFailed), CreateAction::Fail(ShmError::OsFailure));
}

#[test]
fn resize_failure_rolls_back_object() {
    let (mut creation, _) = Creation::start(128).unwrap();
    creation.step(open_event("/pi-nes-shm-1-1-0", 4));
    let action = creation.step(OsEvent::ResizeFailed);
    assert_eq!(
        action,
        CreateAction::Rollback {
            name: "/pi-nes-shm-1-1-0".to_string(),
            descriptor: 4,
            mapping: None,
            error: ShmError::OsFailure,
        }
    );
    assert_eq!(creation.phase, CreatePhase::Failed(ShmError::OsFailure));
}

#[test]
fn map_failure_rolls_back_object() {
    let (mut creation, _) = Creation::start(128).unwrap();
    creation.step(open_event("/pi-nes-shm-1-1-0", 4));
    creation.step(OsEvent::Resized);
    let action = creation.step(OsEvent::MapFailed);
    match action {
        CreateAction::Rollback { name, descriptor, mapping, error } => {
            assert_eq!(error, ShmError::OsFailure);
            assert_eq!(
                cleanup_plan(name, descriptor, mapping),
                vec![Release::CloseDescriptor(4), Release::Unlink("/pi-nes-shm-1-1-0".to_string())]
            );
        }
        other => panic!("expected a rollback, got {:?}", other),
    }
}

#[test]
fn poisoned_registry_rolls_back_mapping() {
    let (mut creation, _) = Creation::start(256).unwrap();
    creation.step(open_event("/pi-nes-shm-1-1-0", 6));
    creation.step(OsEvent::Resized);
    creation.step(OsEvent::Mapped { address: 8192 });
    let action = creation.step(OsEvent::RegistryPoisoned);
    match action {
        CreateAction::Rollback { name, descriptor, mapping, error } => {
            assert_eq!(error, ShmError::LockPoisoned);
            assert_eq!(
                cleanup_plan(name, descriptor, mapping),
                vec![
                    Release::Unmap { address: 8192, size: 256 },
                    Release::CloseDescriptor(6),
                    Release::Unlink("/pi-nes-shm-1-1-0".to_string()),
                ]
            );
        }
        other => panic!("expected a rollback, got {:?}", other),
    }
}

#[test]
fn name_in_use_rolls_back_as_os_failure() {
    let (mut creation, _) = Creation::start(256).unwrap();
    creation.step(open_event("/pi-nes-shm-1-1-0", 6));
    creation.step(OsEvent::Resized);
    creation.step(OsEvent::Mapped { address: 8192 });
    assert!(matches!(
        creation.step(OsEvent::NameInUse),
        CreateAction::Rollback { error: ShmError::OsFailure, mapping: Some((8192, 256)), .. }
    ));
}

#[test]
fn unexpected_event_rolls_back() {
    let (mut creation, _) = Creation::start(32).unwrap();
    creation.step(open_event("/pi-nes-shm-1-1-0", 2));
    assert!(matches!(
        creation.step(OsEvent::Registered),
        CreateAction::Rollback { error: ShmError::OsFailure, mapping: None, .. }
    ));
}

#[test]
fn negative_descriptor_is_not_closed() {
    assert_eq!(
        cleanup_plan("/x".to_string(), -1, None),
        vec![Release::Unlink("/x".to_string())]
    );
}

#[test]
fn registry_refuses_duplicate_name() {
    let mut registry = SegmentRegistry::new();
    let a = SegmentRecord { name: "/a".to_string(), address: 1, size: 1, descriptor: 1 };
    let b = SegmentRecord { name: "/a".to_string(), address: 2, size: 2, descriptor: 2 };
    assert!(registry.insert(a));
    assert!(!registry.insert(b));
    assert_eq!(registry.len(), 1);
    let back = registry.remove("/a").unwrap();
    assert_eq!(back.address, 1);
    assert!(registry.remove("/a").is_none());
}

#[test]
fn registry_keeps_other_segments_on_remove() {
    let mut registry = SegmentRegistry::new();
    for (i, n) in ["/a", "/b", "/c"].iter().enumerate() {
        let r = SegmentRecord { name: n.to_string(), address: i, size: 8, descriptor: i as i32 };
        assert!(registry.insert(r));
    }
    assert!(registry.remove("/b").is_some());
    assert!(registry.contains("/a"));
    assert!(!registry.contains("/b"));
    assert!(registry.contains("/c"));
    assert_eq!(registry.len(), 2);
}
