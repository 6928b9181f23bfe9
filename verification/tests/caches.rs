use std::cell::Cell;

use sim_engine::LogicalViewport;
use sim_logic::cache::{CacheError, ResourceCache, TargetCache};

#[test]
fn cache_reuses_resources_until_renderer_invalidation() {
    let uploads = Cell::new(0);
    let mut cache = ResourceCache::new();
    let create = || {
        uploads.set(uploads.get() + 1);
        Ok::<_, ()>(uploads.get())
    };
    cache.ensure(7, 2, create).unwrap();
    cache.ensure(7, 2, create).unwrap();
    cache.ensure(9, 2, create).unwrap();
    assert_eq!(uploads.get(), 2);
    assert_eq!(cache.get(7), Some(&1));
    assert_eq!(cache.get(9), Some(&2));
    let capacity = cache.capacity();
    cache.clear();
    assert!(cache.get(7).is_none());
    assert_eq!(cache.capacity(), capacity);
    cache.ensure(7, 2, create).unwrap();
    assert_eq!(uploads.get(), 3);
    assert_eq!(cache.get(7), Some(&3));
}

#[test]
fn failed_resource_preparation_preserves_existing_entries_and_retries() {
    let mut cache = ResourceCache::new();
    cache.ensure(1, 2, || Ok::<_, &'static str>(10)).unwrap();
    assert_eq!(
        cache.ensure(2, 2, || Err("upload failed")),
        Err(CacheError::Create("upload failed"))
    );
    assert_eq!(cache.get(1), Some(&10));
    assert_eq!(cache.get(2), None);
    cache.ensure(2, 2, || Ok::<_, &'static str>(20)).unwrap();
    assert_eq!(cache.get(2), Some(&20));
    assert_eq!(
        cache.ensure(3, 2, || Ok::<_, &'static str>(30)),
        Err(CacheError::Limit { limit: 2 })
    );
    assert_eq!(cache.len(), 2);
}

#[test]
fn a_cached_key_never_calls_its_creator_even_at_the_limit() {
    let mut cache = ResourceCache::new();
    cache.ensure(4u32, 1, || Ok::<_, ()>("first")).unwrap();
    cache
        .ensure(4u32, 1, || -> Result<&str, ()> { panic!("cached key must not be recreated") })
        .unwrap();
    assert_eq!(cache.get(4), Some(&"first"));
    assert_eq!(cache.len(), 1);
}

#[derive(Debug, Clone, Copy, PartialEq)]
struct TargetDescriptor {
    width: u32,
    height: u32,
    viewport: LogicalViewport,
}

#[test]
fn target_cache_reuses_then_recreates_after_resize_scale_or_recovery() {
    let initial = TargetDescriptor {
        width: 1280,
        height: 720,
        viewport: LogicalViewport::new(1280.0, 720.0).unwrap(),
    };
    let scaled = TargetDescriptor {
        viewport: LogicalViewport::new(640.0, 360.0).unwrap(),
        ..initial
    };
    let resized = TargetDescriptor {
        width: 960,
        height: 540,
        viewport: LogicalViewport::new(960.0, 540.0).unwrap(),
    };
    let mut cache = TargetCache::new();
    let mut calls = 0;
    for descriptor in [initial, initial, scaled, scaled, resized] {
        cache
            .ensure(descriptor, || -> Result<usize, ()> {
                calls += 1;
                Ok(calls)
            })
            .unwrap();
    }
    assert_eq!(calls, 3);
    assert_eq!(cache.get(), Some(&3));
    cache.clear();
    assert!(cache.get().is_none());
    cache
        .ensure(resized, || -> Result<usize, ()> {
            calls += 1;
            Ok(calls)
        })
        .unwrap();
    assert_eq!(calls, 4);
    let failed = cache.ensure(initial, || -> Result<usize, &'static str> {
        Err("target allocation")
    });
    assert_eq!(failed, Err("target allocation"));
    assert!(cache.get().is_none());
}

#[test]
fn target_replacement_policy_preserves_steady_state_and_invalidates_failures() {
    let descriptor = TargetDescriptor {
        width: 640,
        height: 360,
        viewport: LogicalViewport::new(640.0, 360.0).unwrap(),
    };
    let changed = TargetDescriptor {
        viewport: LogicalViewport::new(320.0, 180.0).unwrap(),
        ..descriptor
    };
    let mut cache = TargetCache::new();
    assert!(!cache.matches(descriptor));
    cache.ensure(descriptor, || Ok::<_, ()>(1)).unwrap();
    assert!(cache.matches(descriptor));
    assert!(!cache.matches(changed));
    assert_eq!(
        cache.ensure(changed, || Err::<i32, _>("allocation")),
        Err("allocation")
    );
    assert!(!cache.matches(descriptor));
    assert!(!cache.matches(changed));
    cache.ensure(changed, || Ok::<_, ()>(2)).unwrap();
    assert!(cache.matches(changed));
    cache.clear();
    assert!(!cache.matches(changed));
}
