use std::{cell::RefCell, rc::Rc};

use sim_logic::identity::{ApplicationId, LogicEntity, WorldGeneration};
use sim_logic::text_cache::{label_action, FontStep, LabelAction, RetainedTextCache, RunStep};

fn generation(sequence: u64) -> WorldGeneration {
    WorldGeneration::new(ApplicationId::from_raw(9), sequence)
}

fn source(sequence: u64, row: u32) -> LogicEntity {
    LogicEntity::new(ApplicationId::from_raw(9), generation(sequence), u64::from(row))
}

fn scale(value: f32) -> u32 {
    value.to_bits()
}

struct TrackedResource {
    name: &'static str,
    drops: Rc<RefCell<Vec<&'static str>>>,
}

impl Drop for TrackedResource {
    fn drop(&mut self) {
        self.drops.borrow_mut().push(self.name);
    }
}

#[test]
fn dpi_change_releases_bindings_before_old_runs_and_atlases() {
    let drops = Rc::new(RefCell::new(Vec::new()));
    let mut cache = RetainedTextCache::<TrackedResource, TrackedResource>::default();
    cache.begin_frame(generation(1), scale(1.0), || {
        panic!("new cache has no old bindings")
    });
    cache.fonts.push(TrackedResource {
        name: "atlas",
        drops: Rc::clone(&drops),
    });
    cache.runs.push(TrackedResource {
        name: "run",
        drops: Rc::clone(&drops),
    });
    cache.live.push(3);

    cache.begin_frame(generation(1), scale(1.5), || drops.borrow_mut().push("bindings"));

    assert_eq!(*drops.borrow(), ["bindings", "run", "atlas"]);
    assert!(cache.fonts.is_empty());
    assert!(cache.runs.is_empty());
    assert!(cache.live.is_empty());
    assert_eq!(cache.scale_bits, Some(1.5_f32.to_bits()));
    assert_eq!(cache.generation, Some(generation(1)));
    cache.begin_frame(generation(1), scale(1.5), || panic!("same DPI keeps bindings"));
    assert_eq!(drops.borrow().len(), 3);
}

#[test]
fn world_replacement_retires_old_runs_even_when_raw_entity_bits_match() {
    let mut cache = RetainedTextCache::<u32, LogicEntity>::default();
    cache.begin_frame(generation(1), scale(1.25), || {});
    cache.fonts.push(7);
    cache.runs.push(source(1, 0));
    assert_eq!(source(1, 0).stable_bits(), source(2, 0).stable_bits());

    cache.begin_frame(generation(2), scale(1.25), || {
        panic!("World switch keeps same-DPI fonts")
    });
    cache
        .retain_visible_runs(&[(source(2, 0), true)], |run| *run)
        .unwrap();

    assert!(cache.runs.is_empty());
    assert_eq!(cache.fonts, [7]);
    assert_eq!(cache.generation, Some(generation(2)));
}

#[test]
fn missing_disabled_and_empty_labels_retire_only_their_own_runs() {
    let mut cache = RetainedTextCache::<(), LogicEntity>::default();
    cache.begin_frame(generation(1), scale(1.0), || {});
    cache
        .runs
        .extend([source(1, 0), source(1, 1), source(1, 2), source(1, 3)]);
    // Disabled/despawned sources 0 and 3 are absent from the published snapshot;
    // source 1 is still a component but its replacement string is empty.
    cache
        .retain_visible_runs(&[(source(1, 2), true), (source(1, 1), false)], |run| *run)
        .unwrap();
    assert_eq!(cache.runs, [source(1, 2)]);
    assert_eq!(cache.live, [source(1, 2).stable_bits()]);

    cache.retain_visible_runs(&[], |run| *run).unwrap();
    assert!(cache.runs.is_empty());
    assert!(cache.live.is_empty());
}

#[test]
fn no_live_labels_keep_only_application_font_resources() {
    let drops = Rc::new(RefCell::new(Vec::new()));
    let mut cache =
        RetainedTextCache::<TrackedResource, (LogicEntity, TrackedResource)>::default();
    cache.begin_frame(generation(1), scale(1.0), || {});
    cache.fonts.push(TrackedResource {
        name: "atlas",
        drops: Rc::clone(&drops),
    });
    cache.runs.push((
        source(1, 0),
        TrackedResource {
            name: "run",
            drops: Rc::clone(&drops),
        },
    ));

    cache.retain_visible_runs(&[], |run| run.0).unwrap();

    assert_eq!(*drops.borrow(), ["run"]);
    assert_eq!(cache.fonts.len(), 1);
    assert!(cache.runs.is_empty());
}

#[test]
fn warmed_bookkeeping_reuses_vector_storage_for_unchanged_labels() {
    let mut cache = RetainedTextCache::<u32, LogicEntity>::default();
    cache.begin_frame(generation(1), scale(2.0), || {});
    cache.fonts.push(7);
    cache.runs.extend((0..64).map(|row| source(1, row)));
    let labels = (0..64)
        .rev()
        .map(|row| (source(1, row), true))
        .collect::<Vec<_>>();
    cache.retain_visible_runs(&labels, |run| *run).unwrap();
    let storage = (
        cache.fonts.as_ptr(),
        cache.runs.as_ptr(),
        cache.live.as_ptr(),
    );
    let capacities = (
        cache.fonts.capacity(),
        cache.runs.capacity(),
        cache.live.capacity(),
    );

    for _ in 0..360 {
        cache.begin_frame(generation(1), scale(2.0), || {
            panic!("unchanged epoch must retain bindings")
        });
        cache.retain_visible_runs(&labels, |run| *run).unwrap();
        assert_eq!(
            (
                cache.fonts.as_ptr(),
                cache.runs.as_ptr(),
                cache.live.as_ptr()
            ),
            storage
        );
        assert_eq!(
            (
                cache.fonts.capacity(),
                cache.runs.capacity(),
                cache.live.capacity()
            ),
            capacities
        );
        assert_eq!(cache.runs.len(), 64);
    }
}

#[test]
fn explicit_recovery_clear_drops_resources_and_resets_both_epochs() {
    let mut cache = RetainedTextCache::<u32, LogicEntity>::default();
    cache.begin_frame(generation(1), scale(1.0), || {});
    cache.fonts.push(7);
    cache.runs.push(source(1, 0));
    cache
        .retain_visible_runs(&[(source(1, 0), true)], |run| *run)
        .unwrap();
    let capacities = (
        cache.fonts.capacity(),
        cache.runs.capacity(),
        cache.live.capacity(),
    );

    cache.clear();

    assert!(cache.fonts.is_empty());
    assert!(cache.runs.is_empty());
    assert!(cache.live.is_empty());
    assert_eq!(cache.generation, None);
    assert_eq!(cache.scale_bits, None);
    assert_eq!(
        (
            cache.fonts.capacity(),
            cache.runs.capacity(),
            cache.live.capacity()
        ),
        capacities
    );
    cache.begin_frame(generation(1), scale(1.0), || {
        panic!("replacement renderer already cleared bindings")
    });
    assert_eq!(cache.generation, Some(generation(1)));
}

#[test]
fn live_bits_are_sorted_and_runs_keep_their_order() {
    let mut cache = RetainedTextCache::<(), LogicEntity>::default();
    cache.begin_frame(generation(1), scale(1.0), || {});
    cache.runs.extend([source(1, 5), source(1, 1), source(1, 9)]);
    cache
        .retain_visible_runs(
            &[(source(1, 9), true), (source(1, 5), true), (source(1, 7), true)],
            |run| *run,
        )
        .unwrap();
    assert_eq!(cache.live, [5, 7, 9]);
    assert_eq!(cache.runs, [source(1, 5), source(1, 9)]);
}

#[test]
fn label_actions_reuse_create_keep_update_replace_and_insert() {
    let fonts = [2u64, 5, 9];
    // (source bits, font slot, text equal)
    let runs = [(10u64, 5u64, true), (20, 5, false), (30, 2, true)];
    let keep = label_action(&fonts, &runs, 5, 10);
    assert_eq!(keep, LabelAction { font: FontStep::Reuse { index: 1 }, run: RunStep::Keep { index: 0 } });
    let update = label_action(&fonts, &runs, 5, 20);
    assert_eq!(update.run, RunStep::Update { index: 1 });
    let replace = label_action(&fonts, &runs, 9, 30);
    assert_eq!(replace, LabelAction { font: FontStep::Reuse { index: 2 }, run: RunStep::Replace { index: 2 } });
    let insert = label_action(&fonts, &runs, 7, 25);
    assert_eq!(insert, LabelAction { font: FontStep::Create { position: 2 }, run: RunStep::Insert { position: 2 } });
    let first = label_action(&[], &[], 1, 1);
    assert_eq!(first, LabelAction { font: FontStep::Create { position: 0 }, run: RunStep::Insert { position: 0 } });
}
