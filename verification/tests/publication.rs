use sim_logic::publication::SnapshotBuffers;

/// Storage identified by a label, standing for a warmed extraction buffer.
type Storage = Vec<u8>;

fn stage(buffers: &mut SnapshotBuffers<Storage, u64>, generation: u64, succeed: bool, fresh: u8) {
    let storage = buffers.take_spare().unwrap_or_else(|| vec![fresh]);
    buffers.finish_stage(storage, succeed.then_some(generation));
}

#[test]
fn successful_publications_alternate_two_warmed_storages() {
    let mut buffers = SnapshotBuffers::new();
    assert_eq!(buffers.publish(), None);
    stage(&mut buffers, 1, true, 1);
    assert_eq!(buffers.publish(), Some(1));
    assert_eq!(buffers.published_storage(), Some(&vec![1]));
    stage(&mut buffers, 2, true, 2);
    assert_eq!(buffers.publish(), Some(2));
    assert_eq!(buffers.published_storage(), Some(&vec![2]));
    for generation in 3..10 {
        stage(&mut buffers, generation, true, 99);
        assert_eq!(buffers.publish(), Some(generation));
        let expected = if generation % 2 == 1 { 1 } else { 2 };
        assert_eq!(buffers.published_storage(), Some(&vec![expected]));
    }
}

#[test]
fn failed_staging_preserves_the_published_snapshot() {
    let mut buffers = SnapshotBuffers::new();
    stage(&mut buffers, 1, true, 1);
    buffers.publish();
    stage(&mut buffers, 2, false, 2);
    assert_eq!(buffers.staged(), None);
    assert_eq!(buffers.publish(), None);
    assert_eq!(buffers.published_metadata(), Some(1));
    assert_eq!(buffers.published_storage(), Some(&vec![1]));
    stage(&mut buffers, 3, true, 3);
    buffers.discard_staged();
    assert_eq!(buffers.publish(), None);
    assert_eq!(buffers.published_metadata(), Some(1));
}

#[test]
fn extending_a_candidate_needs_staged_metadata_and_storage() {
    let mut buffers = SnapshotBuffers::<Storage, u64>::new();
    assert_eq!(buffers.take_staged(), None);
    stage(&mut buffers, 4, true, 4);
    let (metadata, storage) = buffers.take_staged().unwrap();
    assert_eq!((metadata, storage.clone()), (4, vec![4]));
    assert_eq!(buffers.publish(), None);
    buffers.finish_stage(storage, Some(metadata));
    assert_eq!(buffers.publish(), Some(4));
}

#[test]
fn successful_publications_alternate_exactly_two_warmed_buffers() {
    let mut buffers = SnapshotBuffers::<Storage, u64>::new();
    stage(&mut buffers, 1, true, 1);
    assert_eq!(buffers.publish(), Some(1));
    let first_address = buffers.published_storage().unwrap().as_ptr();

    stage(&mut buffers, 2, true, 2);
    assert_eq!(buffers.publish(), Some(2));
    let second_address = buffers.published_storage().unwrap().as_ptr();
    assert_ne!(second_address, first_address);

    stage(&mut buffers, 3, true, 3);
    assert_eq!(buffers.publish(), Some(3));
    assert_eq!(buffers.published_storage().unwrap().as_ptr(), first_address);
    assert_eq!(buffers.published_metadata(), Some(3));
}
