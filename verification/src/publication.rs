//! Double-buffered snapshot publication: a candidate is extracted into the
//! spare storage and published only when complete, so a failed extraction
//! never disturbs the published snapshot, and two warmed storages alternate.

use vstd::prelude::*;

verus! {

/// The published snapshot (metadata and storage), the spare storage, and
/// the metadata of a completely staged candidate.
pub struct SnapshotBuffers<B, M> {
    published: Option<(M, B)>,
    spare: Option<B>,
    staged: Option<M>,
}

impl<B, M: Copy> SnapshotBuffers<B, M> {
    /// The published snapshot.
    pub closed spec fn spec_published(&self) -> Option<(M, B)> {
        self.published
    }

    /// The spare storage.
    pub closed spec fn spec_spare(&self) -> Option<B> {
        self.spare
    }

    /// The metadata of the staged candidate.
    pub closed spec fn spec_staged(&self) -> Option<M> {
        self.staged
    }

    /// Nothing published, staged or warmed yet.
    pub fn new() -> (buffers: Self)
        ensures
            buffers.spec_published() is None,
            buffers.spec_spare() is None,
            buffers.spec_staged() is None,
    {
        SnapshotBuffers { published: None, spare: None, staged: None }
    }

    /// Invalidates an abandoned candidate.
    pub fn discard_staged(&mut self)
        ensures
            final(self).spec_staged() is None,
            final(self).spec_published() == old(self).spec_published(),
            final(self).spec_spare() == old(self).spec_spare(),
    {
        self.staged = None;
    }

    /// Begins staging: any earlier candidate is invalidated and the spare
    /// storage, if one is warmed, is handed out for extraction.
    pub fn take_spare(&mut self) -> (spare: Option<B>)
        ensures
            spare == old(self).spec_spare(),
            final(self).spec_spare() is None,
            final(self).spec_staged() is None,
            final(self).spec_published() == old(self).spec_published(),
    {
        self.staged = None;
        let mut spare = None;
        std::mem::swap(&mut spare, &mut self.spare);
        spare
    }

    /// Ends staging: the storage returns as the spare, and the candidate is
    /// staged only when its extraction completed (`Some` metadata).
    pub fn finish_stage(&mut self, storage: B, metadata: Option<M>)
        ensures
            final(self).spec_spare() == Some(storage),
            final(self).spec_staged() == metadata,
            final(self).spec_published() == old(self).spec_published(),
    {
        self.spare = Some(storage);
        self.staged = metadata;
    }

    /// Begins extending the staged candidate: hands out its metadata and the
    /// spare storage. Without both, the candidate is invalidated and nothing
    /// is handed out.
    pub fn take_staged(&mut self) -> (staged: Option<(M, B)>)
        ensures
            final(self).spec_staged() is None,
            final(self).spec_published() == old(self).spec_published(),
            match (old(self).spec_staged(), old(self).spec_spare()) {
                (Some(metadata), Some(storage)) => staged == Some((metadata, storage))
                    && final(self).spec_spare() is None,
                _ => staged is None && final(self).spec_spare() == old(self).spec_spare(),
            },
    {
        let metadata = match self.staged {
            Some(metadata) => metadata,
            None => {
                return None;
            },
        };
        self.staged = None;
        if self.spare.is_none() {
            return None;
        }
        let mut spare = None;
        std::mem::swap(&mut spare, &mut self.spare);
        match spare {
            Some(storage) => Some((metadata, storage)),
            None => None,
        }
    }

    /// Publishes the completely staged candidate and recycles the previously
    /// published storage as the spare. Returns the published metadata, or
    /// `None` (changing nothing) when no complete candidate is staged.
    pub fn publish(&mut self) -> (published: Option<M>)
        ensures
            match (old(self).spec_staged(), old(self).spec_spare()) {
                (Some(metadata), Some(storage)) => {
                    &&& published == Some(metadata)
                    &&& final(self).spec_published() == Some((metadata, storage))
                    &&& final(self).spec_spare() == (match old(self).spec_published() {
                        Some((_, previous)) => Some(previous),
                        None => None::<B>,
                    })
                    &&& final(self).spec_staged() is None
                },
                _ => {
                    &&& published is None
                    &&& final(self).spec_published() == old(self).spec_published()
                    &&& final(self).spec_spare() == old(self).spec_spare()
                    &&& final(self).spec_staged() == old(self).spec_staged()
                },
            },
    {
        let metadata = match self.staged {
            Some(metadata) => metadata,
            None => {
                return None;
            },
        };
        if self.spare.is_none() {
            return None;
        }
        let mut spare = None;
        std::mem::swap(&mut spare, &mut self.spare);
        let storage = match spare {
            Some(storage) => storage,
            None => {
                return None;
            },
        };
        self.staged = None;
        let mut previous = Some((metadata, storage));
        std::mem::swap(&mut previous, &mut self.published);
        self.spare = match previous {
            Some((_, old_storage)) => Some(old_storage),
            None => None,
        };
        Some(metadata)
    }

    /// The published metadata.
    pub fn published_metadata(&self) -> (metadata: Option<M>)
        ensures
            metadata == (match self.spec_published() {
                Some((metadata, _)) => Some(metadata),
                None => None::<M>,
            }),
    {
        match &self.published {
            Some(entry) => Some(entry.0),
            None => None,
        }
    }

    /// The published storage.
    pub fn published_storage(&self) -> (storage: Option<&B>)
        ensures
            storage is Some <==> self.spec_published() is Some,
            storage is Some ==> (match self.spec_published() {
                Some((_, held)) => *storage->0 == held,
                None => false,
            }),
    {
        match &self.published {
            Some(entry) => Some(&entry.1),
            None => None,
        }
    }

    /// The staged metadata.
    pub fn staged(&self) -> (metadata: Option<M>)
        ensures
            metadata == self.spec_staged(),
    {
        self.staged
    }
}

} // verus!
