//! The queue of large transfers that have not completed.
//!
//! A record enters the queue when a transfer is started and leaves it only
//! when the transfer has completed and its file is verified. The queue is
//! keyed by major version and image type: adding a record replaces the one
//! with the same key, so that at most one record per key is pending. The
//! queue is written to disk by the caller after every change, and read back
//! when the program starts, to resume what a crash interrupted.

use vstd::prelude::*;

use crate::text::{clone_text, same_text};

verus! {

/// A large transfer that has been started and not completed.
#[derive(Debug)]
pub struct PendingJavaDownload {
    pub major_version: u32,
    pub image_type: String,
    pub download_url: String,
    pub file_name: String,
    pub file_size: u64,
    pub checksum: Option<String>,
    pub install_path: String,
    pub created_at: u64,
}

/// The mathematical content of a `PendingJavaDownload`.
pub struct PendingView {
    pub major_version: u32,
    pub image_type: Seq<char>,
    pub download_url: Seq<char>,
    pub file_name: Seq<char>,
    pub file_size: u64,
    pub checksum: Option<Seq<char>>,
    pub install_path: Seq<char>,
    pub created_at: u64,
}

impl View for PendingJavaDownload {
    type V = PendingView;

    open spec fn view(&self) -> PendingView {
        PendingView {
            major_version: self.major_version,
            image_type: self.image_type@,
            download_url: self.download_url@,
            file_name: self.file_name@,
            file_size: self.file_size,
            checksum: match self.checksum {
                Some(c) => Some(c@),
                None => None,
            },
            install_path: self.install_path@,
            created_at: self.created_at,
        }
    }
}

impl Clone for PendingJavaDownload {
    fn clone(&self) -> (copy: Self)
        ensures
            copy@ == self@,
    {
        PendingJavaDownload {
            major_version: self.major_version,
            image_type: self.image_type.clone(),
            download_url: self.download_url.clone(),
            file_name: self.file_name.clone(),
            file_size: self.file_size,
            checksum: clone_text(&self.checksum),
            install_path: self.install_path.clone(),
            created_at: self.created_at,
        }
    }
}

impl PendingView {
    /// The record is the one for this major version and image type.
    pub open spec fn has_key(self, major_version: u32, image_type: Seq<char>) -> bool {
        self.major_version == major_version && self.image_type == image_type
    }
}

/// The records of `records` in order, as mathematical values.
pub open spec fn views_of(records: Seq<PendingJavaDownload>) -> Seq<PendingView> {
    records.map_values(|d: PendingJavaDownload| d@)
}

/// The records that are not for the given key, in their order.
pub open spec fn without_key(
    records: Seq<PendingView>,
    major_version: u32,
    image_type: Seq<char>,
) -> Seq<PendingView> {
    records.filter(|d: PendingView| !d.has_key(major_version, image_type))
}

/// No two records have the same key.
pub open spec fn keys_unique(records: Seq<PendingView>) -> bool {
    forall|i: int, j: int|
        0 <= i < j < records.len() ==> !(#[trigger] records[i]).has_key(
            (#[trigger] records[j]).major_version,
            records[j].image_type,
        )
}

/// The queue of pending transfers, oldest first.
#[derive(Debug)]
pub struct DownloadQueue {
    pub pending_downloads: Vec<PendingJavaDownload>,
}

impl View for DownloadQueue {
    type V = Seq<PendingView>;

    open spec fn view(&self) -> Seq<PendingView> {
        views_of(self.pending_downloads@)
    }
}

impl Default for DownloadQueue {
    fn default() -> (queue: Self)
        ensures
            queue@ == Seq::<PendingView>::empty(),
    {
        let queue = DownloadQueue { pending_downloads: Vec::new() };
        assert(queue@ =~= Seq::<PendingView>::empty());
        queue
    }
}

impl Clone for DownloadQueue {
    fn clone(&self) -> (copy: Self)
        ensures
            copy@ == self@,
    {
        let mut records: Vec<PendingJavaDownload> = Vec::new();
        let mut i: usize = 0;
        while i < self.pending_downloads.len()
            invariant
                i <= self.pending_downloads@.len(),
                records@.len() == i,
                forall|k: int| 0 <= k < i ==> (#[trigger] records@[k])@ == self.pending_downloads@[k]@,
            decreases self.pending_downloads@.len() - i,
        {
            records.push(self.pending_downloads[i].clone());
            i += 1;
        }
        let copy = DownloadQueue { pending_downloads: records };
        assert(copy@ =~= self@);
        copy
    }
}

impl DownloadQueue {
    /// Removes the records with the given key and keeps the others in
    /// their order.
    fn drop_key(&mut self, major_version: u32, image_type: &str)
        ensures
            final(self)@ == without_key(old(self)@, major_version, image_type@),
    {
        let ghost before = self@;
        let ghost keep = |d: PendingView| !d.has_key(major_version, image_type@);
        let mut kept: usize = 0;
        let ghost mut seen: int = 0;
        proof {
            reveal(Seq::filter);
            assert(before.take(0).filter(keep) =~= Seq::<PendingView>::empty());
            assert(before.skip(0) =~= before);
        }
        while kept < self.pending_downloads.len()
            invariant
                0 <= seen <= before.len(),
                keep == |d: PendingView| !d.has_key(major_version, image_type@),
                kept == before.take(seen).filter(keep).len(),
                self@ == before.take(seen).filter(keep) + before.skip(seen),
            decreases before.len() - seen,
        {
            let ghost current = self@;
            assert(current.len() == kept + (before.len() - seen));
            assert(current[kept as int] == before.skip(seen)[0]);
            proof {
                reveal(Seq::filter);
                assert(before.take(seen + 1).drop_last() =~= before.take(seen));
                assert(before.take(seen + 1).last() == before[seen]);
            }
            let same = self.pending_downloads[kept].major_version == major_version && same_text(
                self.pending_downloads[kept].image_type.as_str(),
                image_type,
            );
            assert(same == !keep(before[seen]));
            if same {
                let _ = self.pending_downloads.remove(kept);
                proof {
                    assert(self@ =~= current.remove(kept as int));
                    assert(self@ =~= before.take(seen + 1).filter(keep) + before.skip(seen + 1));
                    seen = seen + 1;
                }
            } else {
                kept += 1;
                proof {
                    assert(self@ =~= before.take(seen + 1).filter(keep) + before.skip(seen + 1));
                    seen = seen + 1;
                }
            }
        }
        proof {
            assert(seen == before.len());
            assert(before.take(seen) =~= before);
            assert(before.skip(seen) =~= Seq::<PendingView>::empty());
        }
    }

    /// Adds a pending transfer. A record with the same major version and
    /// image type is replaced: the new record stands last, the others keep
    /// their order.
    pub fn add(&mut self, download: PendingJavaDownload)
        ensures
            final(self)@ == without_key(
                old(self)@,
                download.major_version,
                download.image_type@,
            ).push(download@),
    {
        self.drop_key(download.major_version, download.image_type.as_str());
        let ghost trimmed = self@;
        self.pending_downloads.push(download);
        assert(self@ =~= trimmed.push(download@));
    }

    /// Removes the pending transfer with the given major version and image
    /// type, if there is one. The others keep their order.
    pub fn remove(&mut self, major_version: u32, image_type: &str)
        ensures
            final(self)@ == without_key(old(self)@, major_version, image_type@),
    {
        self.drop_key(major_version, image_type);
    }
}

/// What is left without a key holds no record of that key, holds every
/// other record as often as before, and keeps keys unique if they were.
pub proof fn law_without_key(records: Seq<PendingView>, major_version: u32, image_type: Seq<char>)
    ensures
        forall|i: int|
            0 <= i < without_key(records, major_version, image_type).len() ==> !(
            #[trigger] without_key(records, major_version, image_type)[i]).has_key(
                major_version,
                image_type,
            ),
        forall|i: int|
            0 <= i < records.len() && !(#[trigger] records[i]).has_key(major_version, image_type)
                ==> without_key(records, major_version, image_type).contains(records[i]),
        forall|i: int|
            0 <= i < without_key(records, major_version, image_type).len() ==> records.contains(
                #[trigger] without_key(records, major_version, image_type)[i],
            ),
        without_key(records, major_version, image_type).len() <= records.len(),
        keys_unique(records) ==> keys_unique(without_key(records, major_version, image_type)),
    decreases records.len(),
{
    reveal(Seq::filter);
    let keep = |d: PendingView| !d.has_key(major_version, image_type);
    let out = without_key(records, major_version, image_type);
    if records.len() > 0 {
        let rest = records.drop_last();
        let rest_out = without_key(rest, major_version, image_type);
        law_without_key(rest, major_version, image_type);
        assert forall|i: int| 0 <= i < records.len() && !(#[trigger] records[i]).has_key(
            major_version,
            image_type,
        ) implies out.contains(records[i]) by {
            if i < rest.len() {
                assert(rest[i] == records[i]);
                let w = choose|w: int| 0 <= w < rest_out.len() && rest_out[w] == rest[i];
                assert(out[w] == records[i]);
            } else {
                assert(out[out.len() - 1] == records[i]);
            }
        }
        assert forall|i: int| 0 <= i < out.len() implies records.contains(#[trigger] out[i]) by {
            if i < rest_out.len() {
                assert(rest.contains(rest_out[i]));
                let w = choose|w: int| 0 <= w < rest.len() && rest[w] == rest_out[i];
                assert(records[w] == out[i]);
            } else {
                assert(records[records.len() - 1] == out[i]);
            }
        }
        if keys_unique(records) {
            assert(keys_unique(rest)) by {
                assert forall|i: int, j: int| 0 <= i < j < rest.len() implies !(
                #[trigger] rest[i]).has_key((#[trigger] rest[j]).major_version, rest[j].image_type) by {
                    assert(rest[i] == records[i] && rest[j] == records[j]);
                }
            }
            assert forall|i: int, j: int| 0 <= i < j < out.len() implies !(#[trigger] out[i]).has_key(
                (#[trigger] out[j]).major_version,
                out[j].image_type,
            ) by {
                if j < rest_out.len() {
                    assert(out[i] == rest_out[i] && out[j] == rest_out[j]);
                } else {
                    assert(out[j] == records.last());
                    assert(out[i] == rest_out[i]);
                    assert(rest.contains(rest_out[i]));
                    let w = choose|w: int| 0 <= w < rest.len() && rest[w] == rest_out[i];
                    assert(records[w] == out[i]);
                }
            }
        }
    }
}

/// After a record is added it is the only one with its key and stands last;
/// every record with another key is still there; and keys that were unique
/// stay unique.
pub proof fn law_add_replaces_same_key(records: Seq<PendingView>, download: PendingView)
    ensures
        ({
            let after = without_key(records, download.major_version, download.image_type).push(
                download,
            );
            &&& after.last() == download
            &&& forall|i: int|
                0 <= i < after.len() && (#[trigger] after[i]).has_key(
                    download.major_version,
                    download.image_type,
                ) ==> i == after.len() - 1
            &&& forall|i: int|
                0 <= i < records.len() && !(#[trigger] records[i]).has_key(
                    download.major_version,
                    download.image_type,
                ) ==> after.contains(records[i])
            &&& after.len() <= records.len() + 1
            &&& keys_unique(records) ==> keys_unique(after)
        }),
{
    let trimmed = without_key(records, download.major_version, download.image_type);
    let after = trimmed.push(download);
    law_without_key(records, download.major_version, download.image_type);
    assert forall|i: int| 0 <= i < after.len() && (#[trigger] after[i]).has_key(
        download.major_version,
        download.image_type,
    ) implies i == after.len() - 1 by {
        if i < trimmed.len() {
            assert(after[i] == trimmed[i]);
        }
    }
    assert forall|i: int| 0 <= i < records.len() && !(#[trigger] records[i]).has_key(
        download.major_version,
        download.image_type,
    ) implies after.contains(records[i]) by {
        let w = choose|w: int| 0 <= w < trimmed.len() && trimmed[w] == records[i];
        assert(after[w] == records[i]);
    }
    if keys_unique(records) {
        assert forall|i: int, j: int| 0 <= i < j < after.len() implies !(#[trigger] after[i]).has_key(
            (#[trigger] after[j]).major_version,
            after[j].image_type,
        ) by {
            assert(after[i] == trimmed[i]);
            if j < trimmed.len() {
                assert(after[j] == trimmed[j]);
            }
        }
    }
}

} // verus!
