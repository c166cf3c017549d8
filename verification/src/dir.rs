use vstd::prelude::*;
use vstd::seq_lib::*;

use crate::attr::{kind_from_flag, FileKind};
use crate::error::FsError;
use crate::inode::ROOT_INODE;

verus! {

/// One child of the source directory, as the host reports it during a
/// scan: plain values the surrounding process reads off a directory entry
/// and hands to the enumerator.
pub struct DirEntryInfo {
    /// The host filesystem's inode number for the child.
    pub ino: u64,
    /// Whether the host reports the child as a directory.
    pub is_dir: bool,
    /// The child's name.
    pub name: String,
}

/// The model of a host directory entry: the same fields over a character
/// sequence.
pub struct DirEntryModel {
    pub ino: u64,
    pub is_dir: bool,
    pub name: Seq<char>,
}

impl View for DirEntryInfo {
    type V = DirEntryModel;

    open spec fn view(&self) -> DirEntryModel {
        DirEntryModel { ino: self.ino, is_dir: self.is_dir, name: self.name@ }
    }
}

/// One produced listing entry: transient, not persisted. Its
/// `sequence_index` is the entry's position in the full listing plus one;
/// the caller passes it back as `start_index` to resume the listing after
/// this entry.
pub struct DirListingEntry {
    pub ino: u64,
    pub sequence_index: u64,
    pub kind: FileKind,
    pub name: String,
}

/// The model of a produced listing entry.
pub struct DirListingModel {
    pub ino: u64,
    pub sequence_index: u64,
    pub kind: FileKind,
    pub name: Seq<char>,
}

impl View for DirListingEntry {
    type V = DirListingModel;

    open spec fn view(&self) -> DirListingModel {
        DirListingModel {
            ino: self.ino,
            sequence_index: self.sequence_index,
            kind: self.kind,
            name: self.name@,
        }
    }
}

/// The listing entry produced for the host child at position `i` of a
/// scan: inode and name carried over, kind read off the directory flag,
/// sequence index one past the position.
pub open spec fn listing_entry(es: Seq<DirEntryModel>, i: int) -> DirListingModel {
    DirListingModel {
        ino: es[i].ino,
        sequence_index: (i + 1) as u64,
        kind: kind_from_flag(es[i].is_dir),
        name: es[i].name,
    }
}

/// The full listing one scan produces: every host child in scan order.
pub open spec fn full_listing(es: Seq<DirEntryModel>) -> Seq<DirListingModel> {
    Seq::new(es.len(), |i: int| listing_entry(es, i))
}

/// The listing produced when resuming from `start`: the full listing with
/// its first `start` entries left off. A `start` at or past the end of the
/// scan yields an empty listing.
pub open spec fn listing_from(es: Seq<DirEntryModel>, start: int) -> Seq<DirListingModel> {
    if start <= es.len() {
        full_listing(es).skip(start)
    } else {
        Seq::empty()
    }
}

/// The models of the entries an exec listing holds.
pub open spec fn listing_views(v: Seq<DirListingEntry>) -> Seq<DirListingModel> {
    v.map_values(|e: DirListingEntry| e@)
}

/// The models of the host children an exec scan holds.
pub open spec fn entry_views(v: Seq<DirEntryInfo>) -> Seq<DirEntryModel> {
    v.map_values(|e: DirEntryInfo| e@)
}

/// The directory enumerator's decision function. The surrounding process
/// performs a fresh scan of the source directory (no caching across
/// calls), hands the children here in the order the host yielded them, and
/// this function produces the listing from `start_index` onward.
///
/// Only the virtual root can be listed; any other inode is refused as
/// `NotSupported`. A `start_index` at or past the end yields an empty
/// listing, which is how the caller recognizes the end.
///
/// The produced listing holds only the real host children: no `.` or `..`
/// entries are synthesized.
pub fn list(ino: u64, start_index: usize, entries: &Vec<DirEntryInfo>) -> (r: Result<
    Vec<DirListingEntry>,
    FsError,
>)
    requires
        entries@.len() < u64::MAX,
    ensures
        match r {
            Ok(v) => ino == ROOT_INODE && listing_views(v@) == listing_from(
                entry_views(entries@),
                start_index as int,
            ),
            Err(e) => ino != ROOT_INODE && e == FsError::NotSupported,
        },
{
    if ino != ROOT_INODE {
        return Err(FsError::NotSupported);
    }
    let ghost es = entry_views(entries@);
    let mut out: Vec<DirListingEntry> = Vec::new();
    let mut i: usize = start_index;
    if i > entries.len() {
        i = entries.len();
    }
    let ghost lo = i as int;
    while i < entries.len()
        invariant
            0 <= lo <= i as int <= entries@.len() < u64::MAX,
            es == entry_views(entries@),
            listing_views(out@) == full_listing(es).subrange(lo, i as int),
        decreases entries@.len() - i as int,
    {
        let e = &entries[i];
        let produced = DirListingEntry {
            ino: e.ino,
            sequence_index: (i as u64) + 1,
            kind: if e.is_dir {
                FileKind::Directory
            } else {
                FileKind::RegularFile
            },
            name: e.name.clone(),
        };
        proof {
            assert(es[i as int] == entries@[i as int]@);
            assert(produced@ == listing_entry(es, i as int));
            let new_out = out@.push(produced);
            assert(listing_views(out@).len() == out@.len());
            assert(out@.len() == i as int - lo);
            assert forall|k: int| 0 <= k < new_out.len() implies listing_views(new_out)[k]
                == full_listing(es).subrange(lo, i as int + 1)[k] by {
                assert(listing_views(new_out)[k] == new_out[k]@);
                if k < new_out.len() - 1 {
                    assert(new_out[k] == out@[k]);
                    assert(listing_views(out@)[k] == out@[k]@);
                    assert(listing_views(out@)[k] == full_listing(es).subrange(lo, i as int)[k]);
                } else {
                    assert(new_out[k] == produced);
                }
            }
            assert(listing_views(new_out) =~= full_listing(es).subrange(lo, i as int + 1));
        }
        out.push(produced);
        i = i + 1;
    }
    proof {
        if start_index as int <= es.len() {
            assert(lo == start_index as int);
            assert_seqs_equal!(
                full_listing(es).subrange(lo, es.len() as int),
                listing_from(es, start_index as int)
            );
        } else {
            assert(full_listing(es).subrange(lo, es.len() as int) =~= Seq::<
                DirListingModel,
            >::empty());
        }
    }
    Ok(out)
}

/// Listing indices are strictly increasing: over a scan of `n` children a
/// full listing has exactly `n` entries, the entry at position `i` carries
/// sequence index `i + 1`, and two distinct positions carry distinct,
/// ordered indices — so a listing holds no duplicate.
pub proof fn lemma_listing_indices(es: Seq<DirEntryModel>, i: int, j: int)
    requires
        es.len() < u64::MAX,
        0 <= i < j < full_listing(es).len(),
    ensures
        full_listing(es).len() == es.len(),
        full_listing(es)[i].sequence_index == i + 1,
        full_listing(es)[i].sequence_index < full_listing(es)[j].sequence_index,
{
}

/// Resuming is exact: the entries delivered before `start` followed by the
/// listing resumed at `start` form the whole listing, with no omission and
/// no duplication — provided the directory is unchanged between the calls.
pub proof fn lemma_listing_resume(es: Seq<DirEntryModel>, start: int)
    requires
        0 <= start <= es.len(),
    ensures
        full_listing(es) == full_listing(es).take(start) + listing_from(es, start),
        listing_from(es, start).len() == es.len() - start,
        forall|k: int|
            0 <= k < es.len() - start ==> listing_from(es, start)[k] == full_listing(es)[start + k],
{
    assert_seqs_equal!(
        full_listing(es),
        full_listing(es).take(start) + listing_from(es, start)
    );
}

} // verus!
