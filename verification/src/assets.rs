//! The archive: an index stream and a data blob that together hold
//! variable-length records.
//!
//! The index stream is a run of little-endian `u32` end offsets.  With a
//! leading 0 they are the boundaries, and record `i` is the bytes of the blob
//! from boundary `i` up to boundary `i + 1`.

use crate::error::DecodeError;
use crate::le::{get_u32, u32_at};
use vstd::prelude::*;
use vstd::slice::{slice_subrange, slice_to_vec};

verus! {

/// The boundaries that an index stream gives: 0, then each whole `u32` of the
/// stream.  Up to three bytes that are left over at the end do not count.
pub open spec fn boundaries_of(index: Seq<u8>) -> Seq<usize> {
    Seq::new(
        (1 + index.len() / 4) as nat,
        |k: int|
            if k == 0 {
                0usize
            } else {
                u32_at(index, 4 * (k - 1)) as usize
            },
    )
}

/// Boundary `i`, which is 0 where the list has no such entry.
pub open spec fn boundary(idx: Seq<usize>, i: int) -> int {
    if 0 <= i < idx.len() {
        idx[i] as int
    } else {
        0
    }
}

/// Record `i`: the bytes between boundary `i` and boundary `i + 1`.  There is
/// none where the second is not greater than the first, nor where it lies
/// beyond the end of the data.
pub open spec fn record_of(idx: Seq<usize>, data: Seq<u8>, i: int) -> Option<Seq<u8>> {
    let cur = boundary(idx, i);
    let next = boundary(idx, i + 1);
    if cur < next <= data.len() {
        Some(data.subrange(cur, next))
    } else {
        None
    }
}

/// An archive without an index holds no record at all.
pub proof fn lemma_no_index_no_record(data: Seq<u8>, i: int)
    ensures
        boundaries_of(Seq::<u8>::empty()) == seq![0usize],
        record_of(seq![0usize], data, i).is_none(),
        record_of(boundaries_of(Seq::<u8>::empty()), data, i).is_none(),
{
    assert(boundaries_of(Seq::<u8>::empty()) =~= seq![0usize]);
}

/// A record is never empty, and it is the slice of the data that its two
/// boundaries cut out.
pub proof fn lemma_record_is_slice(idx: Seq<usize>, data: Seq<u8>, i: int)
    ensures
        match record_of(idx, data, i) {
            Some(bytes) => {
                &&& bytes.len() == boundary(idx, i + 1) - boundary(idx, i)
                &&& bytes.len() > 0
                &&& forall|k: int|
                    0 <= k < bytes.len() ==> bytes[k] == data[boundary(idx, i) + k]
            },
            None => boundary(idx, i + 1) <= boundary(idx, i) || boundary(idx, i + 1) > data.len(),
        },
{
}

/// In a well-formed archive every pair of boundaries that differ cuts out a
/// record, and the records lie in the data in the order of their numbers,
/// none reaching into the next.
pub proof fn lemma_well_formed_records(archive: GrpAsset, i: int, j: int)
    requires
        archive.well_formed(),
        0 <= i < j < archive.idx@.len() - 1,
    ensures
        archive.record(i) == (if archive.idx@[i] < archive.idx@[i + 1] {
            Some(archive.data@.subrange(archive.idx@[i] as int, archive.idx@[i + 1] as int))
        } else {
            None
        }),
        boundary(archive.idx@, i + 1) <= boundary(archive.idx@, j),
{
}

/// An archive: the boundaries and the data blob.
#[derive(Debug, Clone)]
pub struct GrpAsset {
    pub idx: Vec<usize>,
    pub data: Vec<u8>,
}

impl GrpAsset {
    /// The boundaries are as a sound index gives them: they start at 0,
    /// never decrease and stay inside the data.  Nothing requires this of an
    /// archive; one that is not so only has fewer records.
    pub open spec fn well_formed(&self) -> bool {
        &&& self.idx@.len() > 0
        &&& self.idx@[0] == 0
        &&& forall|i: int, j: int|
            0 <= i <= j < self.idx@.len() ==> self.idx@[i] <= self.idx@[j]
        &&& self.idx@.last() <= self.data@.len()
    }

    /// Record `i` of this archive.
    pub open spec fn record(&self, i: int) -> Option<Seq<u8>> {
        record_of(self.idx@, self.data@, i)
    }

    /// Borrows record `i`, or says that there is none.
    pub fn idx(&self, i: usize) -> (r: Option<&[u8]>)
        ensures
            match r {
                Some(bytes) => self.record(i as int) == Some(bytes@),
                None => self.record(i as int).is_none(),
            },
    {
        let n: usize = self.idx.len();
        let cur: usize = if i < n {
            self.idx[i]
        } else {
            0
        };
        let next: usize = if i < n && i + 1 < n {
            self.idx[i + 1]
        } else {
            0
        };
        if cur < next && next <= self.data.len() {
            Some(slice_subrange(self.data.as_slice(), cur, next))
        } else {
            None
        }
    }
}

/// Parses an index stream into boundaries.
pub fn read_index(index: &[u8]) -> (r: Vec<usize>)
    ensures
        r@ == boundaries_of(index@),
{
    let n: usize = index.len() / 4;
    let mut idx: Vec<usize> = Vec::new();
    idx.push(0);
    let mut k: usize = 0;
    while k < n
        invariant
            k <= n,
            n == index@.len() / 4,
            index@.len() <= usize::MAX,
            idx@.len() == k + 1,
            forall|j: int| 0 <= j <= k ==> idx@[j] == boundaries_of(index@)[j],
        decreases n - k,
    {
        let end: u32 = get_u32(index, 4 * k);
        idx.push(end as usize);
        k += 1;
    }
    assert(idx@ =~= boundaries_of(index@));
    idx
}

/// Says whether an archive has its index.  One without is reported as
/// `MissingIndex`; it can still be built.
pub fn check_index(index: Option<&[u8]>) -> (r: Result<(), DecodeError>)
    ensures
        r == (if index.is_some() {
            Ok::<(), DecodeError>(())
        } else {
            Err::<(), DecodeError>(DecodeError::MissingIndex)
        }),
{
    match index {
        Some(_) => Ok(()),
        None => Err(DecodeError::MissingIndex),
    }
}

/// Builds the archive from the data blob and, where there is one, the index
/// stream.  Without an index the archive is still built; it then holds no
/// record.
pub fn load_grp(index: Option<&[u8]>, bytes: &[u8]) -> (r: GrpAsset)
    ensures
        r.data@ == bytes@,
        r.idx@ == (match index {
            Some(stream) => boundaries_of(stream@),
            None => seq![0usize],
        }),
{
    let idx = match index {
        Some(stream) => read_index(stream),
        None => {
            let mut only: Vec<usize> = Vec::new();
            only.push(0);
            assert(only@ =~= seq![0usize]);
            only
        },
    };
    GrpAsset { idx, data: slice_to_vec(bytes) }
}

/// Loads archives, from files with the extension `grp`.
#[derive(Default)]
pub struct GrpLoader;

impl GrpLoader {
    /// The archive that the bytes of a data file and of its index file make.
    pub fn load(&self, bytes: &[u8], index: Option<&[u8]>) -> (r: GrpAsset)
        ensures
            r.data@ == bytes@,
            r.idx@ == (match index {
                Some(stream) => boundaries_of(stream@),
                None => seq![0usize],
            }),
    {
        load_grp(index, bytes)
    }

    /// The extension of the files that this loader takes.
    pub fn extension(&self) -> (r: &'static str)
        ensures
            r@ == "grp"@,
    {
        "grp"
    }
}

/// A file taken as it is, such as a colour table.
#[derive(Debug, Clone)]
pub struct DataAsset {
    pub data: Vec<u8>,
}

/// Wraps the bytes of a data file.
pub fn load_data(bytes: &[u8]) -> (r: DataAsset)
    ensures
        r.data@ == bytes@,
{
    DataAsset { data: slice_to_vec(bytes) }
}

/// Loads plain data files, from files with the extension `col`.
#[derive(Default)]
pub struct DataAssetLoader;

impl DataAssetLoader {
    /// The asset that holds `bytes`.
    pub fn load(&self, bytes: &[u8]) -> (r: DataAsset)
        ensures
            r.data@ == bytes@,
    {
        load_data(bytes)
    }

    /// The extension of the files that this loader takes.
    pub fn extension(&self) -> (r: &'static str)
        ensures
            r@ == "col"@,
    {
        "col"
    }
}

} // verus!
