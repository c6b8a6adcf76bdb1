//! The closed set of photo-size descriptors, their uniform ranking key, and
//! the per-variant download strategy.

use vstd::prelude::*;

use crate::wire::{ClientHandle, FileLocation, InputFileLocation, LocatorView, PhotoData,
    PhotoSizeData};
use crate::{step_view, DownloadStep, MediaError};

verus! {

/// A photo-size descriptor: one thumbnail slot of a photo, classified by
/// its retrieval strategy.
pub enum PhotoSize {
    /// No bytes, no remote identity.
    Empty(SizeEmpty),
    /// Bytes must be fetched remotely using the parent photo's identity
    /// plus this variant's slot tag.
    Size(Size),
    /// A low-resolution raster thumbnail fully present in the record.
    Cached(CachedSize),
    /// Embedded bytes in a compact proprietary thumbnail layout.
    Stripped(StrippedSize),
    /// Cumulative JPEG scan byte-lengths; retrieval not defined here.
    Progressive(ProgressiveSize),
    /// An SVG-like path outline; retrieval not defined here.
    Path(PathSize),
}

pub struct SizeEmpty {
    pub photo_type: String,
}

pub struct Size {
    pub photo_type: String,
    pub width: i32,
    pub height: i32,
    /// Declared byte count of the remote content.
    pub size: i32,
    /// Identity of the parent photo, threaded in so this entry alone can
    /// name the blob to fetch.
    pub id: i64,
    pub access_hash: i64,
    pub file_reference: Vec<u8>,
    pub client: ClientHandle,
}

pub struct CachedSize {
    pub photo_type: String,
    pub width: i32,
    pub height: i32,
    pub bytes: Vec<u8>,
}

pub struct StrippedSize {
    pub photo_type: String,
    pub bytes: Vec<u8>,
}

pub struct ProgressiveSize {
    pub photo_type: String,
    pub width: i32,
    pub height: i32,
    pub sizes: Vec<i32>,
}

pub struct PathSize {
    pub photo_type: String,
    pub bytes: Vec<u8>,
}

/// Sum of a sequence of scan byte-lengths.
pub open spec fn sum_of(s: Seq<i32>) -> int
    decreases s.len(),
{
    if s.len() == 0 {
        0
    } else {
        sum_of(s.drop_last()) + s.last()
    }
}

impl PhotoSize {
    /// The ranking key every variant reports, uniformly, regardless of its
    /// retrieval strategy: no content counts 0, remote content counts its
    /// declared byte count, embedded content counts its byte length, and a
    /// progressive entry counts the sum of its scan lengths.
    pub open spec fn spec_size(self) -> int {
        match self {
            PhotoSize::Empty(_) => 0,
            PhotoSize::Size(s) => s.size as int,
            PhotoSize::Cached(s) => s.bytes@.len() as int,
            PhotoSize::Stripped(s) => s.bytes@.len() as int,
            PhotoSize::Progressive(s) => sum_of(s.sizes@),
            PhotoSize::Path(s) => s.bytes@.len() as int,
        }
    }

    /// Well-formedness of the size fields: byte counts that the wire
    /// declares are non-negative, and the total of a progressive entry
    /// fits the machine word that `size` returns.
    pub open spec fn wf(self) -> bool {
        match self {
            PhotoSize::Size(s) => s.size >= 0,
            PhotoSize::Progressive(s) => {
                &&& forall|i: int| 0 <= i < s.sizes@.len() ==> s.sizes@[i] >= 0
                &&& sum_of(s.sizes@) <= usize::MAX
            },
            _ => true,
        }
    }

    /// The slot tag of the entry, whichever variant carries it.
    pub open spec fn spec_photo_type(self) -> Seq<char> {
        match self {
            PhotoSize::Empty(s) => s.photo_type@,
            PhotoSize::Size(s) => s.photo_type@,
            PhotoSize::Cached(s) => s.photo_type@,
            PhotoSize::Stripped(s) => s.photo_type@,
            PhotoSize::Progressive(s) => s.photo_type@,
            PhotoSize::Path(s) => s.photo_type@,
        }
    }
}

/// How a classified entry `p` must relate to the raw size entry `raw` it
/// came from: same variant kind, same fields, and — for the remote kind —
/// the parent photo's identity and the given client handle threaded in.
pub open spec fn models_size_entry(
    p: PhotoSize,
    raw: PhotoSizeData,
    parent: PhotoData,
    client: ClientHandle,
) -> bool {
    match raw {
        PhotoSizeData::Empty { photo_type } => {
            &&& p matches PhotoSize::Empty(e)
            &&& e.photo_type@ == photo_type@
        },
        PhotoSizeData::Size { photo_type, width, height, size } => {
            &&& p matches PhotoSize::Size(s)
            &&& s.photo_type@ == photo_type@
            &&& s.width == width
            &&& s.height == height
            &&& s.size == size
            &&& s.id == parent.id
            &&& s.access_hash == parent.access_hash
            &&& s.file_reference@ == parent.file_reference@
            &&& s.client == client
        },
        PhotoSizeData::Cached { photo_type, width, height, bytes } => {
            &&& p matches PhotoSize::Cached(s)
            &&& s.photo_type@ == photo_type@
            &&& s.width == width
            &&& s.height == height
            &&& s.bytes@ == bytes@
        },
        PhotoSizeData::Stripped { photo_type, bytes } => {
            &&& p matches PhotoSize::Stripped(s)
            &&& s.photo_type@ == photo_type@
            &&& s.bytes@ == bytes@
        },
        PhotoSizeData::Progressive { photo_type, width, height, sizes } => {
            &&& p matches PhotoSize::Progressive(s)
            &&& s.photo_type@ == photo_type@
            &&& s.width == width
            &&& s.height == height
            &&& s.sizes@ == sizes@
        },
        PhotoSizeData::Path { photo_type, bytes } => {
            &&& p matches PhotoSize::Path(s)
            &&& s.photo_type@ == photo_type@
            &&& s.bytes@ == bytes@
        },
    }
}

/// Well-formedness of a raw size entry: the byte counts the wire declares
/// are non-negative, and the scan lengths of a progressive entry total
/// within the machine word.
pub open spec fn raw_size_wf(raw: PhotoSizeData) -> bool {
    match raw {
        PhotoSizeData::Size { size, .. } => size >= 0,
        PhotoSizeData::Progressive { sizes, .. } => {
            &&& forall|i: int| 0 <= i < sizes@.len() ==> sizes@[i] >= 0
            &&& sum_of(sizes@) <= usize::MAX
        },
        _ => true,
    }
}

/// A classified entry is well-formed whenever the raw entry it models is,
/// so `size` is available on every entry built from a well-formed record.
pub proof fn lemma_modeled_entry_wf(
    p: PhotoSize,
    raw: PhotoSizeData,
    parent: PhotoData,
    client: ClientHandle,
)
    requires
        models_size_entry(p, raw, parent, client),
        raw_size_wf(raw),
    ensures
        p.wf(),
{
}

/// Extending a prefix sum by one element adds exactly that element.
proof fn lemma_sum_take_succ(s: Seq<i32>, j: int)
    requires
        0 <= j < s.len(),
    ensures
        sum_of(s.take(j + 1)) == sum_of(s.take(j)) + s[j],
{
    assert(s.take(j + 1).drop_last() =~= s.take(j));
    assert(s.take(j + 1).last() == s[j]);
}

/// With non-negative entries, every prefix sum is at most the full sum.
proof fn lemma_sum_take_le(s: Seq<i32>, j: int)
    requires
        0 <= j <= s.len(),
        forall|i: int| 0 <= i < s.len() ==> s[i] >= 0,
    ensures
        sum_of(s.take(j)) <= sum_of(s),
    decreases s.len() - j,
{
    if j == s.len() {
        assert(s.take(j) =~= s);
    } else {
        lemma_sum_take_succ(s, j);
        lemma_sum_take_le(s, j + 1);
    }
}

/// With non-negative entries, the sum is non-negative.
proof fn lemma_sum_nonneg(s: Seq<i32>)
    requires
        forall|i: int| 0 <= i < s.len() ==> s[i] >= 0,
    ensures
        sum_of(s) >= 0,
{
    assert(s.take(0) =~= Seq::<i32>::empty());
    lemma_sum_take_le(s, 0);
}

/// The sum of a sequence of 32-bit values is bounded by its length times
/// the 32-bit magnitude bound.
proof fn lemma_sum_bounds(s: Seq<i32>)
    ensures
        -0x8000_0000 * s.len() <= sum_of(s) <= 0x8000_0000 * s.len(),
    decreases s.len(),
{
    if s.len() > 0 {
        lemma_sum_bounds(s.drop_last());
    }
}

/// Sums the scan lengths of a progressive entry.
fn sum_lengths(v: &Vec<i32>) -> (r: usize)
    requires
        forall|i: int| 0 <= i < v@.len() ==> v@[i] >= 0,
        sum_of(v@) <= usize::MAX,
    ensures
        r == sum_of(v@),
{
    let mut total: usize = 0;
    let mut i: usize = 0;
    proof {
        assert(v@.take(0) =~= Seq::<i32>::empty());
    }
    while i < v.len()
        invariant
            i <= v@.len(),
            total == sum_of(v@.take(i as int)),
            forall|k: int| 0 <= k < v@.len() ==> v@[k] >= 0,
            sum_of(v@) <= usize::MAX,
        decreases v@.len() - i,
    {
        proof {
            lemma_sum_take_succ(v@, i as int);
            lemma_sum_take_le(v@, i as int + 1);
            lemma_sum_nonneg(v@.take(i as int + 1).drop_last());
            assert(v@.take(i as int + 1).drop_last() =~= v@.take(i as int));
        }
        total = total + (v[i] as usize);
        i = i + 1;
    }
    proof {
        assert(v@.take(v@.len() as int) =~= v@);
    }
    total
}

/// Sums the scan lengths of a progressive entry into a wide integer; total
/// for every input.
fn sum_lengths_wide(v: &Vec<i32>) -> (r: i128)
    ensures
        r == sum_of(v@),
{
    let mut total: i128 = 0;
    let mut i: usize = 0;
    proof {
        assert(v@.take(0) =~= Seq::<i32>::empty());
    }
    while i < v.len()
        invariant
            i <= v@.len(),
            total == sum_of(v@.take(i as int)),
        decreases v@.len() - i,
    {
        proof {
            lemma_sum_take_succ(v@, i as int);
            lemma_sum_bounds(v@.take(i as int));
        }
        total = total + (v[i] as i128);
        i = i + 1;
    }
    proof {
        assert(v@.take(v@.len() as int) =~= v@);
    }
    total
}

/// Copies a byte vector.
pub(crate) fn clone_bytes(v: &Vec<u8>) -> (r: Vec<u8>)
    ensures
        r@ == v@,
{
    let r = v.clone();
    proof {
        assert forall|i: int| 0 <= i < v@.len() implies r@[i] == v@[i] by {
            assert(cloned::<u8>(v@[i], r@[i]));
        }
        assert(r@ =~= v@);
    }
    r
}

/// Copies a vector of scan lengths.
pub(crate) fn clone_lengths(v: &Vec<i32>) -> (r: Vec<i32>)
    ensures
        r@ == v@,
{
    let r = v.clone();
    proof {
        assert forall|i: int| 0 <= i < v@.len() implies r@[i] == v@[i] by {
            assert(cloned::<i32>(v@[i], r@[i]));
        }
        assert(r@ =~= v@);
    }
    r
}

impl PhotoSize {
    /// Classifies one raw size entry of `photo`, threading the parent's
    /// identity and the client handle into the remote-fetch kind.
    pub fn make_from(size: &PhotoSizeData, photo: &PhotoData, client: ClientHandle) -> (r: Self)
        ensures
            models_size_entry(r, *size, *photo, client),
    {
        match size {
            PhotoSizeData::Empty { photo_type } => PhotoSize::Empty(SizeEmpty {
                photo_type: photo_type.clone(),
            }),
            PhotoSizeData::Size { photo_type, width, height, size } => PhotoSize::Size(Size {
                photo_type: photo_type.clone(),
                width: *width,
                height: *height,
                size: *size,
                id: photo.id,
                access_hash: photo.access_hash,
                file_reference: clone_bytes(&photo.file_reference),
                client,
            }),
            PhotoSizeData::Cached { photo_type, width, height, bytes } => PhotoSize::Cached(
                CachedSize {
                    photo_type: photo_type.clone(),
                    width: *width,
                    height: *height,
                    bytes: clone_bytes(bytes),
                },
            ),
            PhotoSizeData::Stripped { photo_type, bytes } => PhotoSize::Stripped(StrippedSize {
                photo_type: photo_type.clone(),
                bytes: clone_bytes(bytes),
            }),
            PhotoSizeData::Progressive { photo_type, width, height, sizes } => {
                PhotoSize::Progressive(ProgressiveSize {
                    photo_type: photo_type.clone(),
                    width: *width,
                    height: *height,
                    sizes: clone_lengths(sizes),
                })
            },
            PhotoSizeData::Path { photo_type, bytes } => PhotoSize::Path(PathSize {
                photo_type: photo_type.clone(),
                bytes: clone_bytes(bytes),
            }),
        }
    }

    /// Reports the variant's ranking key: `Empty` counts zero, `Size` its
    /// declared byte count, `Cached`/`Stripped`/`Path` the byte length of
    /// their embedded content, and `Progressive` the sum of its scan-length
    /// sequence.
    pub fn size(&self) -> (r: usize)
        requires
            self.wf(),
        ensures
            r == self.spec_size(),
    {
        match self {
            PhotoSize::Empty(_) => 0,
            PhotoSize::Size(size) => size.size as usize,
            PhotoSize::Cached(size) => size.bytes.len(),
            PhotoSize::Stripped(size) => size.bytes.len(),
            PhotoSize::Progressive(size) => sum_lengths(&size.sizes),
            PhotoSize::Path(size) => size.bytes.len(),
        }
    }

    /// The ranking key as a wide integer, defined for every value of the
    /// variant; the comparisons of the selector go through this, so ranking
    /// asks nothing of the record.
    fn size_key(&self) -> (r: i128)
        ensures
            r == self.spec_size(),
    {
        match self {
            PhotoSize::Empty(_) => 0,
            PhotoSize::Size(size) => size.size as i128,
            PhotoSize::Cached(size) => size.bytes.len() as i128,
            PhotoSize::Stripped(size) => size.bytes.len() as i128,
            PhotoSize::Progressive(size) => sum_lengths_wide(&size.sizes),
            PhotoSize::Path(size) => size.bytes.len() as i128,
        }
    }

    /// Resolves the download of this entry into `dest`, one strategy per
    /// variant. `Empty` leaves a zero-byte destination and issues no remote
    /// call; `Cached` writes its embedded bytes verbatim; `Size` asks the
    /// caller to fetch the blob named by the parent identity plus this
    /// entry's slot tag; the remaining strategies are not implemented yet
    /// and say so instead of touching anything.
    pub fn download(&self, dest: &mut Vec<u8>) -> (r: Result<DownloadStep, MediaError>)
        ensures
            match self {
                PhotoSize::Empty(_) => {
                    &&& r matches Ok(step) && step_view(step) is None
                    &&& final(dest)@ == Seq::<u8>::empty()
                },
                PhotoSize::Size(s) => {
                    &&& r matches Ok(step) && step_view(step) == Some(
                        LocatorView {
                            is_photo: true,
                            id: s.id,
                            access_hash: s.access_hash,
                            file_reference: s.file_reference@,
                            thumb_size: s.photo_type@,
                        },
                    )
                    &&& final(dest)@ == old(dest)@
                },
                PhotoSize::Cached(s) => {
                    &&& r matches Ok(step) && step_view(step) is None
                    &&& final(dest)@ == s.bytes@
                },
                PhotoSize::Stripped(_) => {
                    &&& r == Err::<DownloadStep, MediaError>(MediaError::NotYetImplemented)
                    &&& final(dest)@ == old(dest)@
                },
                PhotoSize::Progressive(_) => {
                    &&& r == Err::<DownloadStep, MediaError>(MediaError::NotYetImplemented)
                    &&& final(dest)@ == old(dest)@
                },
                PhotoSize::Path(_) => {
                    &&& r == Err::<DownloadStep, MediaError>(MediaError::NotYetImplemented)
                    &&& final(dest)@ == old(dest)@
                },
            },
    {
        match self {
            PhotoSize::Empty(_) => {
                *dest = Vec::new();
                Ok(DownloadStep::Complete)
            },
            PhotoSize::Size(size) => {
                let input_location = InputFileLocation::Photo(FileLocation {
                    id: size.id,
                    access_hash: size.access_hash,
                    file_reference: clone_bytes(&size.file_reference),
                    thumb_size: size.photo_type.clone(),
                });
                Ok(DownloadStep::Fetch(input_location))
            },
            PhotoSize::Cached(size) => {
                *dest = clone_bytes(&size.bytes);
                Ok(DownloadStep::Complete)
            },
            PhotoSize::Stripped(_) => Err(MediaError::NotYetImplemented),
            PhotoSize::Progressive(_) => Err(MediaError::NotYetImplemented),
            PhotoSize::Path(_) => Err(MediaError::NotYetImplemented),
        }
    }

    /// The slot tag of the entry, uniformly across all variants.
    pub fn photo_type(&self) -> (r: String)
        ensures
            r@ == self.spec_photo_type(),
    {
        match self {
            PhotoSize::Empty(size) => size.photo_type.clone(),
            PhotoSize::Size(size) => size.photo_type.clone(),
            PhotoSize::Cached(size) => size.photo_type.clone(),
            PhotoSize::Stripped(size) => size.photo_type.clone(),
            PhotoSize::Progressive(size) => size.photo_type.clone(),
            PhotoSize::Path(size) => size.photo_type.clone(),
        }
    }
}

/// What the selector returns: over an empty sequence nothing; otherwise a
/// reference to the entry at the last index whose ranking key equals the
/// maximum — no entry ranks above it, and every entry after it ranks
/// strictly below it.
pub open spec fn is_largest_of(r: Option<&PhotoSize>, s: Seq<PhotoSize>) -> bool {
    match r {
        Option::None => s.len() == 0,
        Option::Some(p) => exists|i: int|
            {
                &&& 0 <= i < s.len()
                &&& *p == s[i]
                &&& forall|j: int| 0 <= j < s.len() ==> (#[trigger] s[j]).spec_size() <= s[i].spec_size()
                &&& forall|j: int| i < j < s.len() ==> (#[trigger] s[j]).spec_size() < s[i].spec_size()
            },
    }
}

/// Picking the maximum-size entry from a sequence of photo-size variants.
pub trait VecExt {
    /// Returns the entry with the maximum ranking key, or nothing over an
    /// empty sequence; among tied maxima, the one listed last.
    fn largest(&self) -> Option<&PhotoSize>;
}

impl VecExt for Vec<PhotoSize> {
    /// A max-by-key scan that replaces the candidate whenever a key is at
    /// least as large, so a tie goes to the later entry. The input is
    /// neither mutated nor reordered.
    fn largest(&self) -> (r: Option<&PhotoSize>)
        ensures
            is_largest_of(r, self@),
    {
        if self.len() == 0 {
            return None;
        }
        let mut best: usize = 0;
        let mut best_key: i128 = self[0].size_key();
        let mut i: usize = 1;
        while i < self.len()
            invariant
                0 <= best < i <= self@.len(),
                best_key == self@[best as int].spec_size(),
                forall|j: int|
                    0 <= j < i ==> (#[trigger] self@[j]).spec_size() <= self@[best as int].spec_size(),
                forall|j: int|
                    best < j < i ==> (#[trigger] self@[j]).spec_size() < self@[best as int].spec_size(),
            decreases self@.len() - i,
        {
            let key = self[i].size_key();
            if key >= best_key {
                best = i;
                best_key = key;
            }
            i = i + 1;
        }
        let r = Some(&self[best]);
        proof {
            let ghost b: int = best as int;
            assert(is_largest_of(r, self@)) by {
                assert({
                    &&& 0 <= b < self@.len()
                    &&& self@[b] == self@[b]
                    &&& forall|j: int|
                        0 <= j < self@.len() ==> (#[trigger] self@[j]).spec_size() <= self@[b].spec_size()
                    &&& forall|j: int|
                        b < j < self@.len() ==> (#[trigger] self@[j]).spec_size() < self@[b].spec_size()
                });
            }
        }
        r
    }
}

} // verus!
