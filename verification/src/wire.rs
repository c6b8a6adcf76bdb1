//! Plain-value shapes of the wire records this layer consumes and of the
//! locator values it produces.
//!
//! The remote schema delivers media descriptions as tagged unions; the
//! variants and fields below hold, as plain values, exactly what the
//! resolution logic reads from those records. The caller decodes the wire
//! bytes with its schema library and fills these records in.

use vstd::prelude::*;

verus! {

/// A cheaply cloneable, non-owning capability handle onto the transport
/// collaborator that performs remote fetches. Media objects borrow it at
/// construction time and never manage its lifecycle; the caller keeps the
/// arena that maps a handle to a live transport session.
#[derive(Clone, Copy, PartialEq, Eq, Structural, Debug)]
pub struct ClientHandle {
    /// Index of the transport session in the caller's arena.
    pub session: u64,
}

/// The raw photo record: the identity of the photo plus its thumbnail
/// size entries.
#[derive(Clone)]
pub struct PhotoData {
    pub id: i64,
    pub access_hash: i64,
    pub file_reference: Vec<u8>,
    pub sizes: Vec<PhotoSizeData>,
}

/// The photo-or-empty union carried inside a photo media record.
#[derive(Clone)]
pub enum PhotoUnion {
    /// The degenerate member: a photo that no longer exists; only its
    /// identity remains.
    Empty { id: i64 },
    /// A present photo with full identity and size entries.
    Photo(PhotoData),
}

/// The photo media record: an optional photo-or-empty union plus an
/// optional self-destruct period.
#[derive(Clone)]
pub struct PhotoMedia {
    pub photo: Option<PhotoUnion>,
    pub ttl_seconds: Option<i32>,
}

/// The raw document record, reduced to the identity fields that locator
/// building reads.
#[derive(Clone)]
pub struct DocumentData {
    pub id: i64,
    pub access_hash: i64,
    pub file_reference: Vec<u8>,
}

/// The document-or-empty union carried inside a document media record.
#[derive(Clone)]
pub enum DocumentUnion {
    /// The degenerate member: a deleted document; only its identity remains.
    Empty { id: i64 },
    /// A present document.
    Document(DocumentData),
}

/// The document media record: an optional document-or-empty union plus an
/// optional self-destruct period.
#[derive(Clone)]
pub struct DocumentMedia {
    pub document: Option<DocumentUnion>,
    pub ttl_seconds: Option<i32>,
}

/// One thumbnail size entry of a photo record. Every member carries the
/// string tag naming which thumbnail slot it occupies; the rest of the
/// fields differ per retrieval strategy.
#[derive(Clone)]
pub enum PhotoSizeData {
    /// No bytes, no remote identity.
    Empty { photo_type: String },
    /// No embedded bytes; the content must be fetched remotely and its
    /// byte count is declared up front.
    Size { photo_type: String, width: i32, height: i32, size: i32 },
    /// A low-resolution raster thumbnail fully embedded in the record.
    Cached { photo_type: String, width: i32, height: i32, bytes: Vec<u8> },
    /// A minimal thumbnail embedded in a compact proprietary byte layout.
    Stripped { photo_type: String, bytes: Vec<u8> },
    /// Cumulative JPEG scan byte-lengths instead of raw bytes.
    Progressive { photo_type: String, width: i32, height: i32, sizes: Vec<i32> },
    /// An SVG-like path outline embedded as bytes.
    Path { photo_type: String, bytes: Vec<u8> },
}

/// An input-file descriptor produced by the upload path: either the small
/// or the big upload wire shape.
#[derive(Clone)]
pub enum InputFileData {
    /// The small-upload shape.
    File { id: i64, parts: i32, name: String, md5_checksum: String },
    /// The big-upload shape, which carries no checksum.
    Big { id: i64, parts: i32, name: String },
}

/// The top-level media union of the wire schema. Only the photo and
/// document members carry data this layer reads; the remaining recognized
/// tags are listed so classification can be exhaustive.
#[derive(Clone)]
pub enum MessageMedia {
    Empty,
    Photo(PhotoMedia),
    Geo,
    Contact,
    Unsupported,
    Document(DocumentMedia),
    WebPage,
    Venue,
    Game,
    Invoice,
    GeoLive,
    Poll,
    Dice,
}

/// The locator fields shared by both remote retrieval strategies: which
/// blob to fetch and, when a specific thumbnail is wanted, its slot tag.
#[derive(Clone)]
pub struct FileLocation {
    pub id: i64,
    pub access_hash: i64,
    pub file_reference: Vec<u8>,
    /// Thumbnail slot to fetch; left blank to fetch the primary content.
    pub thumb_size: String,
}

/// A remote locator: identifies exactly which binary blob the transport
/// must fetch, and through which namespace (photo or document).
#[derive(Clone)]
pub enum InputFileLocation {
    Photo(FileLocation),
    Document(FileLocation),
}

/// Mathematical picture of a locator, used by the contracts.
pub struct LocatorView {
    pub is_photo: bool,
    pub id: i64,
    pub access_hash: i64,
    pub file_reference: Seq<u8>,
    pub thumb_size: Seq<char>,
}

impl View for InputFileLocation {
    type V = LocatorView;

    open spec fn view(&self) -> LocatorView {
        match self {
            InputFileLocation::Photo(l) => LocatorView {
                is_photo: true,
                id: l.id,
                access_hash: l.access_hash,
                file_reference: l.file_reference@,
                thumb_size: l.thumb_size@,
            },
            InputFileLocation::Document(l) => LocatorView {
                is_photo: false,
                id: l.id,
                access_hash: l.access_hash,
                file_reference: l.file_reference@,
                thumb_size: l.thumb_size@,
            },
        }
    }
}

/// The view of an optional locator, for contracts that speak about
/// "no locator at all or exactly this one".
pub open spec fn locator_view(r: Option<InputFileLocation>) -> Option<LocatorView> {
    match r {
        Option::None => None,
        Option::Some(l) => Some(l@),
    }
}

/// Equality of two byte vectors, by content.
pub(crate) fn eq_bytes(a: &Vec<u8>, b: &Vec<u8>) -> (r: bool)
    ensures
        r == (a@ == b@),
{
    if a.len() != b.len() {
        return false;
    }
    let mut i: usize = 0;
    while i < a.len()
        invariant
            i <= a@.len(),
            a@.len() == b@.len(),
            forall|k: int| 0 <= k < i ==> a@[k] == b@[k],
        decreases a@.len() - i,
    {
        if a[i] != b[i] {
            return false;
        }
        i = i + 1;
    }
    proof {
        assert(a@ =~= b@);
    }
    true
}

/// Equality of two scan-length vectors, by content.
pub(crate) fn eq_lengths(a: &Vec<i32>, b: &Vec<i32>) -> (r: bool)
    ensures
        r == (a@ == b@),
{
    if a.len() != b.len() {
        return false;
    }
    let mut i: usize = 0;
    while i < a.len()
        invariant
            i <= a@.len(),
            a@.len() == b@.len(),
            forall|k: int| 0 <= k < i ==> a@[k] == b@[k],
        decreases a@.len() - i,
    {
        if a[i] != b[i] {
            return false;
        }
        i = i + 1;
    }
    proof {
        assert(a@ =~= b@);
    }
    true
}

/// Record equality of two size entries: same variant, same field contents.
pub open spec fn spec_size_data_eq(a: PhotoSizeData, b: PhotoSizeData) -> bool {
    match (a, b) {
        (
            PhotoSizeData::Empty { photo_type: t1 },
            PhotoSizeData::Empty { photo_type: t2 },
        ) => t1@ == t2@,
        (
            PhotoSizeData::Size { photo_type: t1, width: w1, height: h1, size: s1 },
            PhotoSizeData::Size { photo_type: t2, width: w2, height: h2, size: s2 },
        ) => t1@ == t2@ && w1 == w2 && h1 == h2 && s1 == s2,
        (
            PhotoSizeData::Cached { photo_type: t1, width: w1, height: h1, bytes: b1 },
            PhotoSizeData::Cached { photo_type: t2, width: w2, height: h2, bytes: b2 },
        ) => t1@ == t2@ && w1 == w2 && h1 == h2 && b1@ == b2@,
        (
            PhotoSizeData::Stripped { photo_type: t1, bytes: b1 },
            PhotoSizeData::Stripped { photo_type: t2, bytes: b2 },
        ) => t1@ == t2@ && b1@ == b2@,
        (
            PhotoSizeData::Progressive { photo_type: t1, width: w1, height: h1, sizes: s1 },
            PhotoSizeData::Progressive { photo_type: t2, width: w2, height: h2, sizes: s2 },
        ) => t1@ == t2@ && w1 == w2 && h1 == h2 && s1@ == s2@,
        (
            PhotoSizeData::Path { photo_type: t1, bytes: b1 },
            PhotoSizeData::Path { photo_type: t2, bytes: b2 },
        ) => t1@ == t2@ && b1@ == b2@,
        _ => false,
    }
}

impl PartialEq for PhotoSizeData {
    fn eq(&self, other: &Self) -> (r: bool) {
        match (self, other) {
            (
                PhotoSizeData::Empty { photo_type: t1 },
                PhotoSizeData::Empty { photo_type: t2 },
            ) => *t1 == *t2,
            (
                PhotoSizeData::Size { photo_type: t1, width: w1, height: h1, size: s1 },
                PhotoSizeData::Size { photo_type: t2, width: w2, height: h2, size: s2 },
            ) => *t1 == *t2 && w1 == w2 && h1 == h2 && s1 == s2,
            (
                PhotoSizeData::Cached { photo_type: t1, width: w1, height: h1, bytes: b1 },
                PhotoSizeData::Cached { photo_type: t2, width: w2, height: h2, bytes: b2 },
            ) => *t1 == *t2 && w1 == w2 && h1 == h2 && eq_bytes(b1, b2),
            (
                PhotoSizeData::Stripped { photo_type: t1, bytes: b1 },
                PhotoSizeData::Stripped { photo_type: t2, bytes: b2 },
            ) => *t1 == *t2 && eq_bytes(b1, b2),
            (
                PhotoSizeData::Progressive { photo_type: t1, width: w1, height: h1, sizes: s1 },
                PhotoSizeData::Progressive { photo_type: t2, width: w2, height: h2, sizes: s2 },
            ) => *t1 == *t2 && w1 == w2 && h1 == h2 && eq_lengths(s1, s2),
            (
                PhotoSizeData::Path { photo_type: t1, bytes: b1 },
                PhotoSizeData::Path { photo_type: t2, bytes: b2 },
            ) => *t1 == *t2 && eq_bytes(b1, b2),
            _ => false,
        }
    }
}

impl vstd::std_specs::cmp::PartialEqSpecImpl for PhotoSizeData {
    open spec fn obeys_eq_spec() -> bool {
        true
    }

    open spec fn eq_spec(&self, other: &Self) -> bool {
        spec_size_data_eq(*self, *other)
    }
}

/// Record equality of two raw photo records, by content.
pub open spec fn spec_photo_data_eq(a: PhotoData, b: PhotoData) -> bool {
    &&& a.id == b.id
    &&& a.access_hash == b.access_hash
    &&& a.file_reference@ == b.file_reference@
    &&& a.sizes@.len() == b.sizes@.len()
    &&& forall|i: int|
        0 <= i < a.sizes@.len() ==> spec_size_data_eq(#[trigger] a.sizes@[i], b.sizes@[i])
}

impl PartialEq for PhotoData {
    fn eq(&self, other: &Self) -> (r: bool) {
        if !(self.id == other.id && self.access_hash == other.access_hash
            && eq_bytes(&self.file_reference, &other.file_reference)
            && self.sizes.len() == other.sizes.len()) {
            return false;
        }
        let mut i: usize = 0;
        while i < self.sizes.len()
            invariant
                i <= self.sizes@.len(),
                self.sizes@.len() == other.sizes@.len(),
                forall|k: int|
                    0 <= k < i ==> spec_size_data_eq(#[trigger] self.sizes@[k], other.sizes@[k]),
            decreases self.sizes@.len() - i,
        {
            if !(self.sizes[i] == other.sizes[i]) {
                return false;
            }
            i = i + 1;
        }
        true
    }
}

impl vstd::std_specs::cmp::PartialEqSpecImpl for PhotoData {
    open spec fn obeys_eq_spec() -> bool {
        true
    }

    open spec fn eq_spec(&self, other: &Self) -> bool {
        spec_photo_data_eq(*self, *other)
    }
}

/// Record equality of two photo-or-empty unions, by content.
pub open spec fn spec_photo_union_eq(a: PhotoUnion, b: PhotoUnion) -> bool {
    match (a, b) {
        (PhotoUnion::Empty { id: i1 }, PhotoUnion::Empty { id: i2 }) => i1 == i2,
        (PhotoUnion::Photo(p1), PhotoUnion::Photo(p2)) => spec_photo_data_eq(p1, p2),
        _ => false,
    }
}

impl PartialEq for PhotoUnion {
    fn eq(&self, other: &Self) -> (r: bool) {
        match (self, other) {
            (PhotoUnion::Empty { id: i1 }, PhotoUnion::Empty { id: i2 }) => i1 == i2,
            (PhotoUnion::Photo(p1), PhotoUnion::Photo(p2)) => p1 == p2,
            _ => false,
        }
    }
}

impl vstd::std_specs::cmp::PartialEqSpecImpl for PhotoUnion {
    open spec fn obeys_eq_spec() -> bool {
        true
    }

    open spec fn eq_spec(&self, other: &Self) -> bool {
        spec_photo_union_eq(*self, *other)
    }
}

/// Record equality of two photo media records, by content.
pub open spec fn spec_photo_media_eq(a: PhotoMedia, b: PhotoMedia) -> bool {
    &&& match (a.photo, b.photo) {
        (Option::None, Option::None) => true,
        (Option::Some(p1), Option::Some(p2)) => spec_photo_union_eq(p1, p2),
        _ => false,
    }
    &&& a.ttl_seconds == b.ttl_seconds
}

impl PartialEq for PhotoMedia {
    fn eq(&self, other: &Self) -> (r: bool) {
        let unions_eq = match (&self.photo, &other.photo) {
            (Option::None, Option::None) => true,
            (Option::Some(p1), Option::Some(p2)) => p1 == p2,
            _ => false,
        };
        let ttl_eq = match (&self.ttl_seconds, &other.ttl_seconds) {
            (Option::None, Option::None) => true,
            (Option::Some(t1), Option::Some(t2)) => t1 == t2,
            _ => false,
        };
        unions_eq && ttl_eq
    }
}

impl vstd::std_specs::cmp::PartialEqSpecImpl for PhotoMedia {
    open spec fn obeys_eq_spec() -> bool {
        true
    }

    open spec fn eq_spec(&self, other: &Self) -> bool {
        spec_photo_media_eq(*self, *other)
    }
}

/// Record equality of two raw document records, by content.
pub open spec fn spec_document_data_eq(a: DocumentData, b: DocumentData) -> bool {
    &&& a.id == b.id
    &&& a.access_hash == b.access_hash
    &&& a.file_reference@ == b.file_reference@
}

impl PartialEq for DocumentData {
    fn eq(&self, other: &Self) -> (r: bool) {
        self.id == other.id && self.access_hash == other.access_hash
            && eq_bytes(&self.file_reference, &other.file_reference)
    }
}

impl vstd::std_specs::cmp::PartialEqSpecImpl for DocumentData {
    open spec fn obeys_eq_spec() -> bool {
        true
    }

    open spec fn eq_spec(&self, other: &Self) -> bool {
        spec_document_data_eq(*self, *other)
    }
}

/// Record equality of two document-or-empty unions, by content.
pub open spec fn spec_document_union_eq(a: DocumentUnion, b: DocumentUnion) -> bool {
    match (a, b) {
        (DocumentUnion::Empty { id: i1 }, DocumentUnion::Empty { id: i2 }) => i1 == i2,
        (DocumentUnion::Document(d1), DocumentUnion::Document(d2)) => spec_document_data_eq(
            d1,
            d2,
        ),
        _ => false,
    }
}

impl PartialEq for DocumentUnion {
    fn eq(&self, other: &Self) -> (r: bool) {
        match (self, other) {
            (DocumentUnion::Empty { id: i1 }, DocumentUnion::Empty { id: i2 }) => i1 == i2,
            (DocumentUnion::Document(d1), DocumentUnion::Document(d2)) => d1 == d2,
            _ => false,
        }
    }
}

impl vstd::std_specs::cmp::PartialEqSpecImpl for DocumentUnion {
    open spec fn obeys_eq_spec() -> bool {
        true
    }

    open spec fn eq_spec(&self, other: &Self) -> bool {
        spec_document_union_eq(*self, *other)
    }
}

/// Record equality of two document media records, by content.
pub open spec fn spec_document_media_eq(a: DocumentMedia, b: DocumentMedia) -> bool {
    &&& match (a.document, b.document) {
        (Option::None, Option::None) => true,
        (Option::Some(d1), Option::Some(d2)) => spec_document_union_eq(d1, d2),
        _ => false,
    }
    &&& a.ttl_seconds == b.ttl_seconds
}

impl PartialEq for DocumentMedia {
    fn eq(&self, other: &Self) -> (r: bool) {
        let unions_eq = match (&self.document, &other.document) {
            (Option::None, Option::None) => true,
            (Option::Some(d1), Option::Some(d2)) => d1 == d2,
            _ => false,
        };
        let ttl_eq = match (&self.ttl_seconds, &other.ttl_seconds) {
            (Option::None, Option::None) => true,
            (Option::Some(t1), Option::Some(t2)) => t1 == t2,
            _ => false,
        };
        unions_eq && ttl_eq
    }
}

impl vstd::std_specs::cmp::PartialEqSpecImpl for DocumentMedia {
    open spec fn obeys_eq_spec() -> bool {
        true
    }

    open spec fn eq_spec(&self, other: &Self) -> bool {
        spec_document_media_eq(*self, *other)
    }
}

/// Record equality of two input-file descriptors, by content.
pub open spec fn spec_input_file_eq(a: InputFileData, b: InputFileData) -> bool {
    match (a, b) {
        (
            InputFileData::File { id: i1, parts: p1, name: n1, md5_checksum: m1 },
            InputFileData::File { id: i2, parts: p2, name: n2, md5_checksum: m2 },
        ) => i1 == i2 && p1 == p2 && n1@ == n2@ && m1@ == m2@,
        (
            InputFileData::Big { id: i1, parts: p1, name: n1 },
            InputFileData::Big { id: i2, parts: p2, name: n2 },
        ) => i1 == i2 && p1 == p2 && n1@ == n2@,
        _ => false,
    }
}

impl PartialEq for InputFileData {
    fn eq(&self, other: &Self) -> (r: bool) {
        match (self, other) {
            (
                InputFileData::File { id: i1, parts: p1, name: n1, md5_checksum: m1 },
                InputFileData::File { id: i2, parts: p2, name: n2, md5_checksum: m2 },
            ) => i1 == i2 && p1 == p2 && *n1 == *n2 && *m1 == *m2,
            (
                InputFileData::Big { id: i1, parts: p1, name: n1 },
                InputFileData::Big { id: i2, parts: p2, name: n2 },
            ) => i1 == i2 && p1 == p2 && *n1 == *n2,
            _ => false,
        }
    }
}

impl vstd::std_specs::cmp::PartialEqSpecImpl for InputFileData {
    open spec fn obeys_eq_spec() -> bool {
        true
    }

    open spec fn eq_spec(&self, other: &Self) -> bool {
        spec_input_file_eq(*self, *other)
    }
}

} // verus!
