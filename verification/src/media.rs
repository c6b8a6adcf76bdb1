//! The closed set of top-level media kinds, their classification from wire
//! records, and their locator builders.

use vstd::prelude::*;

use crate::photo_sizes::{clone_bytes, models_size_entry, PhotoSize};
use crate::wire::{locator_view, ClientHandle, DocumentMedia, DocumentUnion, FileLocation,
    InputFileData, InputFileLocation, LocatorView, MessageMedia, PhotoMedia, PhotoUnion};
use crate::{step_view, DownloadStep, MediaError};

verus! {

/// A photo attached to a message, together with the capability handle a
/// fetch of it would go through. The handle is borrowed, never owned: this
/// type only invokes capabilities on it.
#[derive(Clone)]
pub struct Photo {
    pub photo: PhotoMedia,
    pub client: ClientHandle,
}

/// A document attached to a message, with the same kind of borrowed
/// capability handle.
#[derive(Clone)]
pub struct Document {
    pub document: DocumentMedia,
    pub client: ClientHandle,
}

/// A freshly uploaded file: describable but not yet retrievable, so it
/// carries no capability handle.
#[derive(Clone)]
pub struct Uploaded {
    pub input_file: InputFileData,
}

/// A media attachment this layer knows how to retrieve or describe.
#[derive(Clone)]
#[non_exhaustive]
pub enum Media {
    Photo(Photo),
    Document(Document),
    Uploaded(Uploaded),
}

/// The locator that fetching the full content of a photo record requires:
/// built from the photo's own identity, with the thumbnail slot left blank,
/// and absent whenever the inner union is absent or is its empty member.
pub open spec fn spec_photo_location(m: PhotoMedia) -> Option<LocatorView> {
    match m.photo {
        Option::None => None,
        Option::Some(PhotoUnion::Empty { .. }) => None,
        Option::Some(PhotoUnion::Photo(p)) => Some(
            LocatorView {
                is_photo: true,
                id: p.id,
                access_hash: p.access_hash,
                file_reference: p.file_reference@,
                thumb_size: Seq::<char>::empty(),
            },
        ),
    }
}

/// The locator that fetching the primary content of a document record
/// requires; absent whenever the inner union is absent or is its empty
/// member.
pub open spec fn spec_document_location(m: DocumentMedia) -> Option<LocatorView> {
    match m.document {
        Option::None => None,
        Option::Some(DocumentUnion::Empty { .. }) => None,
        Option::Some(DocumentUnion::Document(d)) => Some(
            LocatorView {
                is_photo: false,
                id: d.id,
                access_hash: d.access_hash,
                file_reference: d.file_reference@,
                thumb_size: Seq::<char>::empty(),
            },
        ),
    }
}

impl Photo {
    /// Wraps a bare photo-or-empty union as a photo media record with the
    /// union present.
    pub fn from_raw(photo: PhotoUnion, client: ClientHandle) -> (r: Self)
        ensures
            r.photo.photo == Some(photo),
            r.photo.ttl_seconds is None,
            r.client == client,
    {
        Self {
            photo: PhotoMedia { photo: Some(photo), ttl_seconds: None },
            client,
        }
    }

    /// Wraps a photo media record as received.
    pub fn from_media(photo: PhotoMedia, client: ClientHandle) -> (r: Self)
        ensures
            r.photo == photo,
            r.client == client,
    {
        Self { photo, client }
    }

    /// Builds the locator for the full photo, when the record names one.
    pub fn to_input_location(&self) -> (r: Option<InputFileLocation>)
        ensures
            locator_view(r) == spec_photo_location(self.photo),
    {
        match &self.photo.photo {
            Option::None => None,
            Option::Some(PhotoUnion::Empty { .. }) => None,
            Option::Some(PhotoUnion::Photo(photo)) => Some(
                InputFileLocation::Photo(
                    FileLocation {
                        id: photo.id,
                        access_hash: photo.access_hash,
                        file_reference: clone_bytes(&photo.file_reference),
                        thumb_size: String::new(),
                    },
                ),
            ),
        }
    }

    /// The identity of the inner photo-or-empty union, or a checked failure
    /// when the record carries none, so that no caller has to treat the
    /// absence as an abort.
    pub fn id(&self) -> (r: Result<i64, MediaError>)
        ensures
            match self.photo.photo {
                Option::None => r == Err::<i64, MediaError>(MediaError::MissingInnerUnion),
                Option::Some(PhotoUnion::Empty { id }) => r == Ok::<i64, MediaError>(id),
                Option::Some(PhotoUnion::Photo(p)) => r == Ok::<i64, MediaError>(p.id),
            },
    {
        match &self.photo.photo {
            Option::None => Err(MediaError::MissingInnerUnion),
            Option::Some(PhotoUnion::Empty { id }) => Ok(*id),
            Option::Some(PhotoUnion::Photo(photo)) => Ok(photo.id),
        }
    }

    /// The photo's thumbnail entries, each classified by retrieval
    /// strategy, with the parent identity and a clone of the client handle
    /// threaded into every remote-fetch entry. An absent or empty inner
    /// union yields an empty sequence, not a failure.
    pub fn thumbs(&self) -> (r: Vec<PhotoSize>)
        ensures
            match self.photo.photo {
                Option::None => r@.len() == 0,
                Option::Some(PhotoUnion::Empty { .. }) => r@.len() == 0,
                Option::Some(PhotoUnion::Photo(p)) => {
                    &&& r@.len() == p.sizes@.len()
                    &&& forall|i: int|
                        0 <= i < p.sizes@.len() ==> models_size_entry(
                            #[trigger] r@[i],
                            p.sizes@[i],
                            p,
                            self.client,
                        )
                },
            },
    {
        let photo = match &self.photo.photo {
            Option::Some(photo) => photo,
            Option::None => {
                return Vec::new();
            },
        };
        match photo {
            PhotoUnion::Empty { .. } => Vec::new(),
            PhotoUnion::Photo(photo) => {
                let mut out: Vec<PhotoSize> = Vec::new();
                let mut i: usize = 0;
                while i < photo.sizes.len()
                    invariant
                        i <= photo.sizes@.len(),
                        out@.len() == i,
                        forall|k: int|
                            0 <= k < i ==> models_size_entry(
                                #[trigger] out@[k],
                                photo.sizes@[k],
                                *photo,
                                self.client,
                            ),
                    decreases photo.sizes@.len() - i,
                {
                    let entry = PhotoSize::make_from(&photo.sizes[i], photo, self.client);
                    out.push(entry);
                    i = i + 1;
                }
                out
            },
        }
    }
}

impl Document {
    /// Wraps a document media record as received.
    pub fn from_media(document: DocumentMedia, client: ClientHandle) -> (r: Self)
        ensures
            r.document == document,
            r.client == client,
    {
        Self { document, client }
    }

    /// Builds the locator for the primary document content, when the
    /// record names one.
    pub fn to_input_location(&self) -> (r: Option<InputFileLocation>)
        ensures
            locator_view(r) == spec_document_location(self.document),
    {
        match &self.document.document {
            Option::None => None,
            Option::Some(DocumentUnion::Empty { .. }) => None,
            Option::Some(DocumentUnion::Document(doc)) => Some(
                InputFileLocation::Document(
                    FileLocation {
                        id: doc.id,
                        access_hash: doc.access_hash,
                        file_reference: clone_bytes(&doc.file_reference),
                        thumb_size: String::new(),
                    },
                ),
            ),
        }
    }

    /// Resolves the download of the document: when the record names remote
    /// content, the caller must fetch at the returned locator; a record
    /// whose inner union is absent or empty completes without effect and
    /// issues no remote call.
    pub fn download(&self) -> (r: DownloadStep)
        ensures
            step_view(r) == spec_document_location(self.document),
    {
        match &self.document.document {
            Option::Some(_) => match self.to_input_location() {
                Option::Some(location) => DownloadStep::Fetch(location),
                Option::None => DownloadStep::Complete,
            },
            Option::None => DownloadStep::Complete,
        }
    }
}

impl Uploaded {
    /// Wraps an input-file descriptor produced by the upload path.
    pub fn from_raw(input_file: InputFileData) -> (r: Self)
        ensures
            r.input_file == input_file,
    {
        Self { input_file }
    }

    /// The name the file was uploaded under, in either wire shape.
    pub fn name(&self) -> (r: &str)
        ensures
            match self.input_file {
                InputFileData::File { name, .. } => r@ == name@,
                InputFileData::Big { name, .. } => r@ == name@,
            },
    {
        match &self.input_file {
            InputFileData::File { name, .. } => name.as_str(),
            InputFileData::Big { name, .. } => name.as_str(),
        }
    }
}

impl Media {
    /// Classifies a wire record. The photo and document tags map to their
    /// typed wrappers carrying the client handle; every other recognized
    /// tag yields absence — a valid, expected outcome meaning "no
    /// retrievable media", not an error.
    pub fn from_raw(media: MessageMedia, client: ClientHandle) -> (r: Option<Self>)
        ensures
            match media {
                MessageMedia::Photo(photo) => {
                    &&& r matches Some(Media::Photo(p))
                    &&& p.photo == photo
                    &&& p.client == client
                },
                MessageMedia::Document(document) => {
                    &&& r matches Some(Media::Document(d))
                    &&& d.document == document
                    &&& d.client == client
                },
                _ => r is None,
            },
    {
        match media {
            MessageMedia::Empty => None,
            MessageMedia::Photo(photo) => Some(Self::Photo(Photo::from_media(photo, client))),
            MessageMedia::Geo => None,
            MessageMedia::Contact => None,
            MessageMedia::Unsupported => None,
            MessageMedia::Document(document) => Some(
                Self::Document(Document::from_media(document, client)),
            ),
            MessageMedia::WebPage => None,
            MessageMedia::Venue => None,
            MessageMedia::Game => None,
            MessageMedia::Invoice => None,
            MessageMedia::GeoLive => None,
            MessageMedia::Poll => None,
            MessageMedia::Dice => None,
        }
    }

    /// Delegates to the variant's own locator builder; an uploaded file is
    /// not yet retrievable and never has one.
    pub fn to_input_location(&self) -> (r: Option<InputFileLocation>)
        ensures
            match self {
                Media::Photo(p) => locator_view(r) == spec_photo_location(p.photo),
                Media::Uploaded(_) => r is None,
                Media::Document(d) => locator_view(r) == spec_document_location(d.document),
            },
    {
        match self {
            Media::Photo(photo) => photo.to_input_location(),
            Media::Uploaded(_) => None,
            Media::Document(doc) => doc.to_input_location(),
        }
    }
}

impl PartialEq for Photo {
    /// Two photos are equal exactly when their raw records are: the
    /// borrowed client handle is no part of a photo's identity.
    fn eq(&self, other: &Self) -> (r: bool) {
        self.photo == other.photo
    }
}

impl vstd::std_specs::cmp::PartialEqSpecImpl for Photo {
    open spec fn obeys_eq_spec() -> bool {
        true
    }

    open spec fn eq_spec(&self, other: &Self) -> bool {
        crate::wire::spec_photo_media_eq(self.photo, other.photo)
    }
}

impl PartialEq for Document {
    /// Two documents are equal exactly when their raw records are: the
    /// borrowed client handle is no part of a document's identity.
    fn eq(&self, other: &Self) -> (r: bool) {
        self.document == other.document
    }
}

impl vstd::std_specs::cmp::PartialEqSpecImpl for Document {
    open spec fn obeys_eq_spec() -> bool {
        true
    }

    open spec fn eq_spec(&self, other: &Self) -> bool {
        crate::wire::spec_document_media_eq(self.document, other.document)
    }
}

impl PartialEq for Uploaded {
    fn eq(&self, other: &Self) -> (r: bool) {
        self.input_file == other.input_file
    }
}

impl vstd::std_specs::cmp::PartialEqSpecImpl for Uploaded {
    open spec fn obeys_eq_spec() -> bool {
        true
    }

    open spec fn eq_spec(&self, other: &Self) -> bool {
        crate::wire::spec_input_file_eq(self.input_file, other.input_file)
    }
}

/// Record equality of two media wrappers: same kind, equal raw records;
/// client handles are ignored.
pub open spec fn spec_media_eq(a: Media, b: Media) -> bool {
    match (a, b) {
        (Media::Photo(p1), Media::Photo(p2)) => crate::wire::spec_photo_media_eq(
            p1.photo,
            p2.photo,
        ),
        (Media::Document(d1), Media::Document(d2)) => crate::wire::spec_document_media_eq(
            d1.document,
            d2.document,
        ),
        (Media::Uploaded(u1), Media::Uploaded(u2)) => crate::wire::spec_input_file_eq(
            u1.input_file,
            u2.input_file,
        ),
        _ => false,
    }
}

impl PartialEq for Media {
    fn eq(&self, other: &Self) -> (r: bool) {
        match (self, other) {
            (Media::Photo(p1), Media::Photo(p2)) => *p1 == *p2,
            (Media::Document(d1), Media::Document(d2)) => *d1 == *d2,
            (Media::Uploaded(u1), Media::Uploaded(u2)) => *u1 == *u2,
            _ => false,
        }
    }
}

impl vstd::std_specs::cmp::PartialEqSpecImpl for Media {
    open spec fn obeys_eq_spec() -> bool {
        true
    }

    open spec fn eq_spec(&self, other: &Self) -> bool {
        spec_media_eq(*self, *other)
    }
}

impl From<Photo> for Media {
    fn from(photo: Photo) -> (r: Self) {
        Self::Photo(photo)
    }
}

impl vstd::std_specs::convert::FromSpecImpl<Photo> for Media {
    open spec fn obeys_from_spec() -> bool {
        true
    }

    open spec fn from_spec(photo: Photo) -> Media {
        Media::Photo(photo)
    }
}

impl From<Uploaded> for Media {
    fn from(uploaded: Uploaded) -> (r: Self) {
        Self::Uploaded(uploaded)
    }
}

impl vstd::std_specs::convert::FromSpecImpl<Uploaded> for Media {
    open spec fn obeys_from_spec() -> bool {
        true
    }

    open spec fn from_spec(uploaded: Uploaded) -> Media {
        Media::Uploaded(uploaded)
    }
}

} // verus!
