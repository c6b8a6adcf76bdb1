use grammers_media::media::Photo;
use grammers_media::photo_sizes::{
    CachedSize, PathSize, PhotoSize, ProgressiveSize, Size, SizeEmpty, StrippedSize, VecExt,
};
use grammers_media::wire::{
    ClientHandle, InputFileLocation, PhotoData, PhotoMedia, PhotoSizeData, PhotoUnion,
};
use grammers_media::{DownloadStep, MediaError};

fn client() -> ClientHandle {
    ClientHandle { session: 3 }
}

fn tagged(tag: &str) -> String {
    String::from(tag)
}

fn remote_entry(tag: &str, size: i32) -> PhotoSize {
    PhotoSize::Size(Size {
        photo_type: tagged(tag),
        width: 10,
        height: 10,
        size,
        id: 42,
        access_hash: -7,
        file_reference: vec![1, 2, 3],
        client: client(),
    })
}

#[test]
fn size_of_empty_is_zero() {
    let p = PhotoSize::Empty(SizeEmpty {
        photo_type: tagged("e"),
    });
    assert_eq!(p.size(), 0);
}

#[test]
fn size_of_remote_entry_is_its_declared_count() {
    assert_eq!(remote_entry("m", 1234).size(), 1234);
}

#[test]
fn size_of_cached_is_its_byte_length() {
    let p = PhotoSize::Cached(CachedSize {
        photo_type: tagged("s"),
        width: 4,
        height: 4,
        bytes: vec![0; 17],
    });
    assert_eq!(p.size(), 17);
}

#[test]
fn size_of_stripped_is_its_byte_length() {
    let p = PhotoSize::Stripped(StrippedSize {
        photo_type: tagged("i"),
        bytes: vec![7; 5],
    });
    assert_eq!(p.size(), 5);
}

#[test]
fn size_of_path_is_its_byte_length() {
    let p = PhotoSize::Path(PathSize {
        photo_type: tagged("j"),
        bytes: vec![1, 2],
    });
    assert_eq!(p.size(), 2);
}

#[test]
fn size_of_progressive_is_the_sum_of_its_scan_lengths() {
    let p = PhotoSize::Progressive(ProgressiveSize {
        photo_type: tagged("w"),
        width: 100,
        height: 100,
        sizes: vec![100, 250, 4000],
    });
    assert_eq!(p.size(), 4350);
}

#[test]
fn size_of_the_largest_declared_count() {
    assert_eq!(remote_entry("g", i32::MAX).size(), 2147483647);
}

#[test]
fn size_of_progressive_with_no_scans_is_zero() {
    let p = PhotoSize::Progressive(ProgressiveSize {
        photo_type: tagged("w"),
        width: 1,
        height: 1,
        sizes: Vec::new(),
    });
    assert_eq!(p.size(), 0);
}

#[test]
fn photo_type_is_reported_uniformly() {
    let p = PhotoSize::Stripped(StrippedSize {
        photo_type: tagged("i"),
        bytes: vec![],
    });
    assert_eq!(p.photo_type(), "i");
    assert_eq!(remote_entry("m", 1).photo_type(), "m");
}

#[test]
fn download_empty_leaves_zero_bytes_and_no_fetch() {
    let p = PhotoSize::Empty(SizeEmpty {
        photo_type: tagged("e"),
    });
    let mut dest = vec![9, 9, 9];
    let r = p.download(&mut dest);
    assert!(matches!(r, Ok(DownloadStep::Complete)));
    assert!(dest.is_empty());
}

#[test]
fn download_cached_writes_the_embedded_bytes_verbatim() {
    let p = PhotoSize::Cached(CachedSize {
        photo_type: tagged("s"),
        width: 4,
        height: 4,
        bytes: vec![10, 20, 30],
    });
    let mut dest = Vec::new();
    let r = p.download(&mut dest);
    assert!(matches!(r, Ok(DownloadStep::Complete)));
    assert_eq!(dest, vec![10, 20, 30]);
}

#[test]
fn download_remote_entry_requests_a_fetch_with_its_slot_tag() {
    let p = remote_entry("x", 500);
    let mut dest = vec![1];
    let r = p.download(&mut dest);
    match r {
        Ok(DownloadStep::Fetch(InputFileLocation::Photo(l))) => {
            assert_eq!(l.id, 42);
            assert_eq!(l.access_hash, -7);
            assert_eq!(l.file_reference, vec![1, 2, 3]);
            assert_eq!(l.thumb_size, "x");
        }
        _ => panic!("expected a photo fetch request"),
    }
    assert_eq!(dest, vec![1]);
}

#[test]
fn download_stripped_is_not_yet_implemented() {
    let p = PhotoSize::Stripped(StrippedSize {
        photo_type: tagged("i"),
        bytes: vec![1],
    });
    let mut dest = Vec::new();
    assert_eq!(p.download(&mut dest).err(), Some(MediaError::NotYetImplemented));
}

#[test]
fn download_progressive_is_not_yet_implemented() {
    let p = PhotoSize::Progressive(ProgressiveSize {
        photo_type: tagged("w"),
        width: 1,
        height: 1,
        sizes: vec![1],
    });
    let mut dest = Vec::new();
    assert_eq!(p.download(&mut dest).err(), Some(MediaError::NotYetImplemented));
}

#[test]
fn download_path_is_not_yet_implemented() {
    let p = PhotoSize::Path(PathSize {
        photo_type: tagged("j"),
        bytes: vec![1],
    });
    let mut dest = Vec::new();
    assert_eq!(p.download(&mut dest).err(), Some(MediaError::NotYetImplemented));
}

#[test]
fn largest_of_empty_is_absent() {
    let v: Vec<PhotoSize> = Vec::new();
    assert!(v.largest().is_none());
}

#[test]
fn largest_returns_the_unique_maximum() {
    let v = vec![
        remote_entry("s", 100),
        remote_entry("x", 900),
        remote_entry("m", 500),
    ];
    let p = v.largest().expect("non-empty");
    assert_eq!(p.photo_type(), "x");
    assert_eq!(p.size(), 900);
}

#[test]
fn largest_breaks_ties_towards_the_last_entry() {
    let v = vec![
        remote_entry("s", 100),
        remote_entry("m", 500),
        remote_entry("x", 500),
    ];
    let p = v.largest().expect("non-empty");
    assert_eq!(p.photo_type(), "x");
}

#[test]
fn largest_ranks_mixed_strategies_by_the_same_key() {
    let v = vec![
        PhotoSize::Empty(SizeEmpty {
            photo_type: tagged("e"),
        }),
        PhotoSize::Cached(CachedSize {
            photo_type: tagged("s"),
            width: 1,
            height: 1,
            bytes: vec![0; 40],
        }),
        PhotoSize::Progressive(ProgressiveSize {
            photo_type: tagged("w"),
            width: 1,
            height: 1,
            sizes: vec![10, 20],
        }),
    ];
    let p = v.largest().expect("non-empty");
    assert_eq!(p.photo_type(), "s");
}

#[test]
fn thumbs_of_tagged_photo_record_pick_the_last_tied_largest() {
    let record = PhotoMedia {
        photo: Some(PhotoUnion::Photo(PhotoData {
            id: 42,
            access_hash: -7,
            file_reference: vec![1, 2, 3],
            sizes: vec![
                PhotoSizeData::Size {
                    photo_type: tagged("s"),
                    width: 1,
                    height: 1,
                    size: 100,
                },
                PhotoSizeData::Size {
                    photo_type: tagged("m"),
                    width: 2,
                    height: 2,
                    size: 500,
                },
                PhotoSizeData::Size {
                    photo_type: tagged("x"),
                    width: 3,
                    height: 3,
                    size: 500,
                },
            ],
        })),
        ttl_seconds: None,
    };
    let photo = Photo::from_media(record, client());
    let thumbs = photo.thumbs();
    assert_eq!(thumbs.len(), 3);
    let p = thumbs.largest().expect("non-empty");
    assert_eq!(p.photo_type(), "x");
    assert_eq!(p.size(), 500);
}

#[test]
fn thumbs_thread_the_parent_identity_into_remote_entries() {
    let record = PhotoMedia {
        photo: Some(PhotoUnion::Photo(PhotoData {
            id: 42,
            access_hash: -7,
            file_reference: vec![1, 2, 3],
            sizes: vec![PhotoSizeData::Size {
                photo_type: tagged("y"),
                width: 1,
                height: 1,
                size: 10,
            }],
        })),
        ttl_seconds: None,
    };
    let photo = Photo::from_media(record, client());
    let thumbs = photo.thumbs();
    match &thumbs[0] {
        PhotoSize::Size(s) => {
            assert_eq!(s.id, 42);
            assert_eq!(s.access_hash, -7);
            assert_eq!(s.file_reference, vec![1, 2, 3]);
            assert_eq!(s.photo_type, "y");
            assert_eq!(s.size, 10);
        }
        _ => panic!("expected a remote-fetch entry"),
    }
}

#[test]
fn thumbs_of_absent_or_empty_union_are_empty() {
    let absent = Photo::from_media(
        PhotoMedia {
            photo: None,
            ttl_seconds: None,
        },
        client(),
    );
    assert!(absent.thumbs().is_empty());

    let empty = Photo::from_raw(PhotoUnion::Empty { id: 1 }, client());
    assert!(empty.thumbs().is_empty());
}

#[test]
fn thumbs_classify_every_raw_kind() {
    let record = PhotoMedia {
        photo: Some(PhotoUnion::Photo(PhotoData {
            id: 1,
            access_hash: 2,
            file_reference: vec![],
            sizes: vec![
                PhotoSizeData::Empty {
                    photo_type: tagged("a"),
                },
                PhotoSizeData::Size {
                    photo_type: tagged("b"),
                    width: 1,
                    height: 1,
                    size: 1,
                },
                PhotoSizeData::Cached {
                    photo_type: tagged("c"),
                    width: 1,
                    height: 1,
                    bytes: vec![1],
                },
                PhotoSizeData::Stripped {
                    photo_type: tagged("d"),
                    bytes: vec![1, 2],
                },
                PhotoSizeData::Progressive {
                    photo_type: tagged("e"),
                    width: 1,
                    height: 1,
                    sizes: vec![3, 4],
                },
                PhotoSizeData::Path {
                    photo_type: tagged("f"),
                    bytes: vec![5],
                },
            ],
        })),
        ttl_seconds: None,
    };
    let thumbs = Photo::from_media(record, client()).thumbs();
    assert!(matches!(thumbs[0], PhotoSize::Empty(_)));
    assert!(matches!(thumbs[1], PhotoSize::Size(_)));
    assert!(matches!(thumbs[2], PhotoSize::Cached(_)));
    assert!(matches!(thumbs[3], PhotoSize::Stripped(_)));
    assert!(matches!(thumbs[4], PhotoSize::Progressive(_)));
    assert!(matches!(thumbs[5], PhotoSize::Path(_)));
    let tags: Vec<String> = thumbs.iter().map(|t| t.photo_type()).collect();
    assert_eq!(tags, vec!["a", "b", "c", "d", "e", "f"]);
}
