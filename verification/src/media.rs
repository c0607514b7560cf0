//! Media-library requests: full snapshots or pages.
use vstd::prelude::*;

use crate::domain::{AudioAlbum, ImageAlbum, ImageFile, VideoAlbum};
use crate::error::{Error, UsageFault};
use crate::text::{copy_opt_string, ostr};

verus! {

/// Largest page a media-library request may ask for.
pub const MEDIA_PAGE_MAX_LIMIT: u64 = 1000;

/// A media-library request: the whole library, or one page of it.
#[derive(Debug, Clone, Copy, PartialEq, Eq, Structural)]
pub enum MediaPageRequest {
    /// The full metadata-only library.
    Full,
    /// One page, after `cursor`, of at most `limit` entries.
    Page {
        /// The previous page's cursor.
        cursor: Option<u64>,
        /// Page size.
        limit: Option<u64>,
    },
}

/// The request for the given `limit` and `cursor` fields: neither means
/// the full library; a limit must lie in `1..=MEDIA_PAGE_MAX_LIMIT`.
pub fn page_request(limit: Option<u64>, cursor: Option<u64>) -> (r: Result<MediaPageRequest, Error>)
    ensures
        limit is None && cursor is None ==> r == Ok::<MediaPageRequest, Error>(MediaPageRequest::Full),
        limit matches Some(l) && (l == 0 || l > MEDIA_PAGE_MAX_LIMIT) ==> r == Err::<MediaPageRequest, Error>(
            Error::Usage(UsageFault::PageLimitRange),
        ),
        limit matches Some(l) && 1 <= l <= MEDIA_PAGE_MAX_LIMIT ==> r == Ok::<MediaPageRequest, Error>(
            MediaPageRequest::Page { cursor, limit },
        ),
        limit is None && cursor is Some ==> r == Ok::<MediaPageRequest, Error>(
            MediaPageRequest::Page { cursor, limit: None },
        ),
{
    match limit {
        None => match cursor {
            None => Ok(MediaPageRequest::Full),
            Some(_) => Ok(MediaPageRequest::Page { cursor, limit: None }),
        },
        Some(l) => {
            if l == 0 || l > MEDIA_PAGE_MAX_LIMIT {
                return Err(Error::Usage(UsageFault::PageLimitRange));
            }
            Ok(MediaPageRequest::Page { cursor, limit })
        },
    }
}

/// An image record as the phone sends it.
#[derive(Debug, Clone, PartialEq, Eq)]
pub struct SspImageFile {
    /// Phone path.
    pub path: Option<String>,
    /// Size in bytes.
    pub file_size: Option<u64>,
    /// Creation time.
    pub created_timestamp: Option<u64>,
    /// Modification time.
    pub modified_timestamp: Option<u64>,
    /// Width.
    pub width: Option<u32>,
    /// Height.
    pub height: Option<u32>,
    /// Orientation.
    pub orientation: Option<u32>,
    /// Media-store id.
    pub media_id: Option<u64>,
    /// Album id.
    pub album_id: Option<u64>,
    /// MIME type.
    pub mime_type: Option<String>,
    /// Thumbnail bytes.
    pub thumbnail: Option<Vec<u8>>,
    /// Album name.
    pub album_name: Option<String>,
    /// Capture time.
    pub date_taken: Option<u64>,
    /// Latitude text.
    pub latitude: Option<String>,
    /// Longitude text.
    pub longitude: Option<String>,
    /// Thumbnail revision marker.
    pub mini_thumb_magic: Option<String>,
    /// Title.
    pub title: Option<String>,
    /// Whether the phone failed to make a thumbnail.
    pub get_thumbnail_error: Option<bool>,
    /// Whether the image is starred.
    pub starred: Option<bool>,
}

/// A photo album as the phone sends it.
#[derive(Debug, Clone, PartialEq, Eq)]
pub struct SspImageAlbum {
    /// Album path.
    pub album_path: Option<String>,
    /// Album id.
    pub album_id: Option<u64>,
    /// Album name.
    pub album_name: Option<String>,
    /// Cover image.
    pub cover_image: Option<Box<SspImageFile>>,
}

/// A video album as the phone sends it.
#[derive(Debug, Clone, PartialEq, Eq)]
pub struct SspVideoAlbum {
    /// Album path.
    pub album_path: Option<String>,
    /// Album id.
    pub album_id: Option<u64>,
    /// Album name.
    pub album_name: Option<String>,
}

/// An audio album as the phone sends it.
#[derive(Debug, Clone, PartialEq, Eq)]
pub struct SspAudioAlbum {
    /// Album path.
    pub album_path: Option<String>,
    /// Album id.
    pub album_id: Option<u64>,
    /// Album name.
    pub album_name: Option<String>,
    /// Artist id.
    pub artist_id: Option<u64>,
    /// Artist.
    pub artist: Option<String>,
    /// Year.
    pub year: Option<u32>,
    /// Album-art bytes.
    pub thumbnail: Option<Vec<u8>>,
    /// Whether the phone failed to make a thumbnail.
    pub get_thumbnail_error: Option<bool>,
}

/// Whether `r` is the public form of phone image record `f`.
pub open spec fn image_from(r: ImageFile, f: SspImageFile) -> bool {
    &&& r.path == f.path && r.size == f.file_size && r.created_at == f.created_timestamp
    &&& r.modified_at == f.modified_timestamp && r.width == f.width && r.height == f.height
    &&& r.orientation == f.orientation && r.media_id == f.media_id && r.album_id == f.album_id
    &&& r.mime_type == f.mime_type && r.thumbnail == f.thumbnail && r.album_name == f.album_name
    &&& r.date_taken == f.date_taken && r.latitude == f.latitude && r.longitude == f.longitude
    &&& r.mini_thumb_magic == f.mini_thumb_magic && r.title == f.title
    &&& r.thumbnail_error == (f.get_thumbnail_error == Some(true))
    &&& r.starred == (f.starred == Some(true))
}

/// The public form of an image record: fields carried over, missing
/// thumbnail-error and starred flags false.
pub fn image_file(file: SspImageFile) -> (r: ImageFile)
    ensures
        image_from(r, file),
{
    ImageFile {
        path: file.path,
        size: file.file_size,
        created_at: file.created_timestamp,
        modified_at: file.modified_timestamp,
        width: file.width,
        height: file.height,
        orientation: file.orientation,
        media_id: file.media_id,
        album_id: file.album_id,
        mime_type: file.mime_type,
        thumbnail: file.thumbnail,
        album_name: file.album_name,
        date_taken: file.date_taken,
        latitude: file.latitude,
        longitude: file.longitude,
        mini_thumb_magic: file.mini_thumb_magic,
        title: file.title,
        thumbnail_error: match file.get_thumbnail_error {
            Some(b) => b,
            None => false,
        },
        starred: match file.starred {
            Some(b) => b,
            None => false,
        },
    }
}

/// The public form of a photo album, its cover mapped like any image.
pub fn image_album(album: SspImageAlbum) -> (r: ImageAlbum)
    ensures
        r.path == album.album_path,
        r.album_id == album.album_id,
        r.name == album.album_name,
        r.cover_image is Some <==> album.cover_image is Some,
        r.cover_image matches Some(c) ==> image_from(*c, *album.cover_image->0),
{
    ImageAlbum {
        path: album.album_path,
        album_id: album.album_id,
        name: album.album_name,
        cover_image: match album.cover_image {
            Some(cover) => Some(Box::new(image_file(*cover))),
            None => None,
        },
    }
}

/// The public form of a video album.
pub fn video_album(album: SspVideoAlbum) -> (r: VideoAlbum)
    ensures
        r.path == album.album_path,
        r.album_id == album.album_id,
        r.name == album.album_name,
{
    VideoAlbum { path: album.album_path, album_id: album.album_id, name: album.album_name }
}

/// The public form of an audio album: fields carried over, a missing
/// thumbnail-error flag false.
pub fn audio_album(album: SspAudioAlbum) -> (r: AudioAlbum)
    ensures
        r.path == album.album_path,
        r.album_id == album.album_id,
        r.name == album.album_name,
        r.artist_id == album.artist_id,
        r.artist == album.artist,
        r.year == album.year,
        r.thumbnail == album.thumbnail,
        r.thumbnail_error == (album.get_thumbnail_error == Some(true)),
{
    AudioAlbum {
        path: album.album_path,
        album_id: album.album_id,
        name: album.album_name,
        artist_id: album.artist_id,
        artist: album.artist,
        year: album.year,
        thumbnail: album.thumbnail,
        thumbnail_error: match album.get_thumbnail_error {
            Some(b) => b,
            None => false,
        },
    }
}

/// The thumbnail request for an image: its media id and path only.
pub fn thumbnail_image_request(image: &ImageFile) -> (r: SspImageFile)
    ensures
        r.media_id == image.media_id,
        ostr(r.path) == ostr(image.path),
        r.file_size is None && r.created_timestamp is None && r.modified_timestamp is None,
        r.width is None && r.height is None && r.orientation is None && r.album_id is None,
        r.mime_type is None && r.thumbnail is None && r.album_name is None && r.date_taken is None,
        r.latitude is None && r.longitude is None && r.mini_thumb_magic is None && r.title is None,
        r.get_thumbnail_error is None && r.starred is None,
{
    SspImageFile {
        path: copy_opt_string(&image.path),
        file_size: None,
        created_timestamp: None,
        modified_timestamp: None,
        width: None,
        height: None,
        orientation: None,
        media_id: image.media_id,
        album_id: None,
        mime_type: None,
        thumbnail: None,
        album_name: None,
        date_taken: None,
        latitude: None,
        longitude: None,
        mini_thumb_magic: None,
        title: None,
        get_thumbnail_error: None,
        starred: None,
    }
}

/// The thumbnail request for an audio album: its album id and path only.
pub fn thumbnail_audio_album_request(album: &AudioAlbum) -> (r: SspAudioAlbum)
    ensures
        r.album_id == album.album_id,
        ostr(r.album_path) == ostr(album.path),
        r.album_name is None && r.artist_id is None && r.artist is None && r.year is None,
        r.thumbnail is None && r.get_thumbnail_error is None,
{
    SspAudioAlbum {
        album_id: album.album_id,
        album_path: copy_opt_string(&album.path),
        album_name: None,
        artist_id: None,
        artist: None,
        year: None,
        thumbnail: None,
        get_thumbnail_error: None,
    }
}

} // verus!
