//! Checks on uploaded image bytes: declared type, size, magic bytes, dimensions.
use crate::text::text_eq;
use vstd::prelude::*;

verus! {

/// Largest accepted upload, in bytes (50 MiB).
pub const MAX_FILE_SIZE: usize = 50 * 1024 * 1024;

/// Base directory of locally stored images.
pub const STORAGE_PATH: &'static str = "./uploads";

#[derive(Clone, Debug)]
pub enum ImageServiceError {
    InvalidFileType,
    InvalidMagicBytes,
    FileTooLarge,
    SaveError(String),
    IoError(String),
}

pub open spec fn allowed_mime(t: Seq<char>) -> bool {
    t == "image/jpeg"@ || t == "image/png"@ || t == "image/tiff"@
}

/// The first four bytes are those of JPEG, PNG or TIFF (either byte order).
pub open spec fn known_magic(b: Seq<u8>) -> bool {
    b.len() >= 4 && ((b[0] == 0xFF && b[1] == 0xD8 && b[2] == 0xFF) || (b[0] == 0x89 && b[1]
        == 0x50 && b[2] == 0x4E && b[3] == 0x47) || (b[0] == 0x49 && b[1] == 0x49 && b[2] == 0x2A
        && b[3] == 0x00) || (b[0] == 0x4D && b[1] == 0x4D && b[2] == 0x00 && b[3] == 0x2A))
}

pub open spec fn be16(b: Seq<u8>, i: int) -> int {
    b[i] as int * 256 + b[i + 1] as int
}

pub open spec fn be32(b: Seq<u8>, i: int) -> int {
    b[i] as int * 16777216 + b[i + 1] as int * 65536 + b[i + 2] as int * 256 + b[i + 3] as int
}

/// Walks JPEG markers from `pos` to the first SOF0/SOF2 frame header and reads
/// (width, height) there; `None` where the walk runs off the data or meets a
/// byte that is no marker.
pub open spec fn jpeg_scan(b: Seq<u8>, pos: int) -> Option<(u32, u32)>
    decreases b.len() - pos,
{
    if pos < 0 || pos + 2 > b.len() || b[pos] != 0xFF {
        None
    } else if b[pos + 1] == 0xC0 || b[pos + 1] == 0xC2 {
        if pos + 9 > b.len() {
            None
        } else {
            Some((be16(b, pos + 7) as u32, be16(b, pos + 5) as u32))
        }
    } else if pos + 4 > b.len() {
        None
    } else {
        let next = pos + 2 + be16(b, pos + 2);
        if next >= b.len() {
            None
        } else {
            jpeg_scan(b, next)
        }
    }
}

/// (width, height) from the IHDR chunk of a PNG.
pub open spec fn png_dimensions(b: Seq<u8>) -> Option<(u32, u32)> {
    if b.len() < 24 || !(b[12] == 0x49 && b[13] == 0x48 && b[14] == 0x44 && b[15] == 0x52) {
        None
    } else {
        Some((be32(b, 16) as u32, be32(b, 20) as u32))
    }
}

pub open spec fn image_dimensions(b: Seq<u8>) -> Option<(u32, u32)> {
    if b.len() < 24 {
        None
    } else if b[0] == 0xFF && b[1] == 0xD8 && b[2] == 0xFF {
        jpeg_scan(b, 2)
    } else if b[0] == 0x89 && b[1] == 0x50 && b[2] == 0x4E && b[3] == 0x47 {
        png_dimensions(b)
    } else {
        None
    }
}

pub struct ImageService;

impl ImageService {
    /// Accepts a file whose declared type is JPEG, PNG or TIFF, of at most
    /// `MAX_FILE_SIZE` bytes, whose content starts with that family's magic bytes.
    pub fn validate_file(content_type: &str, bytes: &[u8]) -> (r: Result<(), ImageServiceError>)
        ensures
            !allowed_mime(content_type@) ==> r matches Err(ImageServiceError::InvalidFileType),
            allowed_mime(content_type@) && bytes@.len() > MAX_FILE_SIZE ==> r matches Err(
                ImageServiceError::FileTooLarge,
            ),
            allowed_mime(content_type@) && bytes@.len() <= MAX_FILE_SIZE && !known_magic(bytes@)
                ==> r matches Err(ImageServiceError::InvalidMagicBytes),
            allowed_mime(content_type@) && bytes@.len() <= MAX_FILE_SIZE && known_magic(bytes@)
                ==> r is Ok,
    {
        if !(text_eq(content_type, "image/jpeg") || text_eq(content_type, "image/png") || text_eq(
            content_type,
            "image/tiff",
        )) {
            return Err(ImageServiceError::InvalidFileType);
        }
        if bytes.len() > MAX_FILE_SIZE {
            return Err(ImageServiceError::FileTooLarge);
        }
        if bytes.len() < 4 {
            return Err(ImageServiceError::InvalidMagicBytes);
        }
        let valid = (bytes[0] == 0xFF && bytes[1] == 0xD8 && bytes[2] == 0xFF) || (bytes[0] == 0x89
            && bytes[1] == 0x50 && bytes[2] == 0x4E && bytes[3] == 0x47) || (bytes[0] == 0x49
            && bytes[1] == 0x49 && bytes[2] == 0x2A && bytes[3] == 0x00) || (bytes[0] == 0x4D
            && bytes[1] == 0x4D && bytes[2] == 0x00 && bytes[3] == 0x2A);
        if !valid {
            return Err(ImageServiceError::InvalidMagicBytes);
        }
        Ok(())
    }

    /// File extension for a MIME type.
    pub fn get_extension_from_mime(mime_type: &str) -> (r: &'static str)
        ensures
            r@ == if mime_type@ == "image/jpeg"@ {
                "jpg"@
            } else if mime_type@ == "image/png"@ {
                "png"@
            } else if mime_type@ == "image/tiff"@ {
                "tiff"@
            } else {
                "bin"@
            },
    {
        if text_eq(mime_type, "image/jpeg") {
            "jpg"
        } else if text_eq(mime_type, "image/png") {
            "png"
        } else if text_eq(mime_type, "image/tiff") {
            "tiff"
        } else {
            "bin"
        }
    }

    /// (width, height) read from the headers of a JPEG or PNG.
    pub fn extract_metadata(bytes: &[u8]) -> (r: Option<(u32, u32)>)
        ensures
            r == image_dimensions(bytes@),
    {
        if bytes.len() < 24 {
            return None;
        }
        if bytes[0] == 0xFF && bytes[1] == 0xD8 && bytes[2] == 0xFF {
            ImageService::extract_jpeg_dimensions(bytes)
        } else if bytes[0] == 0x89 && bytes[1] == 0x50 && bytes[2] == 0x4E && bytes[3] == 0x47 {
            ImageService::extract_png_dimensions(bytes)
        } else {
            None
        }
    }

    /// Dimensions from the first SOF0/SOF2 marker after the start-of-image marker.
    pub fn extract_jpeg_dimensions(bytes: &[u8]) -> (r: Option<(u32, u32)>)
        ensures
            r == jpeg_scan(bytes@, 2),
    {
        let len = bytes.len();
        let mut pos: usize = 2;
        loop
            invariant
                len == bytes@.len(),
                jpeg_scan(bytes@, 2) == jpeg_scan(bytes@, pos as int),
            decreases len - pos,
        {
            if pos > len || len - pos < 2 || bytes[pos] != 0xFF {
                return None;
            }
            let marker = bytes[pos + 1];
            if marker == 0xC0 || marker == 0xC2 {
                if len - pos < 9 {
                    return None;
                }
                let height = (bytes[pos + 5] as u32) * 256 + bytes[pos + 6] as u32;
                let width = (bytes[pos + 7] as u32) * 256 + bytes[pos + 8] as u32;
                return Some((width, height));
            }
            if len - pos < 4 {
                return None;
            }
            let length = (bytes[pos + 2] as usize) * 256 + bytes[pos + 3] as usize;
            if length + 2 >= len - pos {
                return None;
            }
            pos = pos + 2 + length;
        }
    }

    /// Dimensions from the IHDR chunk that follows the PNG signature.
    pub fn extract_png_dimensions(bytes: &[u8]) -> (r: Option<(u32, u32)>)
        ensures
            r == png_dimensions(bytes@),
    {
        if bytes.len() < 24 {
            return None;
        }
        if !(bytes[12] == 0x49 && bytes[13] == 0x48 && bytes[14] == 0x44 && bytes[15] == 0x52) {
            return None;
        }
        let width = (bytes[16] as u32) * 16777216 + (bytes[17] as u32) * 65536 + (bytes[18] as u32)
            * 256 + bytes[19] as u32;
        let height = (bytes[20] as u32) * 16777216 + (bytes[21] as u32) * 65536 + (bytes[22] as u32)
            * 256 + bytes[23] as u32;
        Some((width, height))
    }
}

} // verus!
