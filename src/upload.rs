//! Upload requests and results, and where uploaded files are stored.
use vstd::prelude::*;
use vstd::string::*;
use crate::file_detector::FileType;

verus! {

/// A stored file as returned to the uploader.
#[derive(Debug)]
pub struct UploadResult {
    pub id: String,
    pub url: String,
    pub thumbnail_url: Option<String>,
    pub size: i64,
}

/// An upload: the bytes, the name it came under and an optional type hint.
#[derive(Debug)]
pub struct UploadRequest {
    pub file_data: Vec<u8>,
    pub original_filename: String,
    pub file_type: Option<String>,
}

/// Access to the object store.
#[derive(Debug)]
pub struct OssConfig {
    pub access_key_id: String,
    pub access_key_secret: String,
    pub endpoint: String,
    pub bucket: String,
    pub url_prefix: String,
}

/// The folder of a file type: images, documents, or others.
pub open spec fn folder_of(t: FileType) -> Seq<char> {
    match t {
        FileType::Image(_) => "images/"@,
        FileType::Document(_) => "documents/"@,
        FileType::Unknown => "others/"@,
    }
}

/// The object key of a stored file: `<folder>/<date>/<filename>`, the
/// folder chosen by file type.
pub fn object_key_for(file_type: FileType, date: &str, filename: &str) -> (r: String)
    ensures
        r@ == folder_of(file_type) + date@ + "/"@ + filename@,
{
    let mut key = match file_type {
        FileType::Image(_) => String::from_str("images/"),
        FileType::Document(_) => String::from_str("documents/"),
        FileType::Unknown => String::from_str("others/"),
    };
    key.append(date);
    key.append("/");
    key.append(filename);
    key
}

} // verus!
