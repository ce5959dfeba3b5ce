//! Classification of uploaded files by name or by content, and safe stored
//! file names.
use vstd::prelude::*;
use vstd::string::*;

verus! {

/// Image formats the service knows.
#[derive(Debug, Clone, Copy, PartialEq, Eq, Structural)]
pub enum ImageFormat {
    Png,
    Jpeg,
    Gif,
    WebP,
    Bmp,
}

/// Document formats the service knows.
#[derive(Debug, Clone, Copy, PartialEq, Eq, Structural)]
pub enum DocumentFormat {
    Pdf,
    Doc,
    Docx,
    Txt,
}

/// The kind of a file.
#[derive(Debug, Clone, Copy, PartialEq, Eq, Structural)]
pub enum FileType {
    Image(ImageFormat),
    Document(DocumentFormat),
    Unknown,
}

/// The family that content sniffing puts a file in.
#[derive(Debug, Clone, Copy, PartialEq, Eq, Structural)]
pub enum MatcherKind {
    App,
    Archive,
    Audio,
    Book,
    Doc,
    Font,
    Image,
    Text,
    Video,
    Custom,
}

/// What was found out about a file.
#[derive(Debug)]
pub struct FileInfo {
    pub file_type: FileType,
    pub mime_type: String,
    pub extension: String,
    pub is_supported: bool,
}

/// Content sniffing's answer for `data`: family, MIME type and extension.
pub uninterp spec fn sniffed(data: Seq<u8>) -> Option<(MatcherKind, Seq<char>, Seq<char>)>;

/// The extension of the last component of path `p`, as the platform's path
/// rules find it.
pub uninterp spec fn path_extension(p: Seq<char>) -> Option<Seq<char>>;

/// The Unicode lower-case form of `s`.
pub uninterp spec fn lower_of(s: Seq<char>) -> Seq<char>;

/// Relies on infer::get and the accessors of infer::Type: the family, MIME
/// type and extension of the first matcher that recognises `data`, if any.
#[verifier::external_body]
fn sniff(data: &[u8]) -> (r: Option<(MatcherKind, String, String)>)
    ensures
        match (r, sniffed(data@)) {
            (Some((k, m, e)), Some((k2, m2, e2))) => k == k2 && m@ == m2 && e@ == e2,
            (None, None) => true,
            _ => false,
        },
{
    let t = infer::get(data)?;
    let kind = match t.matcher_type() {
        infer::MatcherType::App => MatcherKind::App,
        infer::MatcherType::Archive => MatcherKind::Archive,
        infer::MatcherType::Audio => MatcherKind::Audio,
        infer::MatcherType::Book => MatcherKind::Book,
        infer::MatcherType::Doc => MatcherKind::Doc,
        infer::MatcherType::Font => MatcherKind::Font,
        infer::MatcherType::Image => MatcherKind::Image,
        infer::MatcherType::Text => MatcherKind::Text,
        infer::MatcherType::Video => MatcherKind::Video,
        infer::MatcherType::Custom => MatcherKind::Custom,
    };
    Some((kind, t.mime_type().to_string(), t.extension().to_string()))
}

/// Relies on std::path::Path::extension: the extension of the path's last
/// component; a `&str` path is valid UTF-8, so the extension is too.
#[verifier::external_body]
fn extension_of(filename: &str) -> (r: Option<String>)
    ensures
        match (r, path_extension(filename@)) {
            (Some(e), Some(e2)) => e@ == e2,
            (None, None) => true,
            _ => false,
        },
{
    match std::path::Path::new(filename).extension() {
        Some(e) => e.to_str().map(String::from),
        None => None,
    }
}

/// Relies on str::to_lowercase: the result depends on the characters alone,
/// and the empty string stays empty.
#[verifier::external_body]
fn to_lower(s: &str) -> (r: String)
    ensures
        r@ == lower_of(s@),
        s@.len() == 0 ==> r@.len() == 0,
{
    s.to_lowercase()
}

/// Relies on uuid::Uuid::new_v4 and its `Display`: a random version-4 UUID in
/// hyphenated form, 36 characters.
#[verifier::external_body]
fn random_uuid_text() -> (r: String)
    ensures
        r@.len() == 36,
{
    uuid::Uuid::new_v4().to_string()
}

/// Relies on chrono::Utc::now and DateTime::timestamp: the current Unix time
/// in seconds, as decimal text.
#[verifier::external_body]
fn unix_time_text() -> (r: String) {
    chrono::Utc::now().timestamp().to_string()
}

/// The file type that a lower-case extension names.
pub open spec fn type_for_extension(e: Seq<char>) -> FileType {
    if e == "png"@ {
        FileType::Image(ImageFormat::Png)
    } else if e == "jpg"@ || e == "jpeg"@ {
        FileType::Image(ImageFormat::Jpeg)
    } else if e == "gif"@ {
        FileType::Image(ImageFormat::Gif)
    } else if e == "webp"@ {
        FileType::Image(ImageFormat::WebP)
    } else if e == "bmp"@ {
        FileType::Image(ImageFormat::Bmp)
    } else if e == "pdf"@ {
        FileType::Document(DocumentFormat::Pdf)
    } else if e == "doc"@ {
        FileType::Document(DocumentFormat::Doc)
    } else if e == "docx"@ {
        FileType::Document(DocumentFormat::Docx)
    } else if e == "txt"@ {
        FileType::Document(DocumentFormat::Txt)
    } else {
        FileType::Unknown
    }
}

/// The file type that content sniffing's family and extension give: only
/// images and documents are recognised. PDF counts as a document in
/// whichever family the sniffer files it (infer lists it among archives).
pub open spec fn type_for_sniffed(k: MatcherKind, e: Seq<char>) -> FileType {
    match k {
        MatcherKind::Image => if e == "png"@ {
            FileType::Image(ImageFormat::Png)
        } else if e == "jpg"@ || e == "jpeg"@ {
            FileType::Image(ImageFormat::Jpeg)
        } else if e == "gif"@ {
            FileType::Image(ImageFormat::Gif)
        } else if e == "webp"@ {
            FileType::Image(ImageFormat::WebP)
        } else if e == "bmp"@ {
            FileType::Image(ImageFormat::Bmp)
        } else {
            FileType::Unknown
        },
        MatcherKind::Doc | MatcherKind::Archive => if e == "pdf"@ {
            FileType::Document(DocumentFormat::Pdf)
        } else if k == MatcherKind::Doc && e == "doc"@ {
            FileType::Document(DocumentFormat::Doc)
        } else if k == MatcherKind::Doc && e == "docx"@ {
            FileType::Document(DocumentFormat::Docx)
        } else {
            FileType::Unknown
        },
        _ => FileType::Unknown,
    }
}

/// The MIME type of a file type.
pub open spec fn mime_for(t: FileType) -> Seq<char> {
    match t {
        FileType::Image(ImageFormat::Png) => "image/png"@,
        FileType::Image(ImageFormat::Jpeg) => "image/jpeg"@,
        FileType::Image(ImageFormat::Gif) => "image/gif"@,
        FileType::Image(ImageFormat::WebP) => "image/webp"@,
        FileType::Image(ImageFormat::Bmp) => "image/bmp"@,
        FileType::Document(DocumentFormat::Pdf) => "application/pdf"@,
        FileType::Document(DocumentFormat::Doc) => "application/msword"@,
        FileType::Document(DocumentFormat::Docx) => "application/vnd.openxmlformats-officedocument.wordprocessingml.document"@,
        FileType::Document(DocumentFormat::Txt) => "text/plain"@,
        FileType::Unknown => "application/octet-stream"@,
    }
}

/// The file types that may be uploaded: PNG, JPEG and PDF.
pub open spec fn supported(t: FileType) -> bool {
    t == FileType::Image(ImageFormat::Png) || t == FileType::Image(ImageFormat::Jpeg) || t
        == FileType::Document(DocumentFormat::Pdf)
}

/// Whether the text `s` equals the literal `lit`.
fn text_is(s: &String, lit: &str) -> (r: bool)
    ensures
        r == (s@ == lit@),
{
    *s == String::from_str(lit)
}

/// The MIME type of a file type.
fn mime_text(t: FileType) -> (r: String)
    ensures
        r@ == mime_for(t),
{
    match t {
        FileType::Image(ImageFormat::Png) => String::from_str("image/png"),
        FileType::Image(ImageFormat::Jpeg) => String::from_str("image/jpeg"),
        FileType::Image(ImageFormat::Gif) => String::from_str("image/gif"),
        FileType::Image(ImageFormat::WebP) => String::from_str("image/webp"),
        FileType::Image(ImageFormat::Bmp) => String::from_str("image/bmp"),
        FileType::Document(DocumentFormat::Pdf) => String::from_str("application/pdf"),
        FileType::Document(DocumentFormat::Doc) => String::from_str("application/msword"),
        FileType::Document(DocumentFormat::Docx) => String::from_str(
            "application/vnd.openxmlformats-officedocument.wordprocessingml.document",
        ),
        FileType::Document(DocumentFormat::Txt) => String::from_str("text/plain"),
        FileType::Unknown => String::from_str("application/octet-stream"),
    }
}

/// The type of file names and file contents.
pub struct FileDetector;

impl FileDetector {
    /// Detects a file's type from its content; content that nothing
    /// recognises is an unsupported `Unknown` with extension `bin`.
    pub fn detect_from_bytes(data: &[u8]) -> (r: FileInfo)
        ensures
            match sniffed(data@) {
                Some((k, m, e)) => r.file_type == type_for_sniffed(k, e) && r.mime_type@ == m
                    && r.extension@ == e && r.is_supported == supported(r.file_type),
                None => r.file_type == FileType::Unknown && r.mime_type@
                    == "application/octet-stream"@ && r.extension@ == "bin"@ && !r.is_supported,
            },
    {
        match sniff(data) {
            Some((kind, mime_type, extension)) => Self::classify_sniffed(kind, mime_type, extension),
            None => FileInfo {
                file_type: FileType::Unknown,
                mime_type: String::from_str("application/octet-stream"),
                extension: String::from_str("bin"),
                is_supported: false,
            },
        }
    }

    /// The file information for content sniffing's family, MIME type and
    /// extension.
    pub fn classify_sniffed(kind: MatcherKind, mime_type: String, extension: String) -> (r: FileInfo)
        ensures
            r.file_type == type_for_sniffed(kind, extension@),
            r.mime_type@ == mime_type@,
            r.extension@ == extension@,
            r.is_supported == supported(r.file_type),
    {
        let file_type = match kind {
            MatcherKind::Image => {
                if text_is(&extension, "png") {
                    FileType::Image(ImageFormat::Png)
                } else if text_is(&extension, "jpg") || text_is(&extension, "jpeg") {
                    FileType::Image(ImageFormat::Jpeg)
                } else if text_is(&extension, "gif") {
                    FileType::Image(ImageFormat::Gif)
                } else if text_is(&extension, "webp") {
                    FileType::Image(ImageFormat::WebP)
                } else if text_is(&extension, "bmp") {
                    FileType::Image(ImageFormat::Bmp)
                } else {
                    FileType::Unknown
                }
            },
            MatcherKind::Doc | MatcherKind::Archive => {
                let is_doc = kind == MatcherKind::Doc;
                if text_is(&extension, "pdf") {
                    FileType::Document(DocumentFormat::Pdf)
                } else if is_doc && text_is(&extension, "doc") {
                    FileType::Document(DocumentFormat::Doc)
                } else if is_doc && text_is(&extension, "docx") {
                    FileType::Document(DocumentFormat::Docx)
                } else {
                    FileType::Unknown
                }
            },
            _ => FileType::Unknown,
        };
        let is_supported = Self::is_supported_type(&file_type);
        FileInfo { file_type, mime_type, extension, is_supported }
    }

    /// Detects a file's type from the extension of its name, in any case.
    pub fn detect_from_filename(filename: &str) -> (r: FileInfo)
        ensures
            r.extension@ == match path_extension(filename@) {
                Some(e) => lower_of(e),
                None => lower_of(Seq::empty()),
            },
            path_extension(filename@) is None ==> r.extension@.len() == 0,
            r.file_type == type_for_extension(r.extension@),
            r.mime_type@ == mime_for(r.file_type),
            r.is_supported == supported(r.file_type),
    {
        let ext = match extension_of(filename) {
            Some(e) => to_lower(e.as_str()),
            None => {
                proof {
                    reveal_strlit("");
                }
                assert(""@ =~= Seq::<char>::empty());
                to_lower("")
            },
        };
        Self::classify_extension(ext)
    }

    /// The file information for a lower-case extension.
    pub fn classify_extension(extension: String) -> (r: FileInfo)
        ensures
            r.extension@ == extension@,
            r.file_type == type_for_extension(extension@),
            r.mime_type@ == mime_for(r.file_type),
            r.is_supported == supported(r.file_type),
    {
        let file_type = if text_is(&extension, "png") {
            FileType::Image(ImageFormat::Png)
        } else if text_is(&extension, "jpg") || text_is(&extension, "jpeg") {
            FileType::Image(ImageFormat::Jpeg)
        } else if text_is(&extension, "gif") {
            FileType::Image(ImageFormat::Gif)
        } else if text_is(&extension, "webp") {
            FileType::Image(ImageFormat::WebP)
        } else if text_is(&extension, "bmp") {
            FileType::Image(ImageFormat::Bmp)
        } else if text_is(&extension, "pdf") {
            FileType::Document(DocumentFormat::Pdf)
        } else if text_is(&extension, "doc") {
            FileType::Document(DocumentFormat::Doc)
        } else if text_is(&extension, "docx") {
            FileType::Document(DocumentFormat::Docx)
        } else if text_is(&extension, "txt") {
            FileType::Document(DocumentFormat::Txt)
        } else {
            FileType::Unknown
        };
        let mime_type = mime_text(file_type);
        let is_supported = Self::is_supported_type(&file_type);
        FileInfo { file_type, mime_type, extension, is_supported }
    }

    /// Whether files of this type may be uploaded: PNG, JPEG and PDF only.
    pub fn is_supported_type(file_type: &FileType) -> (r: bool)
        ensures
            r == supported(*file_type),
    {
        match file_type {
            FileType::Image(ImageFormat::Png) | FileType::Image(ImageFormat::Jpeg)
            | FileType::Document(DocumentFormat::Pdf) => true,
            _ => false,
        }
    }

    /// A stored file name that reveals nothing of the original one:
    /// `<unix time>_<random uuid>.<extension>`.
    pub fn generate_safe_filename(_original_name: &str, file_info: &FileInfo) -> (r: String)
        ensures
            exists|t: Seq<char>, u: Seq<char>|
                u.len() == 36 && r@ == t + "_"@ + u + "."@ + file_info.extension@,
    {
        let time = unix_time_text();
        let uuid = random_uuid_text();
        Self::safe_filename_from(time.as_str(), uuid.as_str(), file_info.extension.as_str())
    }

    /// The stored file name `<time>_<uuid>.<extension>`.
    pub fn safe_filename_from(time: &str, uuid: &str, extension: &str) -> (r: String)
        ensures
            r@ == time@ + "_"@ + uuid@ + "."@ + extension@,
    {
        let mut name = String::from_str(time);
        name.append("_");
        name.append(uuid);
        name.append(".");
        name.append(extension);
        name
    }
}

} // verus!
