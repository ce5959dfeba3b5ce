use campus_backend::file_detector::{DocumentFormat, FileDetector, FileInfo, FileType, ImageFormat, MatcherKind};

#[test]
fn test_detect_png_from_bytes() {
    let png_header = vec![0x89, 0x50, 0x4E, 0x47, 0x0D, 0x0A, 0x1A, 0x0A];
    let info = FileDetector::detect_from_bytes(&png_header);
    assert_eq!(info.file_type, FileType::Image(ImageFormat::Png));
    assert_eq!(info.mime_type, "image/png");
    assert_eq!(info.extension, "png");
    assert!(info.is_supported);
}

#[test]
fn test_detect_jpeg_from_bytes() {
    let jpeg_header = vec![0xFF, 0xD8, 0xFF, 0xE0];
    let info = FileDetector::detect_from_bytes(&jpeg_header);
    assert_eq!(info.file_type, FileType::Image(ImageFormat::Jpeg));
    assert_eq!(info.mime_type, "image/jpeg");
    assert_eq!(info.extension, "jpg");
    assert!(info.is_supported);
}

#[test]
fn test_detect_pdf_from_bytes() {
    let pdf_header = b"%PDF-1.4";
    let info = FileDetector::detect_from_bytes(pdf_header);
    assert_eq!(info.file_type, FileType::Document(DocumentFormat::Pdf));
    assert_eq!(info.mime_type, "application/pdf");
    assert_eq!(info.extension, "pdf");
    assert!(info.is_supported);
}

#[test]
fn test_detect_from_filename() {
    let info = FileDetector::detect_from_filename("test.png");
    assert_eq!(info.file_type, FileType::Image(ImageFormat::Png));
    assert!(info.is_supported);

    let info = FileDetector::detect_from_filename("document.pdf");
    assert_eq!(info.file_type, FileType::Document(DocumentFormat::Pdf));
    assert!(info.is_supported);
}

#[test]
fn test_generate_safe_filename() {
    let info = FileInfo {
        file_type: FileType::Image(ImageFormat::Png),
        mime_type: "image/png".to_string(),
        extension: "png".to_string(),
        is_supported: true,
    };
    let filename = FileDetector::generate_safe_filename("test.png", &info);
    assert!(filename.ends_with(".png"));
    assert!(filename.contains("_"));
}

#[test]
fn unrecognised_bytes_are_unknown_binary() {
    let info = FileDetector::detect_from_bytes(&[0x00, 0x01, 0x02]);
    assert_eq!(info.file_type, FileType::Unknown);
    assert_eq!(info.mime_type, "application/octet-stream");
    assert_eq!(info.extension, "bin");
    assert!(!info.is_supported);
}

#[test]
fn gif_bytes_are_known_but_unsupported() {
    let info = FileDetector::detect_from_bytes(b"GIF89a\x01\x00");
    assert_eq!(info.file_type, FileType::Image(ImageFormat::Gif));
    assert_eq!(info.mime_type, "image/gif");
    assert!(!info.is_supported);
}

#[test]
fn upper_case_extensions_are_lowered() {
    let info = FileDetector::detect_from_filename("PHOTO.JPEG");
    assert_eq!(info.extension, "jpeg");
    assert_eq!(info.file_type, FileType::Image(ImageFormat::Jpeg));
    assert_eq!(info.mime_type, "image/jpeg");
    assert!(info.is_supported);
}

#[test]
fn extension_comes_from_the_last_component() {
    let info = FileDetector::detect_from_filename("dir.v2/notes.txt");
    assert_eq!(info.extension, "txt");
    assert_eq!(info.file_type, FileType::Document(DocumentFormat::Txt));
    assert_eq!(info.mime_type, "text/plain");
    assert!(!info.is_supported);
}

#[test]
fn names_without_extension_are_unknown() {
    let info = FileDetector::detect_from_filename("README");
    assert_eq!(info.extension, "");
    assert_eq!(info.file_type, FileType::Unknown);
    assert_eq!(info.mime_type, "application/octet-stream");
    let hidden = FileDetector::detect_from_filename(".bashrc");
    assert_eq!(hidden.extension, "");
}

#[test]
fn extension_table() {
    let docx = FileDetector::classify_extension("docx".to_string());
    assert_eq!(docx.file_type, FileType::Document(DocumentFormat::Docx));
    assert_eq!(docx.mime_type, "application/vnd.openxmlformats-officedocument.wordprocessingml.document");
    assert_eq!(FileDetector::classify_extension("doc".to_string()).mime_type, "application/msword");
    assert_eq!(FileDetector::classify_extension("webp".to_string()).file_type, FileType::Image(ImageFormat::WebP));
    assert_eq!(FileDetector::classify_extension("bmp".to_string()).mime_type, "image/bmp");
    assert_eq!(FileDetector::classify_extension("exe".to_string()).file_type, FileType::Unknown);
}

#[test]
fn sniffed_families() {
    let zip = FileDetector::classify_sniffed(MatcherKind::Archive, "application/zip".to_string(), "zip".to_string());
    assert_eq!(zip.file_type, FileType::Unknown);
    assert_eq!(zip.mime_type, "application/zip");
    let doc = FileDetector::classify_sniffed(MatcherKind::Doc, "application/msword".to_string(), "doc".to_string());
    assert_eq!(doc.file_type, FileType::Document(DocumentFormat::Doc));
    assert!(!doc.is_supported);
    let audio = FileDetector::classify_sniffed(MatcherKind::Audio, "audio/mpeg".to_string(), "mp3".to_string());
    assert_eq!(audio.file_type, FileType::Unknown);
}

#[test]
fn supported_types() {
    assert!(FileDetector::is_supported_type(&FileType::Image(ImageFormat::Png)));
    assert!(FileDetector::is_supported_type(&FileType::Image(ImageFormat::Jpeg)));
    assert!(FileDetector::is_supported_type(&FileType::Document(DocumentFormat::Pdf)));
    assert!(!FileDetector::is_supported_type(&FileType::Document(DocumentFormat::Docx)));
    assert!(!FileDetector::is_supported_type(&FileType::Unknown));
}

#[test]
fn safe_filename_layout() {
    let name = FileDetector::safe_filename_from("1700000000", "0f8fad5b-d9cb-469f-a165-70867728950e", "pdf");
    assert_eq!(name, "1700000000_0f8fad5b-d9cb-469f-a165-70867728950e.pdf");
    let info = FileInfo {
        file_type: FileType::Document(DocumentFormat::Pdf),
        mime_type: "application/pdf".to_string(),
        extension: "pdf".to_string(),
        is_supported: true,
    };
    let generated = FileDetector::generate_safe_filename("a.pdf", &info);
    let (time, rest) = generated.split_once('_').unwrap();
    assert!(time.parse::<i64>().unwrap() > 1_600_000_000);
    assert_eq!(rest.len(), 36 + 4);
    assert!(rest.ends_with(".pdf"));
}
