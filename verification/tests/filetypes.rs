use switcheroo::filetypes::{CompressionType, FileType, OutputType};

const KNOWN: [FileType; 15] = [
    FileType::Png,
    FileType::Jpg,
    FileType::Jpeg,
    FileType::Webp,
    FileType::Svg,
    FileType::Heif,
    FileType::Heic,
    FileType::Bmp,
    FileType::Avif,
    FileType::Jxl,
    FileType::Tiff,
    FileType::Pdf,
    FileType::Gif,
    FileType::Ico,
    FileType::Dds,
];

#[test]
fn every_known_format_is_listed_in_order() {
    assert_eq!(FileType::iterator(), KNOWN.to_vec());
    assert_eq!(FileType::input_formats(), KNOWN.to_vec());
}

#[test]
fn unknown_is_neither_read_nor_written() {
    assert!(!FileType::Unknown.is_input());
    assert!(!FileType::Unknown.is_output());
    assert_eq!(FileType::default(), FileType::Unknown);
    assert_eq!(FileType::Unknown.as_extension(), "");
    assert_eq!(FileType::Unknown.as_mime(), "");
}

#[test]
fn every_known_format_can_be_read() {
    for t in KNOWN {
        assert!(t.is_input());
    }
}

#[test]
fn vector_images_are_read_only() {
    assert!(FileType::Svg.is_input());
    assert!(!FileType::Svg.is_output());
    for t in KNOWN {
        if t != FileType::Svg {
            assert!(t.is_output());
        }
    }
}

#[test]
fn only_webp_and_gif_hold_animations() {
    for t in KNOWN {
        assert_eq!(t.supports_animation(), t == FileType::Webp || t == FileType::Gif);
    }
}

#[test]
fn alpha_support_by_format() {
    let with_alpha = [
        FileType::Png,
        FileType::Webp,
        FileType::Svg,
        FileType::Heif,
        FileType::Heic,
        FileType::Avif,
        FileType::Jxl,
        FileType::Pdf,
        FileType::Ico,
        FileType::Gif,
    ];
    for t in KNOWN {
        assert_eq!(t.supports_alpha(), with_alpha.contains(&t));
    }
    assert!(!FileType::Jpg.supports_alpha());
    assert!(!FileType::Bmp.supports_alpha());
}

#[test]
fn lossy_formats() {
    let lossy = [
        FileType::Jpg,
        FileType::Jpeg,
        FileType::Webp,
        FileType::Heif,
        FileType::Heic,
        FileType::Avif,
        FileType::Jxl,
        FileType::Tiff,
        FileType::Pdf,
        FileType::Dds,
    ];
    for t in KNOWN {
        assert_eq!(t.is_lossy(), lossy.contains(&t));
    }
}

#[test]
fn previews_are_not_loaded_for_documents_icons_and_dds() {
    for t in KNOWN {
        let direct = !(t == FileType::Pdf || t == FileType::Dds || t == FileType::Ico);
        assert_eq!(t.supports_pixbuf(), direct);
    }
}

#[test]
fn output_formats_all_and_popular() {
    assert_eq!(
        FileType::output_formats(true),
        vec![
            FileType::Png,
            FileType::Jpg,
            FileType::Webp,
            FileType::Heif,
            FileType::Heic,
            FileType::Bmp,
            FileType::Avif,
            FileType::Jxl,
            FileType::Tiff,
            FileType::Pdf,
            FileType::Gif,
            FileType::Ico,
            FileType::Dds,
        ]
    );
    assert_eq!(
        FileType::output_formats(false),
        vec![
            FileType::Png,
            FileType::Jpg,
            FileType::Webp,
            FileType::Heif,
            FileType::Pdf,
            FileType::Gif,
            FileType::Ico,
        ]
    );
}

#[test]
fn extensions_lead_back_to_their_format() {
    for t in KNOWN {
        let back = FileType::from_string(t.as_extension());
        if t == FileType::Jpeg {
            assert_eq!(back, Some(FileType::Jpg));
        } else {
            assert_eq!(back, Some(t));
        }
    }
    assert_eq!(FileType::from_string(""), None);
    assert_eq!(FileType::from_string("PNG"), None);
    assert_eq!(FileType::from_string("zip"), None);
}

#[test]
fn mime_types_lead_back_to_their_format() {
    for t in KNOWN {
        let back = FileType::from_mimetype(t.as_mime());
        if t == FileType::Jpeg {
            assert_eq!(back, Some(FileType::Jpg));
        } else {
            assert_eq!(back, Some(t));
        }
    }
    assert_eq!(FileType::from_mimetype("image/jpg"), Some(FileType::Jpg));
    assert_eq!(FileType::from_mimetype("text/plain"), None);
    assert_eq!(FileType::from_mimetype(""), None);
}

#[test]
fn mime_types_of_formats() {
    assert_eq!(FileType::Png.as_mime(), "image/png");
    assert_eq!(FileType::Jpg.as_mime(), "image/jpeg");
    assert_eq!(FileType::Jpeg.as_mime(), "image/jpeg");
    assert_eq!(FileType::Svg.as_mime(), "image/svg+xml");
    assert_eq!(FileType::Pdf.as_mime(), "application/pdf");
    assert_eq!(FileType::Ico.as_mime(), "image/x-icon");
    assert_eq!(FileType::Dds.as_mime(), "image/vnd-ms.dds");
}

#[test]
fn display_names_are_extensions_in_capitals() {
    for t in KNOWN {
        assert_eq!(t.as_display_string(), t.as_extension().to_uppercase());
    }
    assert_eq!(FileType::Webp.as_display_string(), "WEBP");
    assert_eq!(FileType::Unknown.as_display_string(), "");
}

#[test]
fn compression_types() {
    assert!(CompressionType::Zip.is_compression());
    assert!(!CompressionType::Directory.is_compression());
    assert_eq!(
        CompressionType::iterator(),
        vec![CompressionType::Zip, CompressionType::Directory]
    );
    assert_eq!(CompressionType::compression_formats(), vec![CompressionType::Zip]);
    assert_eq!(CompressionType::possible_output(true), vec![CompressionType::Zip]);
    assert_eq!(
        CompressionType::possible_output(false),
        vec![CompressionType::Zip, CompressionType::Directory]
    );
}

#[test]
fn compression_names() {
    assert_eq!(CompressionType::Zip.as_mime(), "application/zip");
    assert_eq!(CompressionType::Directory.as_mime(), "inode/directory");
    assert_eq!(CompressionType::Zip.as_extension(), "zip");
    assert_eq!(CompressionType::Directory.as_extension(), "directory");
    assert_eq!(CompressionType::Zip.as_display_string(), "ZIP");
    assert_eq!(CompressionType::Directory.as_display_string(), "Directory");
    assert_eq!(CompressionType::from_string("zip"), Some(CompressionType::Zip));
    assert_eq!(
        CompressionType::from_string("directory"),
        Some(CompressionType::Directory)
    );
    assert_eq!(CompressionType::from_string("tar"), None);
}

#[test]
fn output_types_by_name() {
    assert_eq!(
        OutputType::from_string("zip"),
        Some(OutputType::Compression(CompressionType::Zip))
    );
    assert_eq!(
        OutputType::from_string("directory"),
        Some(OutputType::Compression(CompressionType::Directory))
    );
    assert_eq!(OutputType::from_string("png"), Some(OutputType::File(FileType::Png)));
    assert_eq!(OutputType::from_string("jpeg"), Some(OutputType::File(FileType::Jpg)));
    assert_eq!(OutputType::from_string("svg"), Some(OutputType::File(FileType::Svg)));
    assert_eq!(OutputType::from_string("dds"), Some(OutputType::File(FileType::Dds)));
    assert_eq!(OutputType::from_string("exe"), None);
}

#[test]
fn output_types_pass_names_through() {
    assert_eq!(OutputType::File(FileType::Gif).as_mime(), "image/gif");
    assert_eq!(OutputType::File(FileType::Gif).as_extension(), "gif");
    assert_eq!(
        OutputType::Compression(CompressionType::Zip).as_mime(),
        "application/zip"
    );
    assert_eq!(
        OutputType::Compression(CompressionType::Directory).as_extension(),
        "directory"
    );
}
