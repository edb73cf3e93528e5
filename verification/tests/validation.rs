use bent::files::{
    check_extension, extension_of, extension_of_name, unknown_extension_message, ImageFile,
    ImageFileError,
};

const KNOWN: [&str; 23] = [
    "avif", "jpg", "jpeg", "jfif", "png", "apng", "gif", "webp", "tif", "tiff", "tga", "dds",
    "bmp", "ico", "hdr", "exr", "pbm", "pam", "ppm", "pgm", "pnm", "ff", "qoi",
];

fn unknown(ext: &str) -> Result<ImageFile, ImageFileError> {
    Err(ImageFileError::UnknownExtension(ext.to_string()))
}

fn text(value: &str) -> Option<String> {
    Some(value.to_string())
}

#[test]
fn the_extension_follows_the_last_dot() {
    assert_eq!(extension_of_name("archive.tar.gz"), text("gz"));
    assert_eq!(extension_of_name("photo.png"), text("png"));
    assert_eq!(extension_of_name(".hidden.JPG"), text("JPG"));
    assert_eq!(extension_of_name("a.b.c.d"), text("d"));
    assert_eq!(extension_of_name("..png"), text("png"));
}

#[test]
fn a_name_without_a_dot_has_no_extension() {
    assert_eq!(extension_of_name("README"), None);
    assert_eq!(extension_of_name(""), None);
    assert_eq!(extension_of_name("png"), None);
}

#[test]
fn a_leading_dot_alone_starts_no_extension() {
    assert_eq!(extension_of_name(".bashrc"), None);
    assert_eq!(extension_of_name(".png"), None);
    assert_eq!(extension_of_name("."), None);
}

#[test]
fn a_trailing_dot_starts_an_empty_extension() {
    assert_eq!(extension_of_name("photo."), text(""));
    assert_eq!(extension_of_name("photo.png."), text(""));
    assert_eq!(extension_of_name("..."), text(""));
}

#[test]
fn extensions_are_cut_by_characters() {
    assert_eq!(extension_of_name("\u{e9}t\u{e9}.\u{fc}ber"), text("\u{fc}ber"));
    assert_eq!(extension_of_name("\u{1f600}.\u{1f600}png"), text("\u{1f600}png"));
    assert_eq!(extension_of_name("\u{65e5}\u{672c}.png"), text("png"));
}

#[test]
fn the_extension_of_a_path_is_that_of_its_file_name() {
    assert_eq!(extension_of("/home/user/archive.tar.gz"), text("gz"));
    assert_eq!(extension_of("shots.old/photo"), None);
    assert_eq!(extension_of("shots.old/photo.png/"), text("png"));
    assert_eq!(extension_of("shots.old/.."), None);
    assert_eq!(extension_of("/"), None);
    assert_eq!(extension_of(""), None);
}

#[test]
fn extensions_are_those_std_reports() {
    for path in [
        "photo.png",
        "archive.tar.gz",
        "README",
        "",
        ".",
        "..",
        "...",
        "....",
        ".png",
        "..png",
        "photo.",
        "photo..",
        ".a.b",
        "a/b.c/d",
        "a/b.c/d.e",
        "a/b.c/.",
        "a/b.c/..",
        "a/b.c//",
        "a.b/c.d/./",
        "/",
        "//a.png",
        "./a.png",
        "a.png/.",
        "dir/.hidden",
        "dir/.hidden.txt",
        "C:\\pictures\\photo.PNG",
        "\u{e9}t\u{e9}.\u{fc}ber",
        "a b.p n g",
        "a.b\nc",
    ] {
        let expected = std::path::Path::new(path)
            .extension()
            .map(|ext| ext.to_str().unwrap().to_string());
        assert_eq!(extension_of(path), expected, "{path:?}");
    }
}

#[test]
fn photo_png_is_accepted_unchanged() {
    let file = ImageFile::try_new("photo.png").unwrap();
    assert_eq!(file.as_str(), "photo.png");
    assert_eq!(file.to_string(), "photo.png".to_string());
}

#[test]
fn archive_tar_gz_is_rejected_for_gz() {
    assert_eq!(ImageFile::try_new("archive.tar.gz"), unknown("gz"));
}

#[test]
fn readme_has_no_extension() {
    assert_eq!(ImageFile::try_new("README"), Err(ImageFileError::NoExtension));
}

#[test]
fn every_known_extension_is_accepted() {
    for ext in KNOWN {
        let path = format!("picture.{ext}");
        let file = ImageFile::try_new(&path).unwrap();
        assert_eq!(file.as_str(), path);
        assert_eq!(check_extension(Some(ext.to_string())), Ok(()));
    }
}

#[test]
fn known_extensions_are_matched_in_any_case() {
    for ext in KNOWN {
        let upper = ext.to_uppercase();
        assert_eq!(check_extension(Some(upper.clone())), Ok(()));
        let path = format!("/home/user/Pictures/holiday.{upper}");
        assert_eq!(ImageFile::try_new(&path).unwrap().as_str(), path);
    }
    assert_eq!(ImageFile::try_new("a.pNg").unwrap().as_str(), "a.pNg");
    assert_eq!(ImageFile::try_new("a.JpEg").unwrap().as_str(), "a.JpEg");
}

#[test]
fn unknown_extensions_are_rejected_as_written() {
    for ext in ["gz", "txt", "pcx", "pngx", "pn", "PCX", "Txt", "p ng", "png ", "\u{212A}"] {
        assert_eq!(
            check_extension(Some(ext.to_string())),
            Err(ImageFileError::UnknownExtension(ext.to_string()))
        );
        assert_eq!(ImageFile::try_new(&format!("file.{ext}")), unknown(ext));
    }
}

#[test]
fn an_empty_extension_is_unknown() {
    assert_eq!(
        check_extension(Some(String::new())),
        Err(ImageFileError::UnknownExtension(String::new()))
    );
    assert_eq!(ImageFile::try_new("photo."), unknown(""));
}

#[test]
fn a_missing_extension_is_reported() {
    assert_eq!(check_extension(None), Err(ImageFileError::NoExtension));
    for path in ["README", "", ".png", "pictures/", "pictures.d/README", ".."] {
        assert_eq!(ImageFile::try_new(path), Err(ImageFileError::NoExtension));
    }
}

#[test]
fn the_extension_is_that_of_the_file_name() {
    assert_eq!(ImageFile::try_new("shots.old/photo.png").unwrap().as_str(), "shots.old/photo.png");
    assert_eq!(ImageFile::try_new("shots.png/photo.txt"), unknown("txt"));
    assert_eq!(ImageFile::try_new(".hidden.png").unwrap().as_str(), ".hidden.png");
    assert_eq!(ImageFile::try_new("photo.png/").unwrap().as_str(), "photo.png/");
}

#[test]
fn validation_is_repeatable() {
    for path in ["photo.png", "archive.tar.gz", "README", "a.JPG", ""] {
        assert_eq!(ImageFile::try_new(path), ImageFile::try_new(path));
    }
}

#[test]
fn an_image_file_derefs_to_its_path() {
    let file = ImageFile::try_new("scan.tiff").unwrap();
    let path: &String = &file;
    assert_eq!(path, "scan.tiff");
    assert_eq!(file.len(), 9);
    assert_eq!(file.clone(), file);
}

#[test]
fn no_extension_message() {
    assert_eq!(
        ImageFileError::NoExtension.to_string(),
        "can't decode an image without a file extension"
    );
}

#[test]
fn unknown_extension_message_quotes_the_extension() {
    assert_eq!(
        ImageFileError::UnknownExtension("gz".to_string()).to_string(),
        "\"gz\" is not a known image file extension"
    );
    assert_eq!(
        ImageFileError::UnknownExtension(String::new()).to_string(),
        "\"\" is not a known image file extension"
    );
}

#[test]
fn unknown_extension_message_escapes_the_extension() {
    assert_eq!(
        ImageFileError::UnknownExtension("a\"b\\c\n".to_string()).to_string(),
        "\"a\\\"b\\\\c\\n\" is not a known image file extension"
    );
}

#[test]
fn unknown_extension_message_from_quoted_text() {
    assert_eq!(
        unknown_extension_message("'gz'".to_string()),
        "'gz' is not a known image file extension"
    );
    assert_eq!(unknown_extension_message(String::new()), " is not a known image file extension");
}

#[test]
fn rejection_message_of_a_rejected_path() {
    let error = ImageFile::try_new("archive.tar.gz").unwrap_err();
    assert_eq!(error.to_string(), "\"gz\" is not a known image file extension");
    let error = ImageFile::try_new("README").unwrap_err();
    assert_eq!(error.to_string(), "can't decode an image without a file extension");
}

#[test]
fn validation_agrees_with_the_image_crate() {
    for path in [
        "photo.png",
        "archive.tar.gz",
        "README",
        "a.JFIF",
        "b.apng",
        "c.pcx",
        "d.",
        "e.webp",
        "dir/f.QOI",
        "g.svg",
    ] {
        assert_eq!(
            ImageFile::try_new(path).is_ok(),
            image::ImageFormat::from_path(path).is_ok(),
            "{path}"
        );
    }
}
