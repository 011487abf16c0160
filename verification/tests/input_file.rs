use switcheroo::filetypes::FileType;
use switcheroo::input_file::InputFile;

#[test]
fn a_file_is_known_by_its_mime_type() {
    let f = InputFile::new("/home/me/a.png", "image/png").unwrap();
    assert_eq!(f.path(), "/home/me/a.png");
    assert_eq!(f.kind(), FileType::Png);
    assert_eq!(f.frames(), 1);
    assert_eq!(f.width(), None);
    assert_eq!(f.height(), None);
    assert_eq!(f.dimensions(), None);
    assert_eq!(f.area(), None);
    assert!(!f.is_behind_sandbox());
}

#[test]
fn a_file_of_an_unknown_type_is_not_taken() {
    assert_eq!(InputFile::new("/home/me/a.txt", "text/plain"), None);
    assert_eq!(InputFile::new("/home/me/a", ""), None);
}

#[test]
fn files_outside_of_home_lie_behind_the_sandbox() {
    for (path, behind) in [
        ("/home", false),
        ("/home/", false),
        ("/home/me/x.gif", false),
        ("/homer/x.gif", true),
        ("/run/user/1000/doc/x.gif", true),
        ("home/x.gif", true),
        ("", true),
        ("/hom", true),
    ] {
        let f = InputFile::new(path, "image/gif").unwrap();
        assert_eq!(f.is_behind_sandbox(), behind, "{path:?}");
    }
}

#[test]
fn the_empty_file() {
    let f = InputFile::empty();
    assert_eq!(f.path(), "/invalid-path");
    assert_eq!(f.kind(), FileType::Unknown);
    assert_eq!(f.frames(), 1);
    assert!(f.is_behind_sandbox());
    assert_eq!(f.dimensions(), None);
    assert_eq!(InputFile::default(), f);
}

#[test]
fn frames_and_sizes_can_be_set() {
    let mut f = InputFile::new("/home/me/a.gif", "image/gif").unwrap();
    f.set_frames(12);
    assert_eq!(f.frames(), 12);
    f.set_width(640);
    assert_eq!(f.width(), Some(640));
    assert_eq!(f.dimensions(), None);
    assert_eq!(f.area(), None);
    f.set_height(480);
    assert_eq!(f.height(), Some(480));
    assert_eq!(f.dimensions(), Some((640, 480)));
    assert_eq!(f.area(), Some(307200));
    assert_eq!(f.path(), "/home/me/a.gif");
    assert_eq!(f.kind(), FileType::Gif);
}

#[test]
fn an_area_that_the_machine_cannot_hold_is_none() {
    let mut f = InputFile::empty();
    f.set_width(usize::MAX);
    f.set_height(2);
    assert_eq!(f.area(), None);
    f.set_height(1);
    assert_eq!(f.area(), Some(usize::MAX));
    f.set_height(0);
    assert_eq!(f.area(), Some(0));
}

#[test]
fn a_file_from_its_parts() {
    let inside = InputFile::from_parts("/srv/a.webp", "image/webp", true).unwrap();
    assert!(!inside.is_behind_sandbox());
    assert_eq!(inside.kind(), FileType::Webp);
    assert_eq!(inside.path(), "/srv/a.webp");
    assert_eq!(inside.frames(), 1);
    let outside = InputFile::from_parts("/home/me/a.webp", "image/webp", false).unwrap();
    assert!(outside.is_behind_sandbox());
    assert_eq!(InputFile::from_parts("/home/me/a", "audio/ogg", true), None);
}

#[test]
fn paths_are_compared_by_their_components() {
    for (path, behind) in [("//home/me/a.png", false), ("/home/../etc/a.png", false), ("/var/home/a.png", true)]
    {
        let f = InputFile::new(path, "image/png").unwrap();
        assert_eq!(f.is_behind_sandbox(), behind, "{path:?}");
        assert_eq!(
            f.is_behind_sandbox(),
            !std::path::Path::new(path).starts_with("/home")
        );
    }
}
