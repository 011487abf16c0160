use switcheroo::color::Color;
use switcheroo::filetypes::FileType;
use switcheroo::magick::{
    generate_job, ConvertJob, GhostScriptConvertJob, JobFile, MagickArgument, MagickConvertJob,
    ResizeArgument, ResizeFilter, ResizeType,
};
use switcheroo::temp::{get_temp_file_path, join_path, Workspace};

fn texts(list: &[&str]) -> Vec<String> {
    list.iter().map(|s| s.to_string()).collect()
}

fn image_defaults() -> MagickConvertJob {
    MagickConvertJob {
        input_file: String::new(),
        output_file: String::new(),
        background: Color::rgb(255, 255, 255),
        quality: 92,
        coalesce: false,
        first_frame: false,
        filter: Some(ResizeFilter::Default),
        resize_arg: ResizeArgument::Percentage { width: 50, height: 50 },
        remove_alpha: false,
    }
}

fn document_defaults() -> GhostScriptConvertJob {
    GhostScriptConvertJob {
        input_file: String::new(),
        output_file: String::new(),
        page: 0,
        dpi: 300,
    }
}

#[test]
fn default_resize_keeps_the_size() {
    assert_eq!(
        ResizeArgument::default(),
        ResizeArgument::Percentage { width: 100, height: 100 }
    );
}

#[test]
fn resize_argument_in_per_cent() {
    let r = ResizeArgument::Percentage { width: 50, height: 75 };
    assert_eq!(r.get_argument(), texts(&["-resize", "50%x75%"]));
}

#[test]
fn resize_argument_in_pixels_forces_both_sides() {
    let r = ResizeArgument::ExactPixels { width: 640, height: 480 };
    assert_eq!(r.get_argument(), texts(&["-resize", "640x480!"]));
}

#[test]
fn resize_argument_of_zero_and_of_the_largest_number() {
    let r = ResizeArgument::ExactPixels { width: 0, height: usize::MAX };
    assert_eq!(
        r.get_argument(),
        vec!["-resize".to_string(), format!("0x{}!", usize::MAX)]
    );
}

#[test]
fn filter_arguments() {
    assert_eq!(ResizeFilter::Point.get_argument(), texts(&["-filter", "Point"]));
    assert_eq!(ResizeFilter::Default.get_argument(), Vec::<String>::new());
    assert_eq!(ResizeFilter::Point.as_display_string(), Some("Point"));
    assert_eq!(ResizeFilter::Default.as_display_string(), None);
}

#[test]
fn absent_argument_gives_nothing() {
    let none: Option<ResizeFilter> = None;
    assert_eq!(none.get_argument(), Vec::<String>::new());
    assert_eq!(
        Some(ResizeFilter::Point).get_argument(),
        texts(&["-filter", "Point"])
    );
}

#[test]
fn filters_and_resize_types_by_index() {
    assert_eq!(ResizeFilter::from_index(0), Some(ResizeFilter::Default));
    assert_eq!(ResizeFilter::from_index(1), Some(ResizeFilter::Point));
    assert_eq!(ResizeFilter::from_index(2), None);
    assert_eq!(ResizeType::from_index(0), Some(ResizeType::Percentage));
    assert_eq!(ResizeType::from_index(1), Some(ResizeType::ExactPixels));
    assert_eq!(ResizeType::from_index(7), None);
}

#[test]
fn resize_argument_from_its_parts() {
    assert_eq!(
        ResizeArgument::from_parts(ResizeType::Percentage, 20, 30),
        ResizeArgument::Percentage { width: 20, height: 30 }
    );
    assert_eq!(
        ResizeArgument::from_parts(ResizeType::ExactPixels, 20, 30),
        ResizeArgument::ExactPixels { width: 20, height: 30 }
    );
}

#[test]
fn document_step_counts_pages_from_one() {
    let job = GhostScriptConvertJob {
        input_file: "/in/doc.pdf".to_string(),
        output_file: "/ws/doc[2].png".to_string(),
        page: 2,
        dpi: 300,
    };
    let inv = job.get_command();
    assert_eq!(inv.program, "gs");
    assert_eq!(
        inv.args,
        texts(&[
            "-sDEVICE=png16m",
            "-dTextAlphaBits=4",
            "-dFirstPage=3",
            "-dLastPage=3",
            "-o",
            "/ws/doc[2].png",
            "-r300",
            "/in/doc.pdf",
        ])
    );
}

#[test]
fn document_step_on_the_last_page_the_machine_can_count() {
    let job = GhostScriptConvertJob {
        input_file: "a".to_string(),
        output_file: "b".to_string(),
        page: usize::MAX,
        dpi: 0,
    };
    let inv = job.get_command();
    let page = (usize::MAX as u128 + 1).to_string();
    assert_eq!(inv.args[2], format!("-dFirstPage={page}"));
    assert_eq!(inv.args[3], format!("-dLastPage={page}"));
    assert_eq!(inv.args[6], "-r0");
}

#[test]
fn flatten_step_on_a_raster_image() {
    let job = MagickConvertJob {
        input_file: "/in/a.png[0]".to_string(),
        output_file: "/ws/a.jpg".to_string(),
        first_frame: true,
        remove_alpha: true,
        ..image_defaults()
    };
    let inv = job.get_command();
    assert_eq!(inv.program, "magick");
    assert_eq!(
        inv.args,
        texts(&[
            "-background",
            "#ffffffff",
            "/in/a.png[0]",
            "-flatten",
            "-alpha",
            "off",
            "-quality",
            "92",
            "-resize",
            "50%x50%",
            "/ws/a.jpg",
        ])
    );
}

#[test]
fn flatten_step_keeps_alpha_unless_told() {
    let job = MagickConvertJob {
        input_file: "a.png[0]".to_string(),
        output_file: "a.webp".to_string(),
        first_frame: true,
        remove_alpha: false,
        filter: Some(ResizeFilter::Point),
        ..image_defaults()
    };
    assert_eq!(
        job.get_command().args,
        texts(&[
            "-background",
            "#ffffffff",
            "a.png[0]",
            "-flatten",
            "-quality",
            "92",
            "-filter",
            "Point",
            "-resize",
            "50%x50%",
            "a.webp",
        ])
    );
}

#[test]
fn vector_image_in_per_cent_becomes_a_density() {
    let job = MagickConvertJob {
        input_file: "logo.svg[0]".to_string(),
        output_file: "logo.png".to_string(),
        first_frame: true,
        resize_arg: ResizeArgument::Percentage { width: 200, height: 7 },
        filter: None,
        ..image_defaults()
    };
    assert_eq!(
        job.get_command().args,
        texts(&[
            "-density",
            "192",
            "-background",
            "#ffffffff",
            "logo.svg[0]",
            "-flatten",
            "-quality",
            "92",
            "logo.png",
        ])
    );
}

#[test]
fn density_is_rounded_down() {
    for (percent, density) in [(100, "96"), (150, "144"), (33, "31"), (1, "0"), (0, "0"), (25, "24")]
    {
        let job = MagickConvertJob {
            input_file: "x.svg[0]".to_string(),
            output_file: "x.png".to_string(),
            first_frame: true,
            resize_arg: ResizeArgument::Percentage { width: percent, height: 100 },
            ..image_defaults()
        };
        let args = job.get_command().args;
        assert_eq!(args[0], "-density");
        assert_eq!(args[1], density);
    }
}

#[test]
fn density_of_the_largest_percentage() {
    let job = MagickConvertJob {
        input_file: "x.svg[0]".to_string(),
        output_file: "x.png".to_string(),
        first_frame: true,
        resize_arg: ResizeArgument::Percentage { width: usize::MAX, height: 100 },
        ..image_defaults()
    };
    let expected = (usize::MAX as u128 * 96 / 100).to_string();
    assert_eq!(job.get_command().args[1], expected);
}

#[test]
fn vector_image_in_pixels_becomes_a_size() {
    let job = MagickConvertJob {
        input_file: "logo.svg[0]".to_string(),
        output_file: "logo.png".to_string(),
        first_frame: true,
        resize_arg: ResizeArgument::ExactPixels { width: 640, height: 480 },
        ..image_defaults()
    };
    let args = job.get_command().args;
    assert_eq!(args[0], "-size");
    assert_eq!(args[1], "640x480");
    assert!(!args.contains(&"-resize".to_string()));
}

#[test]
fn only_the_first_frame_of_a_vector_image_counts_as_one() {
    let job = MagickConvertJob {
        input_file: "logo.svg".to_string(),
        output_file: "logo.png".to_string(),
        first_frame: true,
        ..image_defaults()
    };
    let args = job.get_command().args;
    assert_eq!(args[0], "-background");
    assert!(args.contains(&"-resize".to_string()));
}

#[test]
fn animation_step_keeps_the_frames() {
    let job = MagickConvertJob {
        input_file: "a.gif".to_string(),
        output_file: "a.webp".to_string(),
        first_frame: false,
        quality: 80,
        background: Color::rgba(1, 2, 3, 4),
        filter: Some(ResizeFilter::Point),
        remove_alpha: true,
        ..image_defaults()
    };
    assert_eq!(
        job.get_command().args,
        texts(&[
            "a.gif",
            "-coalesce",
            "-fill",
            "#01020304",
            "-opaque",
            "none",
            "-quality",
            "80",
            "-filter",
            "Point",
            "-resize",
            "50%x50%",
            "a.webp",
        ])
    );
}

#[test]
fn quality_passes_through_unchanged() {
    for q in [0usize, 1, 50, 100] {
        let job = MagickConvertJob {
            input_file: "a.png[0]".to_string(),
            output_file: "a.png".to_string(),
            first_frame: true,
            quality: q,
            ..image_defaults()
        };
        let args = job.get_command().args;
        let at = args.iter().position(|a| a == "-quality").unwrap();
        assert_eq!(args[at + 1], q.to_string());
    }
}

#[test]
fn a_step_gives_the_command_of_its_kind() {
    let g = GhostScriptConvertJob {
        input_file: "a.pdf".to_string(),
        output_file: "a.png".to_string(),
        page: 0,
        dpi: 72,
    };
    let m = MagickConvertJob {
        input_file: "a.png[0]".to_string(),
        output_file: "a.jpg".to_string(),
        first_frame: true,
        ..image_defaults()
    };
    assert_eq!(ConvertJob::GhostScript(g.clone()).get_command(), g.get_command());
    assert_eq!(ConvertJob::Magick(m.clone()).get_command(), m.get_command());
}

#[test]
fn job_files_are_numbered_from_one() {
    let mut ws = Workspace::new("/ws".to_string());
    let a = JobFile::new(&mut ws, FileType::Png, None);
    let b = JobFile::new(&mut ws, FileType::Jpg, Some("photo.jpg".to_string()));
    assert_eq!(a.id, 1);
    assert_eq!(b.id, 2);
    assert_eq!(ws.issued, 2);
    assert_eq!(a.as_filename(), "TEMPORARY_SWITCHEROO_1.png");
    assert_eq!(b.as_filename(), "photo.jpg");
    assert_eq!(b.file_extension, FileType::Jpg);
}

#[test]
fn pasted_images_are_png() {
    let mut ws = Workspace::new("/ws".to_string());
    let f = JobFile::from_clipboard(&mut ws, "Pasted Image");
    assert_eq!(f.id, 1);
    assert_eq!(f.file_extension, FileType::Png);
    assert_eq!(f.as_filename(), "Pasted Image.png");
}

#[test]
fn paths_in_the_workspace() {
    assert_eq!(join_path("/tmp/ws", "a.png"), "/tmp/ws/a.png");
    assert_eq!(join_path("/tmp/ws/", "a.png"), "/tmp/ws/a.png");
    assert_eq!(join_path("", "a.png"), "a.png");
    assert_eq!(join_path("/tmp/ws", "/abs/a.png"), "/abs/a.png");
    assert_eq!(join_path("/tmp/ws", ""), "/tmp/ws/");
    for (dir, name) in [("/tmp/ws", "a.png"), ("/tmp/ws/", "b"), ("", "c"), ("/x", "/y/z"), ("/x", "")]
    {
        let std_says = std::path::Path::new(dir).join(name);
        assert_eq!(join_path(dir, name), std_says.to_str().unwrap());
    }
    let mut ws = Workspace::new("/tmp/ws".to_string());
    let f = JobFile::new(&mut ws, FileType::Png, None);
    assert_eq!(get_temp_file_path(&ws, f), "/tmp/ws/TEMPORARY_SWITCHEROO_1.png");
}

#[test]
fn a_page_becomes_a_png_in_one_step() {
    let mut ws = Workspace::new("/ws".to_string());
    let jobs = generate_job(
        "/in/doc.pdf",
        3,
        &FileType::Pdf,
        "/ws/doc[3].png",
        &FileType::Png,
        &mut ws,
        (&image_defaults(), &document_defaults()),
    );
    assert_eq!(jobs.len(), 1);
    assert_eq!(ws.issued, 0);
    match &jobs[0] {
        ConvertJob::GhostScript(g) => {
            assert_eq!(g.input_file, "/in/doc.pdf");
            assert_eq!(g.output_file, "/ws/doc[3].png");
            assert_eq!(g.page, 3);
            assert_eq!(g.dpi, 300);
        }
        ConvertJob::Magick(_) => panic!("a page is rendered by the document renderer"),
    }
}

#[test]
fn a_page_becomes_anything_else_in_two_steps() {
    let mut ws = Workspace::new("/ws".to_string());
    let jobs = generate_job(
        "/in/doc.pdf",
        1,
        &FileType::Pdf,
        "/ws/doc[1].jpg",
        &FileType::Jpg,
        &mut ws,
        (&image_defaults(), &document_defaults()),
    );
    assert_eq!(jobs.len(), 2);
    assert_eq!(ws.issued, 1);
    match &jobs[0] {
        ConvertJob::GhostScript(g) => {
            assert_eq!(g.input_file, "/in/doc.pdf");
            assert_eq!(g.output_file, "/ws/TEMPORARY_SWITCHEROO_1.png");
            assert_eq!(g.page, 1);
            assert_eq!(g.dpi, 300);
        }
        ConvertJob::Magick(_) => panic!("the first step renders the page"),
    }
    match &jobs[1] {
        ConvertJob::Magick(m) => {
            assert_eq!(m.input_file, "/ws/TEMPORARY_SWITCHEROO_1.png");
            assert_eq!(m.output_file, "/ws/doc[1].jpg");
            assert!(m.first_frame);
            assert!(m.remove_alpha);
            assert_eq!(m.resize_arg, ResizeArgument::Percentage { width: 50, height: 50 });
            assert_eq!(m.quality, 92);
            assert_eq!(m.background, Color::rgb(255, 255, 255));
            assert_eq!(m.filter, Some(ResizeFilter::Default));
        }
        ConvertJob::GhostScript(_) => panic!("the second step converts the rendered page"),
    }
}

#[test]
fn animations_are_kept_where_both_formats_hold_them() {
    let mut ws = Workspace::new("/ws".to_string());
    let jobs = generate_job(
        "/in/a.gif",
        0,
        &FileType::Gif,
        "/ws/a.webp",
        &FileType::Webp,
        &mut ws,
        (&image_defaults(), &document_defaults()),
    );
    assert_eq!(jobs.len(), 1);
    match &jobs[0] {
        ConvertJob::Magick(m) => {
            assert!(!m.first_frame);
            assert!(m.coalesce);
            assert_eq!(m.input_file, "/in/a.gif");
            assert_eq!(m.output_file, "/ws/a.webp");
            assert_eq!(m.resize_arg, ResizeArgument::Percentage { width: 50, height: 50 });
        }
        ConvertJob::GhostScript(_) => panic!("an image is converted by the image converter"),
    }
}

#[test]
fn alpha_is_dropped_only_where_the_target_cannot_hold_it() {
    let cases = [
        (FileType::Png, FileType::Jpg, true),
        (FileType::Png, FileType::Webp, false),
        (FileType::Jpg, FileType::Png, false),
        (FileType::Jpg, FileType::Bmp, false),
        (FileType::Gif, FileType::Jpg, true),
        (FileType::Svg, FileType::Bmp, true),
    ];
    for (from, to, dropped) in cases {
        let mut ws = Workspace::new("/ws".to_string());
        let jobs = generate_job(
            "in[0]",
            0,
            &from,
            "out",
            &to,
            &mut ws,
            (&image_defaults(), &document_defaults()),
        );
        assert_eq!(jobs.len(), 1);
        match &jobs[0] {
            ConvertJob::Magick(m) => {
                assert!(m.first_frame);
                assert!(!m.coalesce);
                assert_eq!(m.remove_alpha, dropped);
            }
            ConvertJob::GhostScript(_) => panic!("an image is converted by the image converter"),
        }
    }
}
