use switcheroo::color::Color;
use switcheroo::coordinator::{Coordinator, RunEvent, RunState};
use switcheroo::engine::{ChainWorker, WorkerAction};
use switcheroo::filetypes::{CompressionType, FileType, OutputType};
use switcheroo::finalize::{move_output, output_shape, save_format_for, Delivery, OutputShape};
use switcheroo::input_file::InputFile;
use switcheroo::magick::{ConvertJob, ResizeArgument, ResizeFilter};
use switcheroo::outcome::{gs_missing, JobOutcome, ProcessExit, RunResult};
use switcheroo::plan::{plan_run, ConversionOptions};
use switcheroo::temp::Workspace;

fn file(path: &str, mime: &str, frames: usize) -> InputFile {
    let mut f = InputFile::new(path, mime).unwrap();
    f.set_frames(frames);
    f
}

fn options() -> ConversionOptions {
    ConversionOptions::new(
        ResizeArgument::default(),
        Some(ResizeFilter::Default),
        Color::rgb(255, 255, 255),
        92,
        300,
        false,
    )
    .unwrap()
}

fn ended_well() -> Option<ProcessExit> {
    Some(ProcessExit { success: true, stdout: String::new(), stderr: String::new() })
}

#[test]
fn three_png_files_become_an_archive_of_jpeg_files() {
    let files = vec![
        file("/home/me/one.png", "image/png", 1),
        file("/home/me/two.png", "image/png", 1),
        file("/home/me/three.png", "image/png", 1),
    ];
    let save_format = save_format_for(&files, FileType::Jpg, false, CompressionType::Zip);
    assert_eq!(save_format, OutputType::Compression(CompressionType::Zip));

    let mut ws = Workspace::new("/tmp/ws".to_string());
    let plan = plan_run(&files, FileType::Jpg, &options(), &mut ws).unwrap();
    assert_eq!(plan.total, 3);
    assert_eq!(plan.chains.len(), 3);
    for chain in &plan.chains {
        assert_eq!(chain.len(), 1);
        match &chain[0] {
            ConvertJob::Magick(m) => {
                assert!(m.first_frame);
                assert!(m.remove_alpha);
                assert!(m.get_command().args.contains(&"-flatten".to_string()));
            }
            ConvertJob::GhostScript(_) => panic!("an image is not rendered as a document"),
        }
    }
    let produced = vec![
        "/tmp/ws/one.jpg".to_string(),
        "/tmp/ws/three.jpg".to_string(),
        "/tmp/ws/two.jpg".to_string(),
    ];
    assert_eq!(plan.output_files, produced);
    assert_eq!(output_shape(save_format, plan.output_files.len()), OutputShape::Archive);

    let mut c = Coordinator::new();
    assert!(!c.start(plan.total, "/home/me/images.zip"));
    let mut finalize = false;
    for (handle, chain) in plan.chains.iter().enumerate() {
        let mut w = ChainWorker::new(chain.len());
        assert_eq!(w.next_action(c.is_cancelled()), WorkerAction::Spawn(0));
        c.on_event(RunEvent::Spawned(handle));
        let report = w.exited(ended_well(), c.is_cancelled());
        assert_eq!(report.outcome, Some(JobOutcome::Success));
        finalize = c.on_event(RunEvent::Outcome(report.outcome.unwrap())).finalize;
        assert_eq!(w.next_action(c.is_cancelled()), WorkerAction::Finish);
    }
    assert!(finalize);
    assert_eq!(c.progress(), (3, 3));

    let delivery = move_output(
        save_format,
        "/home/me/images.zip",
        &plan.output_files,
        c.is_cancelled(),
        true,
    );
    match delivery {
        Delivery::Run(inv) => {
            assert_eq!(inv.program, "zip");
            assert_eq!(inv.args[0], "-jFSm0");
            assert_eq!(inv.args[1], "/home/me/images.zip");
            assert_eq!(inv.args[2..].to_vec(), produced);
        }
        other => panic!("{other:?}"),
    }
    c.on_event(RunEvent::Spawned(99));
    let end = c.on_event(RunEvent::Outcome(JobOutcome::Success));
    assert_eq!(end.result, Some(RunResult::Success("/home/me/images.zip".to_string())));
    assert!(end.cleanup);
    assert_eq!(c.state(), RunState::Succeeded);
}

#[test]
fn a_document_of_four_pages_becomes_one_document() {
    let files = vec![file("/home/me/book.pdf", "application/pdf", 4)];
    let save_format = save_format_for(&files, FileType::Pdf, true, CompressionType::Zip);
    assert_eq!(save_format, OutputType::File(FileType::Pdf));

    let mut ws = Workspace::new("/tmp/ws".to_string());
    let plan = plan_run(&files, FileType::Pdf, &options(), &mut ws).unwrap();
    assert_eq!(plan.chains.len(), 4);
    let mut rendered = 0;
    for (page, chain) in plan.chains.iter().enumerate() {
        for step in chain {
            if let ConvertJob::GhostScript(g) = step {
                assert_eq!(g.page, page);
                assert_eq!(g.input_file, "/home/me/book.pdf");
                assert_eq!(g.dpi, 300);
                rendered += 1;
            }
        }
        match chain.last().unwrap() {
            ConvertJob::Magick(m) => assert_eq!(m.output_file, plan.output_files[page]),
            ConvertJob::GhostScript(g) => assert_eq!(g.output_file, plan.output_files[page]),
        }
    }
    assert_eq!(rendered, 4);
    let pages = vec![
        "/tmp/ws/book[0].pdf".to_string(),
        "/tmp/ws/book[1].pdf".to_string(),
        "/tmp/ws/book[2].pdf".to_string(),
        "/tmp/ws/book[3].pdf".to_string(),
    ];
    assert_eq!(plan.output_files, pages);
    assert_eq!(
        output_shape(save_format, plan.output_files.len()),
        OutputShape::MergedDocument
    );
    match move_output(save_format, "/home/me/images.pdf", &plan.output_files, false, true) {
        Delivery::Run(inv) => {
            assert_eq!(inv.program, "gs");
            assert_eq!(
                inv.args[..4].to_vec(),
                vec![
                    "-dNOPAUSE".to_string(),
                    "-sDEVICE=pdfwrite".to_string(),
                    "-sOUTPUTFILE=/home/me/images.pdf".to_string(),
                    "-dBATCH".to_string(),
                ]
            );
            assert_eq!(inv.args[4..].to_vec(), pages);
        }
        other => panic!("{other:?}"),
    }
}

#[test]
fn a_missing_renderer_fails_the_run_before_anything_runs() {
    let files = vec![file("/home/me/book.pdf", "application/pdf", 2)];
    let mut ws = Workspace::new("/tmp/ws".to_string());
    let plan = plan_run(&files, FileType::Png, &options(), &mut ws).unwrap();
    let mut c = Coordinator::new();
    c.start(plan.total, "/home/me/images.zip");

    let mut first = ChainWorker::new(plan.chains[0].len());
    assert_eq!(first.next_action(c.is_cancelled()), WorkerAction::Spawn(0));
    let command = plan.chains[0][0].get_command();
    assert_eq!(command.program, "gs");
    let report = first.spawn_failed(&command.program, true, "No such file or directory");
    assert!(report.cancel);
    let reaction = c.on_event(RunEvent::Outcome(report.outcome.unwrap()));
    assert!(reaction.kill.is_empty());
    assert!(reaction.cleanup);
    assert_eq!(reaction.result, Some(RunResult::Failure(gs_missing(), true)));
    assert_eq!(c.state(), RunState::Failed);
    assert_eq!(c.progress(), (0, 2));
    assert_eq!(first.next_action(c.is_cancelled()), WorkerAction::Finish);

    let mut second = ChainWorker::new(plan.chains[1].len());
    assert_eq!(second.next_action(c.is_cancelled()), WorkerAction::Finish);
}

#[test]
fn after_cancellation_no_worker_starts_anything() {
    let files = vec![
        file("/home/me/a.png", "image/png", 1),
        file("/home/me/b.pdf", "application/pdf", 3),
    ];
    let mut ws = Workspace::new("/tmp/ws".to_string());
    let plan = plan_run(&files, FileType::Jpg, &options(), &mut ws).unwrap();
    assert_eq!(plan.total, 7);
    let mut c = Coordinator::new();
    c.start(plan.total, "/home/me/images.zip");
    let mut workers: Vec<ChainWorker> =
        plan.chains.iter().map(|chain| ChainWorker::new(chain.len())).collect();
    assert_eq!(workers[0].next_action(c.is_cancelled()), WorkerAction::Spawn(0));
    c.on_event(RunEvent::Spawned(0));
    assert_eq!(workers[1].next_action(c.is_cancelled()), WorkerAction::Spawn(0));
    c.on_event(RunEvent::Spawned(1));

    let reaction = c.on_event(RunEvent::Cancel);
    assert_eq!(reaction.kill, vec![0, 1]);
    assert_eq!(reaction.result, None);
    assert_eq!(c.state(), RunState::Cancelled);

    for w in workers.iter_mut() {
        let report = w.exited(None, c.is_cancelled());
        assert_eq!(report.outcome, None);
        assert_eq!(w.next_action(c.is_cancelled()), WorkerAction::Finish);
    }
    assert_eq!(c.progress(), (0, 7));
    assert_eq!(
        move_output(
            OutputType::Compression(CompressionType::Zip),
            "/home/me/images.zip",
            &plan.output_files,
            c.is_cancelled(),
            true
        ),
        Delivery::Abandon
    );
}
