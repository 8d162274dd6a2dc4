use downloader_hub::fixers::{fix_file, normalize_extension, FixRequest, FixResult, FixStep, FixerChain};

fn request(path: &str) -> FixRequest {
    FixRequest { file_path: path.to_string() }
}

fn fixed(path: &str) -> Result<FixResult, String> {
    Ok(FixResult { file_path: path.to_string() })
}

fn failed(reason: &str) -> Result<FixResult, String> {
    Err(reason.to_string())
}

fn path_of(result: Result<FixResult, String>) -> Result<String, String> {
    result.map(|f| f.file_path)
}

#[test]
fn the_file_ends_up_where_the_last_fixer_put_it() {
    let result = fix_file(request("/tmp/f.bin"), vec![fixed("/tmp/f.bin"), fixed("/tmp/f.mp4")]);
    assert_eq!(path_of(result), Ok("/tmp/f.mp4".to_string()));
}

#[test]
fn a_chain_without_fixers_leaves_the_file_as_it_is() {
    assert_eq!(path_of(fix_file(request("/tmp/f"), Vec::new())), Ok("/tmp/f".to_string()));
}

#[test]
fn a_chain_of_fixers_that_change_nothing_changes_nothing() {
    let result = fix_file(request("/tmp/f"), vec![fixed("/tmp/f"), fixed("/tmp/f")]);
    assert_eq!(path_of(result), Ok("/tmp/f".to_string()));
}

#[test]
fn the_first_failure_ends_the_chain() {
    let result = fix_file(
        request("/tmp/f"),
        vec![fixed("/tmp/a"), failed("broken"), fixed("/tmp/b"), failed("later")],
    );
    assert_eq!(path_of(result), Err("broken".to_string()));
}

#[test]
fn fixers_are_run_one_after_the_other_on_what_the_last_one_left() {
    let mut chain = FixerChain::start(request("/tmp/f.bin"), vec![4, 2]);
    match chain.next() {
        FixStep::Run { fixer, file_path } => {
            assert_eq!(fixer, 4);
            assert_eq!(file_path, "/tmp/f.bin");
        }
        other => panic!("{other:?}"),
    }
    chain.record(fixed("/tmp/f.bin"));
    match chain.next() {
        FixStep::Run { fixer, file_path } => {
            assert_eq!(fixer, 2);
            assert_eq!(file_path, "/tmp/f.bin");
        }
        other => panic!("{other:?}"),
    }
    chain.record(fixed("/tmp/f.mp4"));
    match chain.next() {
        FixStep::Done { file_path } => assert_eq!(file_path, "/tmp/f.mp4"),
        other => panic!("{other:?}"),
    }
}

#[test]
fn a_failed_fixer_stops_the_chain_for_good() {
    let mut chain = FixerChain::start(request("/tmp/f"), vec![0, 1, 2]);
    chain.record(fixed("/tmp/g"));
    chain.record(failed("no ffmpeg"));
    match chain.next() {
        FixStep::Aborted { error } => assert_eq!(error, "no ffmpeg"),
        other => panic!("{other:?}"),
    }
    chain.record(fixed("/tmp/late"));
    chain.record(failed("later"));
    match chain.next() {
        FixStep::Aborted { error } => assert_eq!(error, "no ffmpeg"),
        other => panic!("{other:?}"),
    }
}

#[test]
fn a_result_that_no_fixer_was_asked_for_is_dropped() {
    let mut chain = FixerChain::start(request("/tmp/f"), vec![0]);
    chain.record(fixed("/tmp/g"));
    chain.record(fixed("/tmp/h"));
    chain.record(failed("late"));
    match chain.next() {
        FixStep::Done { file_path } => assert_eq!(file_path, "/tmp/g"),
        other => panic!("{other:?}"),
    }
}

#[test]
fn a_chain_without_fixers_is_done_at_once() {
    let chain = FixerChain::start(request("/tmp/f"), Vec::new());
    match chain.next() {
        FixStep::Done { file_path } => assert_eq!(file_path, "/tmp/f"),
        other => panic!("{other:?}"),
    }
}

#[test]
fn the_extension_is_set_to_the_one_that_the_content_calls_for() {
    assert_eq!(normalize_extension("/tmp/a.bin", Some("mp4")), "/tmp/a.mp4");
    assert_eq!(normalize_extension("/tmp/a", Some("mp4")), "/tmp/a.mp4");
    assert_eq!(normalize_extension("/tmp/a.b.bin", Some("png")), "/tmp/a.b.png");
    assert_eq!(normalize_extension("a.bin", Some("png")), "a.png");
    assert_eq!(normalize_extension("/tmp.d/a", Some("png")), "/tmp.d/a.png");
    assert_eq!(normalize_extension("/tmp/.hidden", Some("png")), "/tmp/.hidden.png");
    assert_eq!(normalize_extension("/tmp/a.", Some("png")), "/tmp/a.png");
    assert_eq!(normalize_extension("a/b.c/d.e", Some("png")), "a/b.c/d.png");
}

#[test]
fn a_file_with_the_right_extension_keeps_its_path() {
    assert_eq!(normalize_extension("/tmp/a.mp4", Some("mp4")), "/tmp/a.mp4");
    assert_eq!(normalize_extension("/tmp/a.bin", None), "/tmp/a.bin");
    assert_eq!(normalize_extension("/tmp/a", None), "/tmp/a");
    assert_eq!(normalize_extension("/tmp/a.MP4", Some("mp4")), "/tmp/a.mp4");
}

#[test]
fn a_path_that_names_no_file_is_left_alone() {
    assert_eq!(normalize_extension("", Some("png")), "");
    assert_eq!(normalize_extension("/tmp/", Some("png")), "/tmp/");
    assert_eq!(normalize_extension("/", Some("png")), "/");
}

#[test]
fn fixing_the_extension_twice_is_fixing_it_once() {
    for path in ["/tmp/a.bin", "/tmp/a", "/tmp/.hidden", "a.b.c", "/x.y/z", "", "/", "a.", "."] {
        for ext in ["mp4", "png", "bin"] {
            let once = normalize_extension(path, Some(ext));
            assert_eq!(normalize_extension(&once, Some(ext)), once, "{path:?} {ext:?}");
        }
    }
}
