use downloader_hub::grouping::{
    chunk, chunk_group, files_to_input_media_groups, infos_from_files, media_kind, select_group,
    ChunkGroup, FileInfo, FileProbe, InputMedia, MediaKind, MAX_GROUP_ITEMS, MAX_PAYLOAD_SIZE_BYTES,
};

const MB: u64 = 1_000_000;

fn file(name: &str, size: u64) -> FileInfo {
    FileInfo { path: name.to_string(), size, mime: None }
}

fn typed(name: &str, size: u64, mime: &str) -> FileInfo {
    FileInfo { path: name.to_string(), size, mime: Some(mime.to_string()) }
}

fn probe(name: &str, size: Option<u64>, mime: Option<&str>) -> FileProbe {
    FileProbe { path: name.to_string(), mime: mime.map(|m| m.to_string()), size }
}

fn sizes(batches: &[Vec<FileInfo>]) -> Vec<Vec<u64>> {
    batches.iter().map(|b| b.iter().map(|f| f.size).collect()).collect()
}

fn names(batches: &[Vec<FileInfo>]) -> Vec<Vec<String>> {
    batches.iter().map(|b| b.iter().map(|f| f.path.clone()).collect()).collect()
}

fn media_names(batches: &[Vec<InputMedia>]) -> Vec<Vec<(MediaKind, String)>> {
    batches.iter().map(|b| b.iter().map(|m| (m.kind, m.path.clone())).collect()).collect()
}

#[test]
fn the_ceiling_is_fifty_million_bytes_and_a_batch_holds_ten() {
    assert_eq!(MAX_PAYLOAD_SIZE_BYTES, 50_000_000);
    assert_eq!(MAX_GROUP_ITEMS, 10);
}

#[test]
fn chunk_starts_a_new_batch_when_the_ceiling_would_be_passed() {
    let files = vec![file("a", 10 * MB), file("b", 45 * MB), file("c", 5 * MB)];
    let (batches, failed) = chunk(files, 50 * MB);
    assert_eq!(sizes(&batches), vec![vec![10 * MB], vec![45 * MB, 5 * MB]]);
    assert_eq!(names(&batches), vec![vec!["a".to_string()], vec!["b".to_string(), "c".to_string()]]);
    assert!(failed.is_empty());
}

#[test]
fn chunk_reports_a_file_that_is_too_large_by_itself() {
    let (batches, failed) = chunk(vec![file("big", 60 * MB)], 50 * MB);
    assert!(batches.is_empty());
    assert_eq!(
        failed,
        vec![("big".to_string(), "file is too large: 60000000 > 50000000".to_string())]
    );
}

#[test]
fn chunk_never_puts_more_than_ten_files_in_a_batch() {
    let files: Vec<FileInfo> = (0..25).map(|i| file(&format!("f{i}"), 1)).collect();
    let (batches, failed) = chunk(files, 50 * MB);
    assert!(failed.is_empty());
    let lens: Vec<usize> = batches.iter().map(|b| b.len()).collect();
    assert_eq!(lens, vec![10, 10, 5]);
    let flat: Vec<String> = batches.iter().flatten().map(|f| f.path.clone()).collect();
    let expected: Vec<String> = (0..25).map(|i| format!("f{i}")).collect();
    assert_eq!(flat, expected);
}

#[test]
fn chunk_of_exactly_ten_files_is_one_batch() {
    let files: Vec<FileInfo> = (0..10).map(|i| file(&format!("f{i}"), 1)).collect();
    let (batches, _) = chunk(files, 50 * MB);
    assert_eq!(batches.len(), 1);
    assert_eq!(batches[0].len(), 10);
}

#[test]
fn chunk_of_nothing_is_nothing() {
    let (batches, failed) = chunk(Vec::new(), 50 * MB);
    assert!(batches.is_empty());
    assert!(failed.is_empty());
}

#[test]
fn chunk_takes_a_file_that_is_exactly_as_large_as_the_ceiling() {
    let (batches, failed) = chunk(vec![file("a", 50 * MB), file("b", 1)], 50 * MB);
    assert_eq!(sizes(&batches), vec![vec![50 * MB], vec![1]]);
    assert!(failed.is_empty());
}

#[test]
fn chunk_fills_a_batch_up_to_the_ceiling_exactly() {
    let (batches, _) = chunk(vec![file("a", 20), file("b", 30), file("c", 1)], 50);
    assert_eq!(sizes(&batches), vec![vec![20, 30], vec![1]]);
}

#[test]
fn chunk_keeps_packing_around_an_oversized_file() {
    let files = vec![file("a", 10), file("huge", 51), file("b", 40), file("c", 1)];
    let (batches, failed) = chunk(files, 50);
    assert_eq!(names(&batches), vec![vec!["a".to_string(), "b".to_string()], vec!["c".to_string()]]);
    assert_eq!(failed, vec![("huge".to_string(), "file is too large: 51 > 50".to_string())]);
}

#[test]
fn chunk_does_not_overflow_near_the_largest_sizes() {
    let files = vec![file("a", u64::MAX), file("b", u64::MAX), file("c", 0)];
    let (batches, failed) = chunk(files, u64::MAX);
    assert_eq!(sizes(&batches), vec![vec![u64::MAX], vec![u64::MAX, 0]]);
    assert!(failed.is_empty());
}

#[test]
fn chunk_with_a_ceiling_of_zero_takes_only_empty_files() {
    let (batches, failed) = chunk(vec![file("a", 0), file("b", 1), file("c", 0)], 0);
    assert_eq!(names(&batches), vec![vec!["a".to_string(), "c".to_string()]]);
    assert_eq!(failed, vec![("b".to_string(), "file is too large: 1 > 0".to_string())]);
}

#[test]
fn gif_and_png_are_sent_as_documents() {
    assert_eq!(media_kind(&Some("image/gif".to_string())), MediaKind::Document);
    assert_eq!(media_kind(&Some("image/png".to_string())), MediaKind::Document);
    assert_eq!(media_kind(&Some("image/jpeg".to_string())), MediaKind::Photo);
}

#[test]
fn media_kind_goes_by_the_top_level_type() {
    assert_eq!(media_kind(&Some("audio/mpeg".to_string())), MediaKind::Audio);
    assert_eq!(media_kind(&Some("video/mp4".to_string())), MediaKind::Video);
    assert_eq!(media_kind(&Some("VIDEO/mp4".to_string())), MediaKind::Video);
    assert_eq!(media_kind(&Some("Audio/ogg".to_string())), MediaKind::Audio);
    assert_eq!(media_kind(&Some("application/pdf".to_string())), MediaKind::Document);
    assert_eq!(media_kind(&Some("audio".to_string())), MediaKind::Audio);
    assert_eq!(media_kind(&Some("audiox/mpeg".to_string())), MediaKind::Document);
    assert_eq!(media_kind(&Some("".to_string())), MediaKind::Document);
    assert_eq!(media_kind(&None), MediaKind::Document);
}

#[test]
fn gif_and_png_are_matched_exactly() {
    assert_eq!(media_kind(&Some("IMAGE/GIF".to_string())), MediaKind::Photo);
    assert_eq!(media_kind(&Some("image/png+xml".to_string())), MediaKind::Photo);
}

#[test]
fn photos_and_videos_share_a_bucket() {
    assert_eq!(chunk_group(MediaKind::Audio), ChunkGroup::Audio);
    assert_eq!(chunk_group(MediaKind::Document), ChunkGroup::Document);
    assert_eq!(chunk_group(MediaKind::Photo), ChunkGroup::Other);
    assert_eq!(chunk_group(MediaKind::Video), ChunkGroup::Other);
}

#[test]
fn select_group_keeps_the_order_of_the_files() {
    let infos = vec![
        typed("a.mp3", 1, "audio/mpeg"),
        typed("b.jpg", 1, "image/jpeg"),
        typed("c.ogg", 1, "audio/ogg"),
        typed("d.mp4", 1, "video/mp4"),
        typed("e.png", 1, "image/png"),
    ];
    let audio: Vec<String> =
        select_group(&infos, ChunkGroup::Audio).into_iter().map(|f| f.path).collect();
    let other: Vec<String> =
        select_group(&infos, ChunkGroup::Other).into_iter().map(|f| f.path).collect();
    let documents: Vec<String> =
        select_group(&infos, ChunkGroup::Document).into_iter().map(|f| f.path).collect();
    assert_eq!(audio, vec!["a.mp3", "c.ogg"]);
    assert_eq!(other, vec!["b.jpg", "d.mp4"]);
    assert_eq!(documents, vec!["e.png"]);
}

#[test]
fn a_file_with_unreadable_metadata_goes_to_the_failures() {
    let probes = vec![
        probe("a", Some(3), Some("video/mp4")),
        probe("gone", None, Some("video/mp4")),
        probe("b", Some(4), None),
    ];
    let (infos, failed) = infos_from_files(probes);
    let listed: Vec<(String, u64, Option<String>)> =
        infos.into_iter().map(|f| (f.path, f.size, f.mime)).collect();
    assert_eq!(
        listed,
        vec![
            ("a".to_string(), 3, Some("video/mp4".to_string())),
            ("b".to_string(), 4, None),
        ]
    );
    assert_eq!(
        failed,
        vec![("gone".to_string(), "failed to get metadata for file".to_string())]
    );
}

#[test]
fn files_are_packed_bucket_by_bucket() {
    let probes = vec![
        probe("video", Some(30 * MB), Some("video/mp4")),
        probe("song", Some(10 * MB), Some("audio/mpeg")),
        probe("photo", Some(30 * MB), Some("image/jpeg")),
        probe("paper", Some(1), Some("application/pdf")),
        probe("gone", None, None),
        probe("anim", Some(2), Some("image/gif")),
        probe("huge", Some(51 * MB), Some("audio/flac")),
        probe("voice", Some(1), Some("audio/ogg")),
    ];
    let (batches, failed) = files_to_input_media_groups(probes, 50 * MB);
    assert_eq!(
        media_names(&batches),
        vec![
            vec![(MediaKind::Document, "paper".to_string()), (MediaKind::Document, "anim".to_string())],
            vec![(MediaKind::Audio, "song".to_string()), (MediaKind::Audio, "voice".to_string())],
            vec![(MediaKind::Video, "video".to_string())],
            vec![(MediaKind::Photo, "photo".to_string())],
        ]
    );
    assert_eq!(
        failed,
        vec![
            ("gone".to_string(), "failed to get metadata for file".to_string()),
            ("huge".to_string(), "file is too large: 51000000 > 50000000".to_string()),
        ]
    );
}

#[test]
fn grouping_of_nothing_is_nothing() {
    let (batches, failed) = files_to_input_media_groups(Vec::new(), 50 * MB);
    assert!(batches.is_empty());
    assert!(failed.is_empty());
}

#[test]
fn grouped_batches_hold_between_one_and_ten_files() {
    let probes: Vec<FileProbe> =
        (0..37).map(|i| probe(&format!("f{i}"), Some(i), Some("video/mp4"))).collect();
    let (batches, failed) = files_to_input_media_groups(probes, 50 * MB);
    assert!(failed.is_empty());
    assert!(batches.iter().all(|b| !b.is_empty() && b.len() <= 10));
    assert_eq!(batches.iter().map(|b| b.len()).sum::<usize>(), 37);
}

#[test]
fn a_copy_of_a_file_record_is_the_same_record() {
    let f = typed("a", 7, "audio/mpeg");
    let g = f.duplicate();
    assert_eq!((g.path, g.size, g.mime), (f.path, f.size, f.mime));
}
