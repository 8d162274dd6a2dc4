use downloader_hub::pipeline::{select, Selection};
use downloader_hub::registry::{
    all_actions, all_downloaders, available_actions, available_downloaders, copy_of, first_claim,
    next_claim, select_ready, ActionKind, DownloaderKind, ProbeOutcome, Registry,
};

use ProbeOutcome::{Failed, NotReady, Ready};

#[test]
fn all_actions_are_listed_in_declaration_order() {
    assert_eq!(
        all_actions(),
        vec![
            ActionKind::RenameToId,
            ActionKind::SplitScenes,
            ActionKind::CompactMedia,
            ActionKind::OcrImage,
            ActionKind::RemoveBackground,
        ]
    );
}

#[test]
fn all_downloaders_are_listed_in_declaration_order() {
    assert_eq!(
        all_downloaders(),
        vec![DownloaderKind::YtDlp, DownloaderKind::Generic, DownloaderKind::Music]
    );
}

#[test]
fn available_actions_are_those_whose_probe_passed() {
    let probes = vec![Ready, NotReady, Ready, Failed, Ready];
    assert_eq!(
        available_actions(&probes),
        vec![ActionKind::RenameToId, ActionKind::CompactMedia, ActionKind::RemoveBackground]
    );
    assert_eq!(available_actions(&vec![Ready; 5]), all_actions());
    assert_eq!(available_actions(&vec![NotReady; 5]), Vec::<ActionKind>::new());
}

#[test]
fn a_probe_that_fails_counts_as_unavailable() {
    assert_eq!(
        available_downloaders(&vec![Failed, Ready, Failed]),
        vec![DownloaderKind::Generic]
    );
}

#[test]
fn a_provider_without_a_probe_is_unavailable() {
    assert_eq!(available_downloaders(&vec![Ready]), vec![DownloaderKind::YtDlp]);
    assert_eq!(available_downloaders(&Vec::new()), Vec::<DownloaderKind>::new());
    assert_eq!(select_ready(&vec![1u8, 2], &vec![Ready, Ready, Ready]), vec![1, 2]);
}

#[test]
fn available_is_part_of_all_and_in_its_order() {
    let all: Vec<u32> = (0..12).collect();
    for mask in 0u32..(1 << 12) {
        let probes: Vec<ProbeOutcome> =
            (0..12).map(|i| if mask >> i & 1 == 1 { Ready } else { NotReady }).collect();
        let ready = select_ready(&all, &probes);
        let expected: Vec<u32> = (0..12).filter(|i| mask >> i & 1 == 1).collect();
        assert_eq!(ready, expected);
    }
}

#[test]
fn the_first_round_of_probing_decides_for_good() {
    let mut registry = Registry::new(vec!['a', 'b', 'c']);
    assert_eq!(registry.all(), &vec!['a', 'b', 'c']);
    assert!(!registry.is_probed());
    let first = registry.available(&vec![Ready, NotReady, Ready]);
    assert_eq!(first, vec!['a', 'c']);
    assert!(registry.is_probed());
    let second = registry.available(&vec![NotReady, Ready, NotReady]);
    assert_eq!(second, first);
    let third = registry.available(&Vec::new());
    assert_eq!(third, first);
    assert_eq!(registry.all(), &vec!['a', 'b', 'c']);
}

#[test]
fn copy_of_copies() {
    assert_eq!(copy_of(&vec![3, 1, 2]), vec![3, 1, 2]);
}

#[test]
fn the_first_provider_that_claims_the_input_is_used() {
    assert_eq!(first_claim(&vec![false, true]), Some(1));
    assert_eq!(first_claim(&vec![true, true]), Some(0));
    assert_eq!(first_claim(&vec![false, false]), None);
    assert_eq!(first_claim(&Vec::new()), None);
    assert_eq!(next_claim(&vec![true, false, true], 1), Some(2));
    assert_eq!(next_claim(&vec![true, false, true], 3), None);
    assert_eq!(next_claim(&vec![true], 7), None);
}

#[test]
fn providers_are_asked_in_order_until_one_claims_the_input() {
    assert_eq!(Selection::start(0), Selection::NoneLeft);
    assert_eq!(Selection::start(2), Selection::Ask(0));
    assert_eq!(Selection::after_answer(2, 0, false), Selection::Ask(1));
    assert_eq!(Selection::after_answer(2, 1, true), Selection::Use(1));
    assert_eq!(Selection::after_answer(2, 0, true), Selection::Use(0));
    assert_eq!(Selection::after_answer(2, 1, false), Selection::NoneLeft);
    assert_eq!(Selection::after_answer(2, 5, false), Selection::NoneLeft);
    assert_eq!(Selection::after_answer(0, 0, false), Selection::NoneLeft);
    assert_eq!(Selection::after_answer(usize::MAX, usize::MAX, false), Selection::NoneLeft);
    assert_eq!(select(&vec![false, true]), Some(1));
    assert_eq!(select(&vec![false, false, false]), None);
    assert_eq!(select(&vec![true, true]), Some(0));
    assert_eq!(select(&Vec::new()), None);
}
