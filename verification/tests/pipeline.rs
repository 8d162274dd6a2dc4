use downloader_hub::pipeline::{
    collect_results, extraction_failure, is_complete, place_results, plan_downloads, Completion,
    DownloadPlan, DownloadRequest, ExtractInfoRequest, ExtractedInfo, MediaItem,
};

fn reference(url: &str) -> ExtractInfoRequest {
    ExtractInfoRequest { url: url.to_string() }
}

fn info(urls: &[&str]) -> ExtractedInfo {
    ExtractedInfo::from_urls(&reference("https://post"), urls.iter().map(|u| u.to_string()).collect())
}

fn done(item: usize, path: &str) -> Completion {
    Completion { item, outcome: Ok(path.to_string()) }
}

fn broke(item: usize, reason: &str) -> Completion {
    Completion { item, outcome: Err(reason.to_string()) }
}

#[test]
fn extracted_addresses_become_items_in_order() {
    let found = info(&["a", "b", "c"]);
    assert_eq!(found.request.url, "https://post");
    let urls: Vec<&str> = found.items.iter().map(|i| i.url.as_str()).collect();
    assert_eq!(urls, vec!["a", "b", "c"]);
    assert!(found.items.iter().all(|i| i.suggested_name.is_none() && i.extension.is_none()));
    assert!(info(&[]).items.is_empty());
}

#[test]
fn every_item_gets_a_request_into_the_directory() {
    let requests = DownloadRequest::from_extracted_info(&info(&["a", "b"]), "/tmp/dl");
    assert_eq!(requests.len(), 2);
    assert_eq!(requests[0].url(), "a");
    assert_eq!(requests[1].url(), "b");
    assert_eq!(requests[0].download_dir(), "/tmp/dl");
    assert_eq!(requests[1].download_dir(), "/tmp/dl");
    assert!(DownloadRequest::from_extracted_info(&info(&[]), "/tmp/dl").is_empty());
}

#[test]
fn copies_are_equal_to_what_they_copy() {
    let item = MediaItem {
        url: "u".to_string(),
        suggested_name: Some("n".to_string()),
        extension: Some("e".to_string()),
    };
    let copy = item.duplicate();
    assert_eq!((copy.url, copy.suggested_name, copy.extension), (item.url, item.suggested_name, item.extension));
    assert_eq!(reference("r").duplicate().url, "r");
    let request = DownloadRequest::from_extracted_info(&info(&["a"]), "/d").remove(0);
    let copy = request.duplicate();
    assert_eq!((copy.item.url, copy.download_dir), (request.item.url, request.download_dir));
}

#[test]
fn a_failed_extraction_is_the_one_result_of_the_request() {
    assert_eq!(
        extraction_failure("ExtractInfoRequest { url: \"x\" }", "no extractor"),
        "Failed to extract info from ExtractInfoRequest { url: \"x\" }: <u>no extractor</u>"
    );
    match plan_downloads("R", &Err("boom".to_string()), "/tmp") {
        DownloadPlan::Failed(text) => assert_eq!(text, "Failed to extract info from R: <u>boom</u>"),
        other => panic!("{other:?}"),
    }
}

#[test]
fn a_successful_extraction_plans_one_download_for_each_item() {
    match plan_downloads("R", &Ok(info(&["a", "b", "c"])), "/tmp/dl") {
        DownloadPlan::Download(requests) => {
            let urls: Vec<&str> = requests.iter().map(|r| r.url()).collect();
            assert_eq!(urls, vec!["a", "b", "c"]);
            assert!(requests.iter().all(|r| r.download_dir() == "/tmp/dl"));
        }
        other => panic!("{other:?}"),
    }
}

#[test]
fn results_are_in_the_order_of_the_items_whatever_the_order_of_completion() {
    let requests = DownloadRequest::from_extracted_info(&info(&["a", "b", "c"]), "/d");
    let completions = vec![done(2, "/d/c"), broke(0, "a failed"), done(1, "/d/b")];
    let results = collect_results(&requests, &completions).unwrap();
    assert_eq!(results.len(), 3);
    assert_eq!(results[0].as_ref().unwrap_err(), "a failed");
    let second = results[1].as_ref().unwrap();
    assert_eq!((second.path.as_str(), second.request.url()), ("/d/b", "b"));
    let third = results[2].as_ref().unwrap();
    assert_eq!((third.path.as_str(), third.request.url()), ("/d/c", "c"));
}

#[test]
fn one_failed_item_does_not_fail_the_others() {
    let requests = DownloadRequest::from_extracted_info(&info(&["a", "b"]), "/d");
    let results = place_results(&requests, &vec![broke(0, "x"), done(1, "/d/b")]);
    assert!(results[0].is_err());
    assert!(results[1].is_ok());
}

#[test]
fn results_need_one_completion_for_each_item() {
    let requests = DownloadRequest::from_extracted_info(&info(&["a", "b"]), "/d");
    assert!(collect_results(&requests, &vec![done(0, "x")]).is_none());
    assert!(collect_results(&requests, &vec![done(0, "x"), done(0, "y")]).is_none());
    assert!(collect_results(&requests, &vec![done(0, "x"), done(2, "y")]).is_none());
    assert!(collect_results(&requests, &vec![done(0, "x"), done(1, "y"), done(1, "z")]).is_none());
    assert!(collect_results(&requests, &vec![done(1, "y"), done(0, "x")]).is_some());
    assert!(is_complete(&Vec::new(), 0));
    assert!(!is_complete(&Vec::new(), 1));
    assert!(!is_complete(&vec![done(0, "x")], 0));
    assert_eq!(collect_results(&Vec::new(), &Vec::new()).unwrap().len(), 0);
}
