//! The composition of extraction and download: the data that flows from a
//! reference to local files, and how the per-item results are put together.

use vstd::prelude::*;
use crate::config::copy_text;
use crate::text::{chars_of, push_all, string_of};

verus! {

/// A reference to requested content: an address.
#[derive(Debug)]
pub struct ExtractInfoRequest {
    pub url: String,
}

impl ExtractInfoRequest {
    /// A copy of this reference.
    pub fn duplicate(&self) -> (copy: ExtractInfoRequest)
        ensures
            copy == *self,
    {
        ExtractInfoRequest { url: self.url.clone() }
    }
}

/// One piece of media behind a reference: where it is, and the name and
/// extension that the extractor suggests for it, if any.
#[derive(Debug)]
pub struct MediaItem {
    pub url: String,
    pub suggested_name: Option<String>,
    pub extension: Option<String>,
}

impl MediaItem {
    /// A copy of this item.
    pub fn duplicate(&self) -> (copy: MediaItem)
        ensures
            copy == *self,
    {
        MediaItem {
            url: self.url.clone(),
            suggested_name: copy_text(&self.suggested_name),
            extension: copy_text(&self.extension),
        }
    }
}

/// What an extractor found behind a reference: the media, in order.
#[derive(Debug)]
pub struct ExtractedInfo {
    pub request: ExtractInfoRequest,
    pub items: Vec<MediaItem>,
}

/// The media item for a bare address.
pub open spec fn item_at(url: String) -> MediaItem {
    MediaItem { url, suggested_name: None, extension: None }
}

impl ExtractedInfo {
    /// The result of an extractor that found the addresses `urls` behind
    /// `request`: one item for each address, in order.
    pub fn from_urls(request: &ExtractInfoRequest, urls: Vec<String>) -> (info: ExtractedInfo)
        ensures
            info.request == *request,
            info.items@ == urls@.map_values(|u: String| item_at(u)),
    {
        let mut items: Vec<MediaItem> = Vec::new();
        let mut i: usize = 0;
        while i < urls.len()
            invariant
                i <= urls.len(),
                items@ == urls@.take(i as int).map_values(|u: String| item_at(u)),
            decreases urls.len() - i,
        {
            items.push(MediaItem { url: urls[i].clone(), suggested_name: None, extension: None });
            i += 1;
            assert(urls@.take(i as int) == urls@.take(i - 1).push(urls@[i - 1]));
        }
        proof {
            assert(urls@.take(urls.len() as int) == urls@);
        }
        ExtractedInfo { request: request.duplicate(), items }
    }
}

/// One media item bound to the directory in which its file is to be put.
#[derive(Debug)]
pub struct DownloadRequest {
    pub item: MediaItem,
    pub download_dir: String,
}

impl DownloadRequest {
    /// A copy of this request.
    pub fn duplicate(&self) -> (copy: DownloadRequest)
        ensures
            copy == *self,
    {
        DownloadRequest { item: self.item.duplicate(), download_dir: self.download_dir.clone() }
    }

    /// The address of the media.
    pub fn url(&self) -> (url: &str)
        ensures
            url@ == self.item.url@,
    {
        self.item.url.as_str()
    }

    /// The directory in which the file is to be put.
    pub fn download_dir(&self) -> (dir: &str)
        ensures
            dir@ == self.download_dir@,
    {
        self.download_dir.as_str()
    }

    /// One request for each item of `info`, in order, each into
    /// `download_dir`.
    pub fn from_extracted_info(info: &ExtractedInfo, download_dir: &str) -> (requests: Vec<
        DownloadRequest,
    >)
        ensures
            requests.len() == info.items.len(),
            forall|i: int|
                0 <= i < requests.len() ==> (#[trigger] requests@[i]).item == info.items@[i]
                    && requests@[i].download_dir@ == download_dir@,
    {
        let mut requests: Vec<DownloadRequest> = Vec::new();
        let mut i: usize = 0;
        while i < info.items.len()
            invariant
                i <= info.items.len(),
                requests.len() == i,
                forall|k: int|
                    0 <= k < i ==> (#[trigger] requests@[k]).item == info.items@[k]
                        && requests@[k].download_dir@ == download_dir@,
            decreases info.items.len() - i,
        {
            requests.push(
                DownloadRequest {
                    item: info.items[i].duplicate(),
                    download_dir: string_of(&chars_of(download_dir)),
                },
            );
            i += 1;
        }
        requests
    }
}

/// A finished download: where the file is, and the request it answers.
#[derive(Debug)]
pub struct DownloadResult {
    pub path: String,
    pub request: DownloadRequest,
}

/// The text of the failure that is reported where extraction fails:
/// `request` is the reference as it is shown, `error` what the extractor
/// said.
pub open spec fn extraction_failure_text(request: Seq<char>, error: Seq<char>) -> Seq<char> {
    "Failed to extract info from "@ + request + ": <u>"@ + error + "</u>"@
}

/// The text of the failure that is reported where extraction fails.
pub fn extraction_failure(request: &str, error: &str) -> (text: String)
    ensures
        text@ == extraction_failure_text(request@, error@),
{
    let mut out = chars_of("Failed to extract info from ");
    push_all(&mut out, &chars_of(request));
    push_all(&mut out, &chars_of(": <u>"));
    push_all(&mut out, &chars_of(error));
    push_all(&mut out, &chars_of("</u>"));
    string_of(&out)
}

/// How the download of one item ended, as it comes in: the place of the
/// item among the requests, and the path of the file or the reason of the
/// failure.
#[derive(Debug)]
pub struct Completion {
    pub item: usize,
    pub outcome: Result<String, String>,
}

/// Whether `completions` holds exactly one completion for each of `count`
/// items.
pub open spec fn covers_each_once(completions: Seq<Completion>, count: int) -> bool {
    &&& completions.len() == count
    &&& forall|k: int| 0 <= k < completions.len() ==> (#[trigger] completions[k]).item < count
    &&& forall|j: int, k: int|
        0 <= j < k < completions.len() ==> (#[trigger] completions[j]).item
            != (#[trigger] completions[k]).item
    &&& forall|i: int| 0 <= i < count ==> is_reported(completions, i)
}

/// Whether `completions` holds a completion for the item in place `item`.
pub open spec fn is_reported(completions: Seq<Completion>, item: int) -> bool {
    exists|j: int| 0 <= j < completions.len() && (#[trigger] completions[j]).item == item
}

/// Whether `result` is what the completion `outcome` of `request` comes to:
/// the path with the request, or the reason of the failure.
pub open spec fn is_result_of(
    result: Result<DownloadResult, String>,
    request: DownloadRequest,
    outcome: Result<String, String>,
) -> bool {
    match outcome {
        Ok(path) => result matches Ok(done) && done.path == path && done.request == request,
        Err(reason) => result matches Err(text) && text == reason,
    }
}

/// Whether `results` are the results of `requests`, place by place, as
/// `completions` reports them.
pub open spec fn are_results_of(
    results: Seq<Result<DownloadResult, String>>,
    requests: Seq<DownloadRequest>,
    completions: Seq<Completion>,
) -> bool {
    &&& results.len() == requests.len()
    &&& forall|k: int|
        0 <= k < completions.len() ==> is_result_of(
            results[(#[trigger] completions[k]).item as int],
            requests[completions[k].item as int],
            completions[k].outcome,
        )
}

/// Tests whether `completions` holds exactly one completion for each of
/// `count` items.
pub fn is_complete(completions: &Vec<Completion>, count: usize) -> (complete: bool)
    ensures
        complete == covers_each_once(completions@, count as int),
{
    if completions.len() != count {
        return false;
    }
    let mut seen: Vec<bool> = Vec::new();
    let mut n: usize = 0;
    while n < count
        invariant
            n <= count,
            seen.len() == n,
            forall|i: int| 0 <= i < n ==> !seen@[i],
        decreases count - n,
    {
        seen.push(false);
        n += 1;
    }
    let mut k: usize = 0;
    while k < completions.len()
        invariant
            k <= completions.len(),
            completions.len() == count,
            seen.len() == count,
            forall|j: int| 0 <= j < k ==> (#[trigger] completions@[j]).item < count,
            forall|i: int, j: int|
                0 <= i < j < k ==> (#[trigger] completions@[i]).item != (#[trigger] completions@[j]).item,
            forall|i: int|
                0 <= i < count ==> (#[trigger] seen@[i] <==> exists|j: int|
                    0 <= j < k && (#[trigger] completions@[j]).item == i),
        decreases completions.len() - k,
    {
        let at = completions[k].item;
        if at >= count {
            return false;
        }
        if seen[at] {
            proof {
                let j = choose|j: int| 0 <= j < k && (#[trigger] completions@[j]).item == at;
                assert(completions@[j].item == completions@[k as int].item);
            }
            return false;
        }
        let ghost before = seen@;
        seen.set(at, true);
        proof {
            assert forall|i: int| 0 <= i < count implies (#[trigger] seen@[i] <==> exists|j: int|
                0 <= j < k + 1 && (#[trigger] completions@[j]).item == i) by {
                if i == at {
                    assert(completions@[k as int].item == i);
                } else {
                    assert(seen@[i] == before[i]);
                    if before[i] {
                        let j = choose|j: int| 0 <= j < k && (#[trigger] completions@[j]).item == i;
                        assert(0 <= j < k + 1 && completions@[j].item == i);
                    }
                    if exists|j: int| 0 <= j < k + 1 && (#[trigger] completions@[j]).item == i {
                        let j = choose|j: int|
                            0 <= j < k + 1 && (#[trigger] completions@[j]).item == i;
                        assert(j != k);
                        assert(0 <= j < k && completions@[j].item == i);
                    }
                }
            }
        }
        k += 1;
    }
    let mut i: usize = 0;
    while i < count
        invariant
            i <= count,
            seen.len() == count,
            completions.len() == count,
            forall|n: int|
                0 <= n < count ==> (#[trigger] seen@[n] <==> exists|j: int|
                    0 <= j < completions.len() && (#[trigger] completions@[j]).item == n),
            forall|n: int| 0 <= n < i ==> is_reported(completions@, n),
        decreases count - i,
    {
        if !seen[i] {
            assert(!is_reported(completions@, i as int));
            return false;
        }
        assert(seen@[i as int]);
        i += 1;
    }
    true
}

fn find_completion(completions: &Vec<Completion>, item: usize) -> (at: usize)
    requires
        is_reported(completions@, item as int),
    ensures
        at < completions.len(),
        completions@[at as int].item == item,
{
    let mut j: usize = 0;
    while j < completions.len()
        invariant
            j <= completions.len(),
            forall|n: int| 0 <= n < j ==> (#[trigger] completions@[n]).item != item,
        decreases completions.len() - j,
    {
        if completions[j].item == item {
            return j;
        }
        j += 1;
    }
    proof {
        let n = choose|n: int| 0 <= n < completions.len() && (#[trigger] completions@[n]).item == item;
        assert(completions@[n].item != item);
    }
    0
}

/// Puts the results of the downloads in the order of the requests,
/// whatever the order in which the downloads ended. `completions` must hold
/// exactly one completion for each request.
pub fn place_results(requests: &Vec<DownloadRequest>, completions: &Vec<Completion>) -> (results: Vec<
    Result<DownloadResult, String>,
>)
    requires
        covers_each_once(completions@, requests.len() as int),
    ensures
        are_results_of(results@, requests@, completions@),
{
    let mut results: Vec<Result<DownloadResult, String>> = Vec::new();
    let mut i: usize = 0;
    while i < requests.len()
        invariant
            i <= requests.len(),
            results.len() == i,
            covers_each_once(completions@, requests.len() as int),
            forall|k: int|
                0 <= k < completions.len() && (#[trigger] completions@[k]).item < i ==> is_result_of(
                    results@[completions@[k].item as int],
                    requests@[completions@[k].item as int],
                    completions@[k].outcome,
                ),
        decreases requests.len() - i,
    {
        let at = find_completion(completions, i);
        let result = match &completions[at].outcome {
            Ok(path) => Ok(DownloadResult { path: path.clone(), request: requests[i].duplicate() }),
            Err(reason) => Err(reason.clone()),
        };
        let ghost before = results@;
        results.push(result);
        proof {
            assert forall|k: int|
                0 <= k < completions.len() && (#[trigger] completions@[k]).item < i + 1 implies is_result_of(
                results@[completions@[k].item as int],
                requests@[completions@[k].item as int],
                completions@[k].outcome,
            ) by {
                if completions@[k].item == i {
                    if k < at {
                        assert(completions@[k].item != completions@[at as int].item);
                    }
                    if at < k {
                        assert(completions@[at as int].item != completions@[k].item);
                    }
                    assert(k == at);
                } else {
                    assert(results@[completions@[k].item as int] == before[completions@[k].item as int]);
                }
            }
        }
        i += 1;
    }
    results
}

/// Puts the results of the downloads in the order of the requests, where
/// `completions` holds exactly one completion for each request; else there
/// is nothing to put together.
pub fn collect_results(requests: &Vec<DownloadRequest>, completions: &Vec<Completion>) -> (results: Option<
    Vec<Result<DownloadResult, String>>,
>)
    ensures
        match results {
            Some(list) => covers_each_once(completions@, requests.len() as int) && are_results_of(
                list@,
                requests@,
                completions@,
            ),
            None => !covers_each_once(completions@, requests.len() as int),
        },
{
    if is_complete(completions, requests.len()) {
        Some(place_results(requests, completions))
    } else {
        None
    }
}

/// What is to be done for a reference once extraction has ended.
#[derive(Debug)]
pub enum DownloadPlan {
    /// Extraction failed: the one result of the whole request is this text.
    Failed(String),
    /// Extraction found media: these are the downloads to run, one for
    /// each item, in order.
    Download(Vec<DownloadRequest>),
}

/// Decides what is done for a reference once extraction has ended. A
/// failed extraction is final: its error is reported as the one result, and
/// no download is run. `request` is the reference as it is shown in that
/// report.
pub fn plan_downloads(
    request: &str,
    extraction: &Result<ExtractedInfo, String>,
    download_dir: &str,
) -> (plan: DownloadPlan)
    ensures
        match *extraction {
            Err(error) => plan matches DownloadPlan::Failed(text) && text@ == extraction_failure_text(
                request@,
                error@,
            ),
            Ok(info) => plan matches DownloadPlan::Download(requests) && requests.len()
                == info.items.len() && forall|i: int|
                0 <= i < requests.len() ==> (#[trigger] requests@[i]).item == info.items@[i]
                    && requests@[i].download_dir@ == download_dir@,
        },
{
    match extraction {
        Err(error) => DownloadPlan::Failed(extraction_failure(request, error.as_str())),
        Ok(info) => DownloadPlan::Download(DownloadRequest::from_extracted_info(info, download_dir)),
    }
}

/// Where the choice of a provider stands. Providers are asked in registry
/// order whether they claim the input; the first that does is used, and no
/// other is.
#[derive(Debug, Clone, Copy, PartialEq, Eq)]
pub enum Selection {
    /// The provider in this place is to be asked next.
    Ask(usize),
    /// The provider in this place is used.
    Use(usize),
    /// No provider claims the input.
    NoneLeft,
}

impl Selection {
    /// The choice among `count` providers before any of them was asked.
    pub fn start(count: usize) -> (state: Selection)
        ensures
            state == if count == 0 {
                Selection::NoneLeft
            } else {
                Selection::Ask(0)
            },
    {
        if count == 0 {
            Selection::NoneLeft
        } else {
            Selection::Ask(0)
        }
    }

    /// The choice after the provider in place `asked` has answered.
    pub fn after_answer(count: usize, asked: usize, claimed: bool) -> (state: Selection)
        ensures
            state == if claimed {
                Selection::Use(asked)
            } else if asked + 1 < count {
                Selection::Ask((asked + 1) as usize)
            } else {
                Selection::NoneLeft
            },
    {
        if claimed {
            Selection::Use(asked)
        } else if count > 0 && asked < count - 1 {
            Selection::Ask(asked + 1)
        } else {
            Selection::NoneLeft
        }
    }
}

/// Asks the providers in order, as `Selection` says, and gives the place of
/// the one that is used. `claims` holds what each provider would answer.
pub fn select(claims: &Vec<bool>) -> (chosen: Option<usize>)
    ensures
        match chosen {
            Some(at) => crate::registry::is_first_claim(claims@, at as int),
            None => crate::registry::no_claim_from(claims@, 0),
        },
{
    let count = claims.len();
    let mut state = Selection::start(count);
    let ghost mut asked_so_far: int = 0;
    loop
        invariant_except_break
            count == claims.len(),
            0 <= asked_so_far <= count,
            forall|j: int| 0 <= j < asked_so_far ==> !claims@[j],
            match state {
                Selection::Ask(i) => i == asked_so_far && i < count,
                Selection::Use(i) => false,
                Selection::NoneLeft => asked_so_far == count,
            },
        ensures
            match state {
                Selection::Ask(i) => false,
                Selection::Use(i) => crate::registry::is_first_claim(claims@, i as int),
                Selection::NoneLeft => crate::registry::no_claim_from(claims@, 0),
            },
        decreases count - asked_so_far,
    {
        match state {
            Selection::Ask(i) => {
                state = Selection::after_answer(count, i, claims[i]);
                proof {
                    if !claims@[i as int] {
                        asked_so_far = asked_so_far + 1;
                    }
                }
                match state {
                    Selection::Use(_) => {
                        break;
                    },
                    _ => {},
                }
            },
            Selection::Use(_) => {
                break;
            },
            Selection::NoneLeft => {
                break;
            },
        }
    }
    match state {
        Selection::Use(i) => Some(i),
        _ => None,
    }
}

} // verus!
