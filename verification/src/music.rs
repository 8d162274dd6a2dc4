//! The downloader for songs: several backends that serve the same music,
//! tried one after the other until one of them succeeds.

use vstd::prelude::*;
use crate::pipeline::{DownloadRequest, DownloadResult};
use crate::registry::{is_next_claim, next_claim, no_claim_from};
use crate::text::{chars_equal, chars_of, slice_chars, string_of};

verus! {

/// A backend that can fetch a song.
pub trait Handler {
    /// Whether this backend serves the address `song_url`.
    spec fn claims(&self, song_url: Seq<char>) -> bool;

    /// Whether this backend is switched on.
    spec fn is_enabled(&self) -> bool;

    /// Tests whether this backend serves the address `song_url`.
    fn supports(&self, song_url: &str) -> (yes: bool)
        ensures
            yes == self.claims(song_url@),
    ;

    /// Tests whether this backend is switched on.
    fn enabled(&self) -> (yes: bool)
        ensures
            yes == self.is_enabled(),
    ;
}

/// A backend that serves the addresses that begin in one of the ways it
/// lists.
#[derive(Debug)]
pub struct PrefixHandler {
    /// The beginnings of the addresses that are served.
    pub prefixes: Vec<String>,
    /// Whether the backend is switched on.
    pub on: bool,
}

impl PrefixHandler {
    /// A backend that serves the addresses that begin in one of the ways
    /// `prefixes` lists. It is switched on, as a backend is unless it says
    /// otherwise.
    pub fn new(prefixes: Vec<String>) -> (handler: PrefixHandler)
        ensures
            handler.prefixes == prefixes,
            handler.on,
    {
        PrefixHandler { prefixes, on: true }
    }
}

impl Handler for PrefixHandler {
    open spec fn claims(&self, song_url: Seq<char>) -> bool {
        exists|i: int| 0 <= i < self.prefixes.len() && (#[trigger] self.prefixes@[i])@.is_prefix_of(song_url)
    }

    open spec fn is_enabled(&self) -> bool {
        self.on
    }

    fn supports(&self, song_url: &str) -> (yes: bool) {
        let url = chars_of(song_url);
        let mut i: usize = 0;
        while i < self.prefixes.len()
            invariant
                i <= self.prefixes.len(),
                url@ == song_url@,
                forall|j: int| 0 <= j < i ==> !(#[trigger] self.prefixes@[j])@.is_prefix_of(song_url@),
            decreases self.prefixes.len() - i,
        {
            let prefix = chars_of(self.prefixes[i].as_str());
            if prefix.len() <= url.len() {
                let head = slice_chars(&url, 0, prefix.len());
                assert(url@.subrange(0, prefix.len() as int) == url@.take(prefix.len() as int));
                if chars_equal(&head, &prefix) {
                    assert(self.prefixes@[i as int]@.is_prefix_of(song_url@));
                    return true;
                }
            }
            i += 1;
        }
        false
    }

    fn enabled(&self) -> (yes: bool) {
        self.on
    }
}

/// One backend in the chain.
pub struct DownloadHandler<P: Handler> {
    provider: P,
}

impl<P: Handler> DownloadHandler<P> {
    /// The backend.
    pub closed spec fn backend(&self) -> P {
        self.provider
    }

    /// The chain entry for `provider`.
    pub fn new(provider: P) -> (handler: DownloadHandler<P>)
        ensures
            handler.backend() == provider,
    {
        DownloadHandler { provider }
    }

    /// The backend.
    pub fn provider(&self) -> (provider: &P)
        ensures
            *provider == self.backend(),
    {
        &self.provider
    }

    /// Tests whether the backend serves the address `url`.
    pub fn supports(&self, url: &str) -> (yes: bool)
        ensures
            yes == self.backend().claims(url@),
    {
        self.provider.supports(url)
    }

    /// Tests whether the backend is switched on.
    pub fn enabled(&self) -> (yes: bool)
        ensures
            yes == self.backend().is_enabled(),
    {
        self.provider.enabled()
    }
}

/// What is to be done next for a song.
#[derive(Debug, Clone, Copy, PartialEq, Eq)]
pub enum FallbackStep {
    /// The backend in this place is to be tried.
    Try(usize),
    /// Every backend that serves the address has failed.
    Exhausted,
}

/// The backends of `candidates` that are switched on, among the first `n`,
/// in order.
pub open spec fn enabled_among<P: Handler>(candidates: Seq<DownloadHandler<P>>, n: int) -> Seq<
    DownloadHandler<P>,
>
    decreases n,
{
    if n <= 0 {
        Seq::empty()
    } else {
        let before = enabled_among(candidates, n - 1);
        if candidates[n - 1].backend().is_enabled() {
            before.push(candidates[n - 1])
        } else {
            before
        }
    }
}

/// The downloader for songs.
pub struct Music<P: Handler> {
    handlers: Vec<DownloadHandler<P>>,
}

impl<P: Handler> Music<P> {
    /// The chain of backends, in the order in which they are tried.
    pub closed spec fn chain(&self) -> Seq<DownloadHandler<P>> {
        self.handlers@
    }

    /// For each backend of the chain, whether it serves `song_url`.
    pub open spec fn claims_on(&self, song_url: Seq<char>) -> Seq<bool> {
        self.chain().map_values(|h: DownloadHandler<P>| h.backend().claims(song_url))
    }

    /// The downloader over those of `candidates` that are switched on, in
    /// their order.
    pub fn new(candidates: Vec<DownloadHandler<P>>) -> (music: Music<P>)
        ensures
            music.chain() == enabled_among(candidates@, candidates.len() as int),
    {
        let ghost all = candidates@;
        let mut rest = candidates;
        let mut reversed: Vec<DownloadHandler<P>> = Vec::new();
        while rest.len() > 0
            invariant
                rest.len() <= all.len(),
                rest@ == all.take(rest.len() as int),
                reversed@.reverse() == all.skip(rest.len() as int),
            decreases rest.len(),
        {
            let ghost n = rest.len() as int;
            let last = rest.pop().unwrap();
            let ghost before = reversed@;
            reversed.push(last);
            proof {
                assert(before.push(last).reverse() =~= seq![last] + before.reverse());
                assert(all.skip(n - 1) =~= seq![all[n - 1]] + all.skip(n));
            }
        }
        let mut handlers: Vec<DownloadHandler<P>> = Vec::new();
        let ghost mut done: int = 0;
        assert(reversed@.reverse() == all);
        while reversed.len() > 0
            invariant
                reversed.len() + done == all.len(),
                0 <= done <= all.len(),
                reversed@.reverse() == all.skip(done),
                handlers@ == enabled_among(all, done),
            decreases reversed.len(),
        {
            let ghost before = reversed@;
            let next = reversed.pop().unwrap();
            proof {
                assert(before.reverse()[0] == next);
                assert(all[done] == next);
                assert(reversed@.reverse() =~= before.reverse().skip(1));
                assert(all.skip(done).skip(1) =~= all.skip(done + 1));
                done = done + 1;
            }
            if next.enabled() {
                handlers.push(next);
            }
        }
        Music { handlers }
    }

    /// What this downloader does, in a sentence.
    pub fn description(&self) -> (text: &'static str)
        ensures
            text@ == "Download songs from Spotify, Deezer, Tidal, and various other music providers. Depends on external services so may be randomly unavailable."@,
    {
        "Download songs from Spotify, Deezer, Tidal, and various other music providers. Depends on external services so may be randomly unavailable."
    }

    /// How many backends the chain has.
    pub fn len(&self) -> (n: usize)
        ensures
            n == self.chain().len(),
    {
        self.handlers.len()
    }

    /// The backend in place `at`, if the chain is that long.
    pub fn handler(&self, at: usize) -> (handler: Option<&DownloadHandler<P>>)
        ensures
            match handler {
                Some(h) => at < self.chain().len() && *h == self.chain()[at as int],
                None => at >= self.chain().len(),
            },
    {
        if at < self.handlers.len() {
            Some(&self.handlers[at])
        } else {
            None
        }
    }

    /// Whether some backend of the chain serves `song_url`.
    pub fn supports(&self, song_url: &str) -> (yes: bool)
        ensures
            yes == exists|i: int| 0 <= i < self.chain().len() && self.claims_on(song_url@)[i],
    {
        match self.next_handler(song_url, 0) {
            Some(at) => {
                assert(self.claims_on(song_url@)[at as int]);
                true
            },
            None => false,
        }
    }

    /// The first backend at or after `from` that serves `song_url`.
    pub fn next_handler(&self, song_url: &str, from: usize) -> (found: Option<usize>)
        ensures
            match found {
                Some(at) => is_next_claim(self.claims_on(song_url@), from as int, at as int),
                None => no_claim_from(self.claims_on(song_url@), from as int),
            },
    {
        let mut i: usize = from;
        while i < self.handlers.len()
            invariant
                from <= i,
                forall|j: int|
                    from <= j < i && j < self.chain().len() ==> !self.claims_on(song_url@)[j],
            decreases self.handlers.len() - i,
        {
            if self.handlers[i].supports(song_url) {
                return Some(i);
            }
            i += 1;
        }
        None
    }

    /// The first thing to do for `song_url`: try the first backend that
    /// serves it, if there is one.
    pub fn first_attempt(&self, song_url: &str) -> (step: FallbackStep)
        ensures
            match step {
                FallbackStep::Try(at) => is_next_claim(self.claims_on(song_url@), 0, at as int),
                FallbackStep::Exhausted => no_claim_from(self.claims_on(song_url@), 0),
            },
    {
        match self.next_handler(song_url, 0) {
            Some(at) => FallbackStep::Try(at),
            None => FallbackStep::Exhausted,
        }
    }

    /// What to do for `song_url` after the backend in place `failed` has
    /// failed: try the next backend that serves it, if there is one. The
    /// failure itself is not passed on.
    pub fn after_failure(&self, song_url: &str, failed: usize) -> (step: FallbackStep)
        ensures
            match step {
                FallbackStep::Try(at) => is_next_claim(
                    self.claims_on(song_url@),
                    failed + 1,
                    at as int,
                ),
                FallbackStep::Exhausted => no_claim_from(self.claims_on(song_url@), failed + 1),
            },
    {
        if failed >= self.handlers.len() {
            return FallbackStep::Exhausted;
        }
        match self.next_handler(song_url, failed + 1) {
            Some(at) => FallbackStep::Try(at),
            None => FallbackStep::Exhausted,
        }
    }
}

/// The text of the failure that is reported when every backend has failed.
pub open spec fn exhausted_text() -> Seq<char> {
    "No handler succeeded for song"@
}

/// The result of a successful download: the path with a copy of the
/// request.
pub fn succeeded(path: String, request: &DownloadRequest) -> (result: Result<DownloadResult, String>)
    ensures
        result matches Ok(done) && done.path == path && done.request == *request,
{
    Ok(DownloadResult { path, request: request.duplicate() })
}

/// The result when every backend has failed.
pub fn exhausted() -> (result: Result<DownloadResult, String>)
    ensures
        result matches Err(text) && text@ == exhausted_text(),
{
    Err(string_of(&chars_of("No handler succeeded for song")))
}

/// What a backend does for an address: `None` where it does not serve the
/// address, else what its download returns, a path or a failure.
pub open spec fn succeeds(attempts: Seq<Option<Result<String, String>>>, at: int) -> bool {
    &&& 0 <= at < attempts.len()
    &&& attempts[at] matches Some(outcome)
    &&& outcome is Ok
}

/// Whether `at` is the place of the first backend that serves the address
/// and succeeds.
pub open spec fn is_first_success(attempts: Seq<Option<Result<String, String>>>, at: int) -> bool {
    &&& succeeds(attempts, at)
    &&& forall|j: int| 0 <= j < at ==> !succeeds(attempts, j)
}

/// For each backend, whether it serves the address.
pub open spec fn serving(attempts: Seq<Option<Result<String, String>>>) -> Seq<bool> {
    attempts.map_values(|a: Option<Result<String, String>>| a is Some)
}

fn serving_flags(attempts: &Vec<Option<Result<String, String>>>) -> (flags: Vec<bool>)
    ensures
        flags@ == serving(attempts@),
{
    let mut flags: Vec<bool> = Vec::new();
    let mut i: usize = 0;
    while i < attempts.len()
        invariant
            i <= attempts.len(),
            flags@ == serving(attempts@.take(i as int)),
        decreases attempts.len() - i,
    {
        flags.push(attempts[i].is_some());
        i += 1;
        assert(attempts@.take(i as int) == attempts@.take(i - 1).push(attempts@[i - 1]));
    }
    assert(attempts@.take(attempts.len() as int) == attempts@);
    flags
}

/// What the chain comes to when the backends answer as given: `attempts`
/// holds, for each backend in order, `None` where it does not serve the
/// address, else what its download returns. The result is the place and the
/// path of the first backend that serves the address and succeeds; the
/// failures before it are passed over. Only where every backend that serves
/// the address fails is the result a failure.
pub fn resolve_chain(attempts: &Vec<Option<Result<String, String>>>) -> (result: Result<
    (usize, String),
    String,
>)
    ensures
        match result {
            Ok((at, path)) => is_first_success(attempts@, at as int) && attempts@[at as int] == Some(
                Ok::<String, String>(path),
            ),
            Err(text) => text@ == exhausted_text() && forall|j: int|
                0 <= j < attempts.len() ==> !succeeds(attempts@, j),
        },
{
    let claims = serving_flags(attempts);
    let mut step = next_claim(&claims, 0);
    let ghost mut tried: int = 0;
    loop
        invariant_except_break
            claims@ == serving(attempts@),
            0 <= tried <= attempts.len(),
            forall|j: int| 0 <= j < tried ==> !succeeds(attempts@, j),
            match step {
                Some(at) => is_next_claim(claims@, tried, at as int),
                None => no_claim_from(claims@, tried),
            },
        ensures
            forall|j: int| 0 <= j < attempts.len() ==> !succeeds(attempts@, j),
        decreases attempts.len() - tried,
    {
        match step {
            Some(at) => {
                proof {
                    assert forall|j: int| tried <= j < at implies !succeeds(attempts@, j) by {
                        assert(!claims@[j]);
                    }
                }
                match &attempts[at] {
                    Some(Ok(path)) => {
                        return Ok((at, path.clone()));
                    },
                    _ => {
                        proof {
                            tried = at + 1;
                        }
                        step = next_claim(&claims, at + 1);
                    },
                }
            },
            None => {
                proof {
                    assert forall|j: int| 0 <= j < attempts.len() implies !succeeds(attempts@, j) by {
                        if j >= tried {
                            assert(!claims@[j]);
                        }
                    }
                }
                break;
            },
        }
    }
    Err(string_of(&chars_of("No handler succeeded for song")))
}

/// Where some backend serves the address and succeeds, there is a first
/// such backend, at or before it, and so the chain succeeds, whatever the
/// backends before that one did.
pub proof fn law_chain_succeeds_if_any_backend_does(
    attempts: Seq<Option<Result<String, String>>>,
    at: int,
)
    requires
        succeeds(attempts, at),
    ensures
        exists|first: int| 0 <= first <= at && is_first_success(attempts, first),
    decreases at,
{
    if exists|j: int| 0 <= j < at && succeeds(attempts, j) {
        let j = choose|j: int| 0 <= j < at && succeeds(attempts, j);
        law_chain_succeeds_if_any_backend_does(attempts, j);
    } else {
        assert(is_first_success(attempts, at));
    }
}

} // verus!
