//! Provider registries: the fixed list of providers of one kind, in
//! declaration order, and the providers among them that are ready to run.

use vstd::prelude::*;

verus! {

/// How a readiness probe ended.
#[derive(Debug, Clone, Copy, PartialEq, Eq)]
pub enum ProbeOutcome {
    /// The provider can run.
    Ready,
    /// The provider cannot run.
    NotReady,
    /// The probe itself failed; the provider counts as unavailable.
    Failed,
}

/// Whether the provider in place `at` passed its probe. A provider without
/// a probe did not.
pub open spec fn passed(probes: Seq<ProbeOutcome>, at: int) -> bool {
    0 <= at < probes.len() && probes[at] is Ready
}

/// The providers among the first `n` of `all` that passed their probe, in
/// the order of `all`.
pub open spec fn ready_among<K>(all: Seq<K>, probes: Seq<ProbeOutcome>, n: int) -> Seq<K>
    decreases n,
{
    if n <= 0 {
        Seq::empty()
    } else {
        let before = ready_among(all, probes, n - 1);
        if passed(probes, n - 1) {
            before.push(all[n - 1])
        } else {
            before
        }
    }
}

/// The providers of `all` that passed their probe, in the order of `all`.
pub open spec fn ready_ones<K>(all: Seq<K>, probes: Seq<ProbeOutcome>) -> Seq<K> {
    ready_among(all, probes, all.len() as int)
}

/// Whether `part` can be had from `whole` by leaving entries out: `places`
/// says where each entry of `part` stands in `whole`, and rises.
pub open spec fn is_selection<K>(part: Seq<K>, whole: Seq<K>, places: Seq<int>) -> bool {
    &&& places.len() == part.len()
    &&& forall|i: int| 0 <= i < part.len() ==> 0 <= #[trigger] places[i] < whole.len()
    &&& forall|i: int| 0 <= i < part.len() ==> part[i] == whole[#[trigger] places[i]]
    &&& forall|i: int, j: int| 0 <= i < j < part.len() ==> #[trigger] places[i] < #[trigger] places[j]
}

/// The places in `all` of the providers that passed their probe, among the
/// first `n`.
pub open spec fn ready_places(probes: Seq<ProbeOutcome>, n: int) -> Seq<int>
    decreases n,
{
    if n <= 0 {
        Seq::empty()
    } else {
        let before = ready_places(probes, n - 1);
        if passed(probes, n - 1) {
            before.push(n - 1)
        } else {
            before
        }
    }
}

proof fn lemma_ready_among_is_selection<K>(all: Seq<K>, probes: Seq<ProbeOutcome>, n: int)
    requires
        0 <= n <= all.len(),
    ensures
        is_selection(ready_among(all, probes, n), all, ready_places(probes, n)),
        forall|i: int| 0 <= i < ready_places(probes, n).len() ==> #[trigger] ready_places(probes, n)[i] < n,
        forall|i: int|
            0 <= i < ready_places(probes, n).len() ==> passed(
                probes,
                #[trigger] ready_places(probes, n)[i],
            ),
    decreases n,
{
    if n > 0 {
        lemma_ready_among_is_selection(all, probes, n - 1);
    }
}

/// The available providers are some of all providers, in their order, and
/// each of them passed its probe.
pub proof fn law_available_is_part_of_all<K>(all: Seq<K>, probes: Seq<ProbeOutcome>)
    ensures
        is_selection(ready_ones(all, probes), all, ready_places(probes, all.len() as int)),
        ready_ones(all, probes).len() <= all.len(),
        forall|x: K| ready_ones(all, probes).contains(x) ==> all.contains(x),
        forall|i: int|
            0 <= i < ready_ones(all, probes).len() ==> passed(
                probes,
                #[trigger] ready_places(probes, all.len() as int)[i],
            ),
{
    let n = all.len() as int;
    lemma_ready_among_is_selection(all, probes, n);
    let part = ready_ones(all, probes);
    let places = ready_places(probes, n);
    assert forall|x: K| part.contains(x) implies all.contains(x) by {
        let i = choose|i: int| 0 <= i < part.len() && part[i] == x;
        assert(all[places[i]] == x);
    }
    lemma_selection_is_no_longer(part, all, places);
}

proof fn lemma_selection_is_no_longer<K>(part: Seq<K>, whole: Seq<K>, places: Seq<int>)
    requires
        is_selection(part, whole, places),
    ensures
        part.len() <= whole.len(),
    decreases part.len(),
{
    if part.len() > 0 {
        let last = places.last();
        assert forall|i: int| 0 <= i < part.len() - 1 implies 0 <= #[trigger] places.drop_last()[i]
            < last by {
            assert(places[i] < places[part.len() - 1]);
        }
        lemma_selection_is_no_longer(part.drop_last(), whole.take(last), places.drop_last());
    }
}

/// What a registry remembers after it is shown the outcome of a round of
/// probing: the first round decides, and every later one changes nothing.
pub open spec fn remembered<K>(cache: Option<Seq<K>>, all: Seq<K>, probes: Seq<ProbeOutcome>) -> Seq<K> {
    match cache {
        Some(kept) => kept,
        None => ready_ones(all, probes),
    }
}

/// Whatever later rounds of probing say, the available providers stay what
/// the first round made them.
pub proof fn law_available_is_decided_once<K>(
    cache: Option<Seq<K>>,
    all: Seq<K>,
    first: Seq<ProbeOutcome>,
    later: Seq<ProbeOutcome>,
)
    ensures
        remembered(Some(remembered(cache, all, first)), all, later) == remembered(cache, all, first),
{
}

/// The providers of one kind: all of them, in declaration order, and, once
/// they have been probed, the ones that are available.
pub struct Registry<K: Copy> {
    all: Vec<K>,
    available: Option<Vec<K>>,
}

impl<K: Copy> Registry<K> {
    /// All providers, in declaration order.
    pub closed spec fn entries(&self) -> Seq<K> {
        self.all@
    }

    /// The available providers, once they are decided.
    pub closed spec fn decided(&self) -> Option<Seq<K>> {
        match self.available {
            Some(v) => Some(v@),
            None => None,
        }
    }

    /// A registry of `all`, not probed yet.
    pub fn new(all: Vec<K>) -> (registry: Registry<K>)
        ensures
            registry.entries() == all@,
            registry.decided() is None,
    {
        Registry { all, available: None }
    }

    /// All providers, in declaration order.
    pub fn all(&self) -> (all: &Vec<K>)
        ensures
            all@ == self.entries(),
    {
        &self.all
    }

    /// Whether the available providers are decided.
    pub fn is_probed(&self) -> (probed: bool)
        ensures
            probed == self.decided() is Some,
    {
        self.available.is_some()
    }

    /// The available providers. The first call decides them from `probes`,
    /// which holds the outcome of the probe of each provider, place by
    /// place; every later call gives the same answer, whatever it is shown.
    pub fn available(&mut self, probes: &Vec<ProbeOutcome>) -> (available: Vec<K>)
        ensures
            final(self).entries() == old(self).entries(),
            available@ == remembered(old(self).decided(), old(self).entries(), probes@),
            final(self).decided() == Some(available@),
    {
        if self.available.is_none() {
            let found = select_ready(&self.all, probes);
            self.available = Some(found);
        }
        match &self.available {
            Some(v) => copy_of(v),
            None => Vec::new(),
        }
    }
}

/// A copy of `v`.
pub fn copy_of<K: Copy>(v: &Vec<K>) -> (copy: Vec<K>)
    ensures
        copy@ == v@,
{
    let mut copy: Vec<K> = Vec::new();
    let mut i: usize = 0;
    while i < v.len()
        invariant
            i <= v.len(),
            copy@ == v@.take(i as int),
        decreases v.len() - i,
    {
        copy.push(v[i]);
        i += 1;
        assert(v@.take(i as int) == v@.take(i - 1).push(v@[i - 1]));
    }
    assert(v@.take(v.len() as int) == v@);
    copy
}

/// The providers of `all` that passed their probe, in the order of `all`.
pub fn select_ready<K: Copy>(all: &Vec<K>, probes: &Vec<ProbeOutcome>) -> (ready: Vec<K>)
    ensures
        ready@ == ready_ones(all@, probes@),
{
    let mut ready: Vec<K> = Vec::new();
    let mut i: usize = 0;
    while i < all.len()
        invariant
            i <= all.len(),
            ready@ == ready_among(all@, probes@, i as int),
        decreases all.len() - i,
    {
        let ok = if i < probes.len() {
            match probes[i] {
                ProbeOutcome::Ready => true,
                ProbeOutcome::NotReady => false,
                ProbeOutcome::Failed => false,
            }
        } else {
            false
        };
        if ok {
            ready.push(all[i]);
        }
        i += 1;
    }
    ready
}

/// The actions that the pipeline knows.
#[derive(Debug, Clone, Copy, PartialEq, Eq)]
pub enum ActionKind {
    RenameToId,
    SplitScenes,
    CompactMedia,
    OcrImage,
    RemoveBackground,
}

/// The downloaders that the pipeline knows.
#[derive(Debug, Clone, Copy, PartialEq, Eq)]
pub enum DownloaderKind {
    YtDlp,
    Generic,
    Music,
}

/// All actions, in declaration order.
pub open spec fn action_list() -> Seq<ActionKind> {
    seq![
        ActionKind::RenameToId,
        ActionKind::SplitScenes,
        ActionKind::CompactMedia,
        ActionKind::OcrImage,
        ActionKind::RemoveBackground,
    ]
}

/// All downloaders, in declaration order.
pub open spec fn downloader_list() -> Seq<DownloaderKind> {
    seq![DownloaderKind::YtDlp, DownloaderKind::Generic, DownloaderKind::Music]
}

/// All actions, in declaration order.
pub fn all_actions() -> (all: Vec<ActionKind>)
    ensures
        all@ == action_list(),
{
    let mut all: Vec<ActionKind> = Vec::new();
    all.push(ActionKind::RenameToId);
    all.push(ActionKind::SplitScenes);
    all.push(ActionKind::CompactMedia);
    all.push(ActionKind::OcrImage);
    all.push(ActionKind::RemoveBackground);
    all
}

/// The actions that passed their probe, in declaration order. `probes`
/// holds the outcome of the probe of each action, place by place.
pub fn available_actions(probes: &Vec<ProbeOutcome>) -> (available: Vec<ActionKind>)
    ensures
        available@ == ready_ones(action_list(), probes@),
{
    select_ready(&all_actions(), probes)
}

/// All downloaders, in declaration order.
pub fn all_downloaders() -> (all: Vec<DownloaderKind>)
    ensures
        all@ == downloader_list(),
{
    let mut all: Vec<DownloaderKind> = Vec::new();
    all.push(DownloaderKind::YtDlp);
    all.push(DownloaderKind::Generic);
    all.push(DownloaderKind::Music);
    all
}

/// The downloaders that passed their probe, in declaration order. `probes`
/// holds the outcome of the probe of each downloader, place by place.
pub fn available_downloaders(probes: &Vec<ProbeOutcome>) -> (available: Vec<DownloaderKind>)
    ensures
        available@ == ready_ones(downloader_list(), probes@),
{
    select_ready(&all_downloaders(), probes)
}

/// Whether `at` is the first place of `claims` that holds `true`.
pub open spec fn is_first_claim(claims: Seq<bool>, at: int) -> bool {
    &&& 0 <= at < claims.len()
    &&& claims[at]
    &&& forall|j: int| 0 <= j < at ==> !claims[j]
}

/// Whether no place of `claims` at or after `from` holds `true`.
pub open spec fn no_claim_from(claims: Seq<bool>, from: int) -> bool {
    forall|j: int| from <= j < claims.len() ==> !claims[j]
}

/// Whether `at` is the first place of `claims` at or after `from` that
/// holds `true`.
pub open spec fn is_next_claim(claims: Seq<bool>, from: int, at: int) -> bool {
    &&& from <= at < claims.len()
    &&& claims[at]
    &&& forall|j: int| from <= j < at ==> !claims[j]
}

/// The first provider at or after `from` that claims the input. `claims`
/// holds, in registry order, whether each provider claims it.
pub fn next_claim(claims: &Vec<bool>, from: usize) -> (found: Option<usize>)
    ensures
        match found {
            Some(at) => is_next_claim(claims@, from as int, at as int),
            None => no_claim_from(claims@, from as int),
        },
{
    let mut i: usize = from;
    while i < claims.len()
        invariant
            from <= i,
            forall|j: int| from <= j < i && j < claims.len() ==> !claims@[j],
        decreases claims.len() - i,
    {
        if claims[i] {
            return Some(i);
        }
        i += 1;
    }
    None
}

/// The provider that is used: the first one that claims the input. The
/// providers before it do not claim the input and are never asked to
/// handle it.
pub fn first_claim(claims: &Vec<bool>) -> (found: Option<usize>)
    ensures
        match found {
            Some(at) => is_first_claim(claims@, at as int),
            None => no_claim_from(claims@, 0),
        },
{
    next_claim(claims, 0)
}

} // verus!
