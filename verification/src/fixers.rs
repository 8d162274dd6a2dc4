//! The fixer chain: a list of fixers applied to one file, one after the
//! other, each working on what the one before it left.

use vstd::prelude::*;
use crate::text::{chars_equal, chars_of, position, push_all, slice_chars, string_of};

verus! {

/// A request to fix one file.
#[derive(Debug)]
pub struct FixRequest {
    pub file_path: String,
}

/// A fixed file.
#[derive(Debug)]
pub struct FixResult {
    pub file_path: String,
}

/// What is to be done next for the file.
#[derive(Debug)]
pub enum FixStep {
    /// The fixer `fixer` is to be run on the file at `file_path`.
    Run { fixer: usize, file_path: String },
    /// Every fixer has run: the file is at `file_path`.
    Done { file_path: String },
    /// A fixer failed; the chain stops here, and this is its error.
    Aborted { error: String },
}

/// The state of a chain: the fixers that were asked for, how many of them
/// have run, and the file as the last of them left it.
#[derive(Debug)]
pub struct FixerChain {
    fixers: Vec<usize>,
    done: usize,
    file_path: String,
    error: Option<String>,
}

impl FixerChain {
    /// The fixers that were asked for, in order.
    pub closed spec fn fixers(&self) -> Seq<usize> {
        self.fixers@
    }

    /// How many fixers have run.
    pub closed spec fn finished(&self) -> int {
        self.done as int
    }

    /// Where the file is now.
    pub closed spec fn current_path(&self) -> Seq<char> {
        self.file_path@
    }

    /// The error that stopped the chain, if one did.
    pub closed spec fn failure(&self) -> Option<Seq<char>> {
        match self.error {
            Some(e) => Some(e@),
            None => None,
        }
    }

    #[verifier::type_invariant]
    spec fn well_formed(&self) -> bool {
        self.done <= self.fixers.len()
    }

    /// Whether a fixer is waiting to be run: the chain has not failed, and
    /// not every fixer has run.
    pub open spec fn is_pending(&self) -> bool {
        self.failure() is None && self.finished() < self.fixers().len()
    }

    /// The chain of `fixers` for the file of `request`, before any fixer
    /// has run.
    pub fn start(request: FixRequest, fixers: Vec<usize>) -> (chain: FixerChain)
        ensures
            chain.fixers() == fixers@,
            chain.finished() == 0,
            chain.current_path() == request.file_path@,
            chain.failure() is None,
    {
        FixerChain { fixers, done: 0, file_path: request.file_path, error: None }
    }

    /// What is to be done next: nothing more after a failure or after the
    /// last fixer, else the next fixer on the file as it is now.
    pub fn next(&self) -> (step: FixStep)
        ensures
            match step {
                FixStep::Aborted { error } => self.failure() == Some(error@),
                FixStep::Done { file_path } => self.failure() is None && self.finished()
                    == self.fixers().len() && file_path@ == self.current_path(),
                FixStep::Run { fixer, file_path } => self.failure() is None && self.finished()
                    < self.fixers().len() && fixer == self.fixers()[self.finished()] && file_path@
                    == self.current_path(),
            },
    {
        proof {
            use_type_invariant(self);
        }
        match &self.error {
            Some(e) => FixStep::Aborted { error: e.clone() },
            None => {
                if self.done < self.fixers.len() {
                    FixStep::Run { fixer: self.fixers[self.done], file_path: self.file_path.clone() }
                } else {
                    FixStep::Done { file_path: self.file_path.clone() }
                }
            },
        }
    }

    /// Takes in what the fixer that was run returned. A fixed file becomes
    /// the file of the chain, whether it is the one that was handed in or a
    /// replacement; a failure stops the chain. Where no fixer was waiting to
    /// be run, nothing changes.
    pub fn record(&mut self, outcome: Result<FixResult, String>)
        ensures
            final(self).fixers() == old(self).fixers(),
            old(self).is_pending() ==> match outcome {
                Ok(fixed) => {
                    &&& final(self).failure() is None
                    &&& final(self).finished() == old(self).finished() + 1
                    &&& final(self).current_path() == fixed.file_path@
                },
                Err(error) => {
                    &&& final(self).failure() == Some(error@)
                    &&& final(self).finished() == old(self).finished()
                    &&& final(self).current_path() == old(self).current_path()
                },
            },
            !old(self).is_pending() ==> {
                &&& final(self).failure() == old(self).failure()
                &&& final(self).finished() == old(self).finished()
                &&& final(self).current_path() == old(self).current_path()
            },
    {
        proof {
            use_type_invariant(&*self);
        }
        if self.error.is_some() || self.done >= self.fixers.len() {
            return;
        }
        match outcome {
            Ok(fixed) => {
                let done = self.done + 1;
                self.file_path = fixed.file_path;
                self.done = done;
            },
            Err(error) => {
                self.error = Some(error);
            },
        }
    }
}

/// What the chain comes to when the fixers answer as given.
pub open spec fn chain_outcome(start: Seq<char>, outcomes: Seq<Result<FixResult, String>>) -> Result<
    Seq<char>,
    Seq<char>,
>
    decreases outcomes.len(),
{
    if outcomes.len() == 0 {
        Ok(start)
    } else {
        match chain_outcome(start, outcomes.drop_last()) {
            Err(error) => Err(error),
            Ok(path) => match outcomes.last() {
                Ok(fixed) => Ok(fixed.file_path@),
                Err(error) => Err(error@),
            },
        }
    }
}

/// Runs a chain over answers that are known beforehand: `outcomes` holds,
/// for each fixer in order, what it returns. The result is the path that
/// the last fixer returned, or the file as it was where there is no fixer;
/// the first failure ends the chain and is its result.
pub fn fix_file(request: FixRequest, outcomes: Vec<Result<FixResult, String>>) -> (result: Result<
    FixResult,
    String,
>)
    ensures
        match result {
            Ok(fixed) => chain_outcome(request.file_path@, outcomes@) == Ok::<Seq<char>, Seq<char>>(
                fixed.file_path@,
            ),
            Err(error) => chain_outcome(request.file_path@, outcomes@) == Err::<Seq<char>, Seq<char>>(
                error@,
            ),
        },
{
    let mut file_path = request.file_path;
    let mut i: usize = 0;
    assert(outcomes@.take(0) == Seq::<Result<FixResult, String>>::empty());
    while i < outcomes.len()
        invariant
            i <= outcomes.len(),
            chain_outcome(request.file_path@, outcomes@.take(i as int)) == Ok::<Seq<char>, Seq<char>>(
                file_path@,
            ),
        decreases outcomes.len() - i,
    {
        proof {
            assert(outcomes@.take(i + 1).drop_last() == outcomes@.take(i as int));
            assert(outcomes@.take(i + 1).last() == outcomes@[i as int]);
        }
        match &outcomes[i] {
            Ok(fixed) => {
                file_path = fixed.file_path.clone();
            },
            Err(error) => {
                proof {
                    lemma_failure_is_final(request.file_path@, outcomes@, i + 1);
                }
                return Err(error.clone());
            },
        }
        i += 1;
    }
    proof {
        assert(outcomes@.take(outcomes.len() as int) == outcomes@);
    }
    Ok(FixResult { file_path })
}

/// Once the chain has failed, what the later fixers would have returned
/// changes nothing.
pub proof fn lemma_failure_is_final(start: Seq<char>, outcomes: Seq<Result<FixResult, String>>, n: int)
    requires
        0 <= n <= outcomes.len(),
        chain_outcome(start, outcomes.take(n)) is Err,
    ensures
        chain_outcome(start, outcomes) == chain_outcome(start, outcomes.take(n)),
    decreases outcomes.len() - n,
{
    if n < outcomes.len() {
        assert(outcomes.take(n + 1).drop_last() == outcomes.take(n));
        lemma_failure_is_final(start, outcomes, n + 1);
    } else {
        assert(outcomes.take(n) == outcomes);
    }
}

/// Where every fixer succeeds, the file ends up where the last fixer put
/// it: not where it was at first, and not where an earlier fixer left it,
/// unless the last fixer returned that very path.
pub proof fn law_last_fixer_decides(start: Seq<char>, outcomes: Seq<Result<FixResult, String>>)
    requires
        outcomes.len() > 0,
        forall|i: int| 0 <= i < outcomes.len() ==> (#[trigger] outcomes[i]) is Ok,
    ensures
        chain_outcome(start, outcomes) == Ok::<Seq<char>, Seq<char>>(
            outcomes.last()->Ok_0.file_path@,
        ),
    decreases outcomes.len(),
{
    let before = outcomes.drop_last();
    assert(outcomes.last() == outcomes[outcomes.len() - 1]);
    assert(outcomes.last() is Ok);
    if outcomes.len() > 1 {
        assert forall|i: int| 0 <= i < before.len() implies (#[trigger] before[i]) is Ok by {
            assert(before[i] == outcomes[i]);
        }
        law_last_fixer_decides(start, before);
        assert(chain_outcome(start, before) is Ok);
    } else {
        assert(before.len() == 0);
        assert(chain_outcome(start, before) is Ok);
    }
}

/// The place of the last `c` in `s`, or `-1` where it holds none.
pub open spec fn last_position(s: Seq<char>, c: char) -> int
    decreases s.len(),
{
    if s.len() == 0 {
        -1
    } else if s.last() == c {
        s.len() - 1
    } else {
        last_position(s.drop_last(), c)
    }
}

/// `last_position` is the greatest index that holds `c`.
pub proof fn lemma_last_position(s: Seq<char>, c: char)
    ensures
        -1 <= last_position(s, c) < s.len(),
        last_position(s, c) >= 0 ==> s[last_position(s, c)] == c,
        forall|j: int| last_position(s, c) < j < s.len() ==> s[j] != c,
    decreases s.len(),
{
    if s.len() > 0 && s.last() != c {
        lemma_last_position(s.drop_last(), c);
        assert forall|j: int| last_position(s, c) < j < s.len() implies s[j] != c by {
            if j < s.len() - 1 {
                assert(s[j] == s.drop_last()[j]);
            }
        }
    }
}

/// An index that holds `c` and has no `c` behind it is the last position
/// of `c`; and where nothing holds `c`, that is `-1`.
pub proof fn lemma_last_position_is(s: Seq<char>, c: char, p: int)
    requires
        -1 <= p < s.len(),
        p >= 0 ==> s[p] == c,
        forall|j: int| p < j < s.len() ==> s[j] != c,
    ensures
        last_position(s, c) == p,
{
    lemma_last_position(s, c);
    let q = last_position(s, c);
    if q > p {
        assert(s[q] != c);
    }
    if p > q {
        assert(s[p] != c);
    }
}

/// Whether `extension` can be the extension of a file name: it holds no
/// point and no slash.
pub open spec fn is_plain_extension(extension: Seq<char>) -> bool {
    forall|i: int| 0 <= i < extension.len() ==> extension[i] != '.' && extension[i] != '/'
}

/// The fixer of extensions changes a file at most once: on the path that it
/// returns, it returns that path again.
pub proof fn law_normalizing_twice_is_normalizing_once(path: Seq<char>, extension: Seq<char>)
    requires
        is_plain_extension(extension),
    ensures
        normalized_path(normalized_path(path, Some(extension)), Some(extension)) == normalized_path(
            path,
            Some(extension),
        ),
{
    let once = normalized_path(path, Some(extension));
    if once != path {
        let slash = last_position(path, '/');
        let name_start = slash + 1;
        let name = path.skip(name_start);
        let start = extension_start(path);
        lemma_last_position(path, '/');
        lemma_last_position(name, '.');
        assert(name.len() > 0);
        assert(name_start < start <= path.len());
        assert(once == path.take(start) + seq!['.'] + extension);
        assert(once.len() == start + 1 + extension.len());
        assert forall|j: int| slash < j < once.len() implies once[j] != '/' by {
            if j < start {
                assert(once[j] == path[j]);
            } else if j > start {
                assert(once[j] == extension[j - start - 1]);
            }
        }
        if slash >= 0 {
            assert(once[slash] == path[slash]);
        }
        lemma_last_position_is(once, '/', slash);
        let new_name = once.skip(name_start);
        assert(new_name[start - name_start] == '.');
        assert forall|j: int| start - name_start < j < new_name.len() implies new_name[j] != '.' by {
            assert(new_name[j] == extension[j - (start - name_start) - 1]);
        }
        lemma_last_position_is(new_name, '.', start - name_start);
        assert(extension_start(once) == start);
        assert(once.skip(start + 1) == extension);
        assert(extension_of(once) == extension);
    }
}

/// The file name in a path: what follows the last `/`.
pub open spec fn file_name(path: Seq<char>) -> Seq<char> {
    path.skip(last_position(path, '/') + 1)
}

/// Where the extension of the file name in `path` begins, the point
/// included: at the last point of the file name, unless the name has no
/// point or only one at its front; then at the end of the path.
pub open spec fn extension_start(path: Seq<char>) -> int {
    let name_start = last_position(path, '/') + 1;
    let point = last_position(path.skip(name_start), '.');
    if point <= 0 {
        path.len() as int
    } else {
        name_start + point
    }
}

/// The extension of the file name in `path`, without the point; empty
/// where it has none.
pub open spec fn extension_of(path: Seq<char>) -> Seq<char> {
    let start = extension_start(path);
    if start < path.len() {
        path.skip(start + 1)
    } else {
        Seq::empty()
    }
}

/// The path of the file under the extension that its content calls for:
/// the path itself where it has that extension already, where it names no
/// file, or where nothing was detected; else the path with the detected
/// extension in place of its own.
pub open spec fn normalized_path(path: Seq<char>, detected: Option<Seq<char>>) -> Seq<char> {
    match detected {
        None => path,
        Some(extension) => if file_name(path).len() == 0 || extension_of(path) == extension {
            path
        } else {
            path.take(extension_start(path)) + seq!['.'] + extension
        },
    }
}

/// Finds the last `c` in `v`.
fn find_last_char(v: &Vec<char>, c: char) -> (at: Option<usize>)
    ensures
        match at {
            Some(i) => last_position(v@, c) == i && i < v.len(),
            None => last_position(v@, c) == -1,
        },
{
    let mut i: usize = v.len();
    assert(v@.take(v.len() as int) == v@);
    while i > 0
        invariant
            i <= v.len(),
            last_position(v@, c) == last_position(v@.take(i as int), c),
        decreases i,
    {
        i -= 1;
        proof {
            assert(v@.take(i + 1).last() == v@[i as int]);
            assert(v@.take(i + 1).drop_last() == v@.take(i as int));
        }
        if v[i] == c {
            return Some(i);
        }
    }
    None
}

/// The built-in fixer that sets the extension right: `detected` is the
/// extension that the content of the file calls for, if its type could be
/// told. The result is the path that the file should have; it is the path
/// that was given where nothing needs to change, so that running the fixer
/// on its own result changes nothing.
pub fn normalize_extension(path: &str, detected: Option<&str>) -> (fixed: String)
    ensures
        fixed@ == normalized_path(
            path@,
            match detected {
                Some(e) => Some(e@),
                None => None,
            },
        ),
{
    let chars = chars_of(path);
    let wanted = match detected {
        None => {
            return string_of(&chars);
        },
        Some(e) => chars_of(e),
    };
    let name_start = match find_last_char(&chars, '/') {
        Some(i) => i + 1,
        None => 0,
    };
    let name = slice_chars(&chars, name_start, chars.len());
    assert(chars@.subrange(name_start as int, chars.len() as int) == chars@.skip(name_start as int));
    if name.len() == 0 {
        return string_of(&chars);
    }
    let start = match find_last_char(&name, '.') {
        Some(p) => if p == 0 {
            chars.len()
        } else {
            name_start + p
        },
        None => chars.len(),
    };
    let current = if start < chars.len() {
        let e = slice_chars(&chars, start + 1, chars.len());
        assert(chars@.subrange(start + 1, chars.len() as int) == chars@.skip(start + 1));
        e
    } else {
        Vec::new()
    };
    if chars_equal(&current, &wanted) {
        return string_of(&chars);
    }
    let mut out = slice_chars(&chars, 0, start);
    assert(chars@.subrange(0, start as int) == chars@.take(start as int));
    out.push('.');
    push_all(&mut out, &wanted);
    string_of(&out)
}

} // verus!
