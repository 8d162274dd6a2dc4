//! The arguments of the `act` and `fix` commands: which action or fixers
//! are meant, and with which options.

use vstd::prelude::*;
use crate::options::{options_in, parse_options, ActionOptions, ValueModel};
use crate::text::{
    chars_equal, chars_of, find_char, lemma_position, pieces, position, slice_chars, split,
    split_chars, string_of, trim, trimmed,
};

verus! {

/// Why the arguments of a command could not be read.
#[derive(Debug, Clone, Copy, PartialEq, Eq)]
pub enum CommandParseError {
    /// The named action is not among the available ones.
    UnknownAction,
}

impl CommandParseError {
    /// The text shown to the user.
    pub open spec fn text(self) -> Seq<char> {
        "Unknown action. Use /list_actions to see the available actions."@
    }

    /// The text shown to the user.
    pub fn message(&self) -> (text: String)
        ensures
            text@ == self.text(),
    {
        string_of(&chars_of("Unknown action. Use /list_actions to see the available actions."))
    }
}

/// The names in `names` as sequences.
pub open spec fn name_texts(names: Seq<String>) -> Seq<Seq<char>> {
    names.map_values(|n: String| n@)
}

/// Whether `at` is the first place in `names` that holds `name`.
pub open spec fn is_first_named(names: Seq<Seq<char>>, name: Seq<char>, at: int) -> bool {
    &&& 0 <= at < names.len()
    &&& names[at] == name
    &&& forall|j: int| 0 <= j < at ==> names[j] != name
}

/// Whether `at` is the last place in `names` that holds `name`.
pub open spec fn is_last_named(names: Seq<Seq<char>>, name: Seq<char>, at: int) -> bool {
    &&& 0 <= at < names.len()
    &&& names[at] == name
    &&& forall|j: int| at < j < names.len() ==> names[j] != name
}

/// Whether `names` holds `name` anywhere.
pub open spec fn is_named(names: Seq<Seq<char>>, name: Seq<char>) -> bool {
    exists|j: int| 0 <= j < names.len() && names[j] == name
}

/// The first place in `names` that holds `name`.
pub fn find_first_named(names: &Vec<String>, name: &Vec<char>) -> (found: Option<usize>)
    ensures
        match found {
            Some(at) => is_first_named(name_texts(names@), name@, at as int),
            None => !is_named(name_texts(names@), name@),
        },
{
    let mut i: usize = 0;
    while i < names.len()
        invariant
            i <= names.len(),
            forall|j: int| 0 <= j < i ==> name_texts(names@)[j] != name@,
        decreases names.len() - i,
    {
        let candidate = chars_of(names[i].as_str());
        if chars_equal(&candidate, name) {
            return Some(i);
        }
        i += 1;
    }
    None
}

/// The last place in `names` that holds `name`.
pub fn find_last_named(names: &Vec<String>, name: &Vec<char>) -> (found: Option<usize>)
    ensures
        match found {
            Some(at) => is_last_named(name_texts(names@), name@, at as int),
            None => !is_named(name_texts(names@), name@),
        },
{
    let mut i: usize = names.len();
    while i > 0
        invariant
            i <= names.len(),
            forall|j: int| i <= j < names.len() ==> name_texts(names@)[j] != name@,
        decreases i,
    {
        i -= 1;
        let candidate = chars_of(names[i].as_str());
        if chars_equal(&candidate, name) {
            return Some(i);
        }
    }
    None
}

/// The action named in the arguments of `act`: what stands before the first
/// space, without the white space around it.
pub open spec fn action_name(args: Seq<char>) -> Seq<char> {
    trimmed(args.take(position(args, ' ')))
}

/// The text of the options in the arguments of `act`: what stands after the
/// first space.
pub open spec fn action_options_text(args: Seq<char>) -> Seq<char> {
    let p = position(args, ' ');
    if p < args.len() {
        args.skip(p + 1)
    } else {
        Seq::empty()
    }
}

/// Reads the arguments of `act`: the name of an action, then its options.
///
/// `available` holds the names of the available actions, in registry order.
/// The result is the place of the first action of that name, with the
/// options that follow the name; where no action has that name, the
/// arguments are refused.
pub fn parse_action(args: &str, available: &Vec<String>) -> (parsed: Result<
    (usize, ActionOptions),
    CommandParseError,
>)
    ensures
        match parsed {
            Ok((at, options)) => {
                &&& is_first_named(name_texts(available@), action_name(args@), at as int)
                &&& options@ == options_in(action_options_text(args@))
            },
            Err(e) => {
                &&& !is_named(name_texts(available@), action_name(args@))
                &&& e == CommandParseError::UnknownAction
            },
        },
{
    let chars = chars_of(args);
    let p = find_char(&chars, ' ');
    proof {
        lemma_position(chars@, ' ');
    }
    let head = slice_chars(&chars, 0, p);
    assert(chars@.subrange(0, p as int) == chars@.take(p as int));
    let name = trim(&head);
    match find_first_named(available, &name) {
        Some(at) => {
            let tail = if p < chars.len() {
                let tail = slice_chars(&chars, p + 1, chars.len());
                assert(chars@.subrange(p + 1, chars.len() as int) == chars@.skip(p + 1));
                tail
            } else {
                Vec::new()
            };
            Ok((at, parse_options(&tail)))
        },
        None => Err(CommandParseError::UnknownAction),
    }
}

/// The fixer named by one token of the arguments of `fix`: the token
/// without the white space around it, up to its first `=`.
pub open spec fn fixer_name(token: Seq<char>) -> Seq<char> {
    trimmed(token).take(position(trimmed(token), '='))
}

/// The places of the fixers that `tokens` name, in the order of the tokens.
/// A token that is empty but for white space, or that names no fixer, adds
/// nothing. Where several fixers share a name, the last of them is meant.
pub open spec fn fixers_named(tokens: Seq<Seq<char>>, names: Seq<Seq<char>>) -> Seq<int>
    decreases tokens.len(),
{
    if tokens.len() == 0 {
        Seq::empty()
    } else {
        let before = fixers_named(tokens.drop_last(), names);
        let token = tokens.last();
        if trimmed(token).len() > 0 && is_named(names, fixer_name(token)) {
            before.push(choose|at: int| is_last_named(names, fixer_name(token), at))
        } else {
            before
        }
    }
}

/// The places in `v` as integers.
pub open spec fn places(v: Seq<usize>) -> Seq<int> {
    v.map_values(|at: usize| at as int)
}

/// Reads the arguments of `fix`: the names of fixers, which single spaces
/// keep apart, each with or without `=` and parameters behind it.
///
/// `available` holds the names of the available fixers, in registry order.
/// The result holds the place of each fixer that is named, in the order in
/// which the arguments name them; unknown names are passed over.
pub fn parse_fixers(args: &str, available: &Vec<String>) -> (chosen: Vec<usize>)
    ensures
        places(chosen@) == fixers_named(split(args@, ' '), name_texts(available@)),
        forall|k: int| 0 <= k < chosen.len() ==> (#[trigger] chosen@[k]) < available.len(),
{
    let chars = chars_of(args);
    let tokens = split_chars(&chars, ' ');
    let mut chosen: Vec<usize> = Vec::new();
    let mut i: usize = 0;
    let ghost all = pieces(tokens@);
    let ghost names = name_texts(available@);
    assert(places(chosen@) == fixers_named(all.take(0), names));
    while i < tokens.len()
        invariant
            i <= tokens.len(),
            all == pieces(tokens@),
            names == name_texts(available@),
            places(chosen@) == fixers_named(all.take(i as int), names),
            forall|k: int| 0 <= k < chosen.len() ==> (#[trigger] chosen@[k]) < available.len(),
        decreases tokens.len() - i,
    {
        proof {
            assert(all.take(i + 1).drop_last() == all.take(i as int));
            assert(all.take(i + 1).last() == tokens@[i as int]@);
        }
        let token = trim(&tokens[i]);
        if token.len() > 0 {
            let p = find_char(&token, '=');
            proof {
                lemma_position(token@, '=');
            }
            let name = slice_chars(&token, 0, p);
            assert(token@.subrange(0, p as int) == token@.take(p as int));
            match find_last_named(available, &name) {
                Some(at) => {
                    let ghost before = chosen@;
                    chosen.push(at);
                    proof {
                        let picked = choose|at: int| is_last_named(names, name@, at);
                        assert(is_last_named(names, name@, at as int));
                        assert(picked == at);
                        assert(places(chosen@) == places(before).push(at as int));
                    }
                },
                None => {},
            }
        }
        i += 1;
    }
    proof {
        assert(all.take(tokens.len() as int) == all);
    }
    chosen
}

} // verus!
