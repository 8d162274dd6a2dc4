//! Action options: a mapping from option names to typed scalars, read from
//! `key=value` tokens.

use vstd::prelude::*;
use crate::text::{
    chars_of, find_char, is_text, lemma_position, pieces, position, replace_char, replaced,
    slice_chars, split, split_chars, string_of, trim, trimmed,
};

verus! {

/// A decimal digit.
pub open spec fn is_digit(c: char) -> bool {
    '0' <= c && c <= '9'
}

/// A sign character.
pub open spec fn is_sign(c: char) -> bool {
    c == '+' || c == '-'
}

/// Whether `s` holds decimal digits only.
pub open spec fn all_digits(s: Seq<char>) -> bool {
    forall|i: int| 0 <= i < s.len() ==> is_digit(#[trigger] s[i])
}

/// `s` without a sign at its front.
pub open spec fn unsigned(s: Seq<char>) -> Seq<char> {
    if s.len() > 0 && is_sign(s[0]) {
        s.skip(1)
    } else {
        s
    }
}

/// A mantissa: digits with at most one point among them, and at least one
/// digit.
pub open spec fn is_mantissa(s: Seq<char>) -> bool {
    let p = position(s, '.');
    if p < s.len() {
        all_digits(s.take(p)) && all_digits(s.skip(p + 1)) && s.len() > 1
    } else {
        s.len() > 0 && all_digits(s)
    }
}

/// The value of an exponent: an optional sign and at least one digit.
pub open spec fn is_exponent_value(s: Seq<char>) -> bool {
    unsigned(s).len() > 0 && all_digits(unsigned(s))
}

/// The index of the first `e` or `E` in `s`, or the length of `s`.
pub open spec fn exponent_mark(s: Seq<char>) -> int {
    if position(s, 'e') <= position(s, 'E') {
        position(s, 'e')
    } else {
        position(s, 'E')
    }
}

/// A decimal number: a mantissa, and after it an exponent or nothing.
pub open spec fn is_number(s: Seq<char>) -> bool {
    let e = exponent_mark(s);
    if e < s.len() {
        is_mantissa(s.take(e)) && is_exponent_value(s.skip(e + 1))
    } else {
        is_mantissa(s)
    }
}

/// Whether `s` is a number in decimal notation, as the standard library
/// reads one: an optional sign, then a decimal number. The names that the
/// standard library also reads, for infinity and for what is no number, are
/// none.
pub open spec fn is_decimal_number(s: Seq<char>) -> bool {
    is_number(unsigned(s))
}

fn digits_only(v: &Vec<char>) -> (yes: bool)
    ensures
        yes == all_digits(v@),
{
    let mut i: usize = 0;
    while i < v.len()
        invariant
            i <= v.len(),
            forall|j: int| 0 <= j < i ==> is_digit(#[trigger] v@[j]),
        decreases v.len() - i,
    {
        let c = v[i];
        if !('0' <= c && c <= '9') {
            return false;
        }
        i += 1;
    }
    true
}

fn drop_sign(v: &Vec<char>) -> (out: Vec<char>)
    ensures
        out@ == unsigned(v@),
{
    if v.len() > 0 && (v[0] == '+' || v[0] == '-') {
        let out = slice_chars(v, 1, v.len());
        assert(v@.subrange(1, v.len() as int) == v@.skip(1));
        out
    } else {
        let out = slice_chars(v, 0, v.len());
        assert(v@.subrange(0, v.len() as int) == v@);
        out
    }
}

fn mantissa(v: &Vec<char>) -> (yes: bool)
    ensures
        yes == is_mantissa(v@),
{
    let p = find_char(v, '.');
    proof {
        lemma_position(v@, '.');
    }
    if p < v.len() {
        let whole = slice_chars(v, 0, p);
        let fraction = slice_chars(v, p + 1, v.len());
        assert(v@.subrange(0, p as int) == v@.take(p as int));
        assert(v@.subrange(p + 1, v.len() as int) == v@.skip(p + 1));
        digits_only(&whole) && digits_only(&fraction) && v.len() > 1
    } else {
        v.len() > 0 && digits_only(v)
    }
}

fn number(v: &Vec<char>) -> (yes: bool)
    ensures
        yes == is_number(v@),
{
    let lower = find_char(v, 'e');
    let upper = find_char(v, 'E');
    proof {
        lemma_position(v@, 'e');
        lemma_position(v@, 'E');
    }
    let e = if lower <= upper {
        lower
    } else {
        upper
    };
    if e < v.len() {
        let head = slice_chars(v, 0, e);
        let tail = slice_chars(v, e + 1, v.len());
        assert(v@.subrange(0, e as int) == v@.take(e as int));
        assert(v@.subrange(e + 1, v.len() as int) == v@.skip(e + 1));
        let digits = drop_sign(&tail);
        mantissa(&head) && digits.len() > 0 && digits_only(&digits)
    } else {
        mantissa(v)
    }
}

/// Tests whether `v` is a number in decimal notation.
pub fn decimal_number(v: &Vec<char>) -> (yes: bool)
    ensures
        yes == is_decimal_number(v@),
{
    let body = drop_sign(v);
    number(&body)
}

/// The value of an option: a flag, a number kept in its decimal notation,
/// or a string.
#[derive(Debug)]
pub enum OptionValue {
    Bool(bool),
    Number(String),
    Text(String),
}

/// An option value with its text as a sequence.
pub enum ValueModel {
    Bool(bool),
    Number(Seq<char>),
    Text(Seq<char>),
}

impl View for OptionValue {
    type V = ValueModel;

    open spec fn view(&self) -> ValueModel {
        match self {
            OptionValue::Bool(b) => ValueModel::Bool(*b),
            OptionValue::Number(n) => ValueModel::Number(n@),
            OptionValue::Text(t) => ValueModel::Text(t@),
        }
    }
}

impl OptionValue {
    /// A copy of this value.
    pub fn duplicate(&self) -> (copy: OptionValue)
        ensures
            copy@ == self@,
    {
        match self {
            OptionValue::Bool(b) => OptionValue::Bool(*b),
            OptionValue::Number(n) => OptionValue::Number(n.clone()),
            OptionValue::Text(t) => OptionValue::Text(t.clone()),
        }
    }
}

/// The name in a `key=value` token: what stands before the first `=`,
/// without the white space around it.
pub open spec fn option_key(token: Seq<char>) -> Seq<char> {
    trimmed(token.take(position(token, '=')))
}

/// The value text in a `key=value` token: what stands after the first `=`,
/// without the white space around it, and with each `+` read as a space. A
/// token without `=` has the empty value.
pub open spec fn option_value_text(token: Seq<char>) -> Seq<char> {
    let p = position(token, '=');
    let raw = if p < token.len() {
        token.skip(p + 1)
    } else {
        Seq::empty()
    };
    replaced(trimmed(raw), '+', ' ')
}

/// The typed value of a value text: no text and `true` are the flag set,
/// `false` is the flag cleared, a number in decimal notation is that
/// number, and anything else is a string.
pub open spec fn typed_value(text: Seq<char>) -> ValueModel {
    if text == ""@ || text == "true"@ || text == "TRUE"@ {
        ValueModel::Bool(true)
    } else if text == "false"@ || text == "FALSE"@ {
        ValueModel::Bool(false)
    } else if is_decimal_number(text) {
        ValueModel::Number(text)
    } else {
        ValueModel::Text(text)
    }
}

/// What a `key=value` token says: nothing where the name is empty, else the
/// name and the typed value.
pub open spec fn parsed_option(token: Seq<char>) -> Option<(Seq<char>, ValueModel)> {
    if option_key(token).len() == 0 {
        None
    } else {
        Some((option_key(token), typed_value(option_value_text(token))))
    }
}

/// What came out of a token, with its texts as sequences.
pub open spec fn option_model(parsed: Option<(String, OptionValue)>) -> Option<(Seq<char>, ValueModel)> {
    match parsed {
        Some((k, v)) => Some((k@, v@)),
        None => None,
    }
}

/// Reads one `key=value` token.
pub fn parse_option_chars(token: &Vec<char>) -> (parsed: Option<(String, OptionValue)>)
    ensures
        option_model(parsed) == parsed_option(token@),
{
    let p = find_char(token, '=');
    proof {
        lemma_position(token@, '=');
    }
    let raw_key = slice_chars(token, 0, p);
    assert(token@.subrange(0, p as int) == token@.take(p as int));
    let key = trim(&raw_key);
    if key.len() == 0 {
        return None;
    }
    let raw_value = if p < token.len() {
        let tail = slice_chars(token, p + 1, token.len());
        assert(token@.subrange(p + 1, token.len() as int) == token@.skip(p + 1));
        tail
    } else {
        Vec::new()
    };
    let text = replace_char(&trim(&raw_value), '+', ' ');
    let value = if is_text(&text, "") || is_text(&text, "true") || is_text(&text, "TRUE") {
        OptionValue::Bool(true)
    } else if is_text(&text, "false") || is_text(&text, "FALSE") {
        OptionValue::Bool(false)
    } else if decimal_number(&text) {
        OptionValue::Number(string_of(&text))
    } else {
        OptionValue::Text(string_of(&text))
    };
    Some((string_of(&key), value))
}

/// Reads one `key=value` token. A token with an empty name says nothing.
pub fn parse_option_string(s: &str) -> (parsed: Option<(String, OptionValue)>)
    ensures
        option_model(parsed) == parsed_option(s@),
{
    let token = chars_of(s);
    parse_option_chars(&token)
}

/// The mapping that a list of named values stands for: a later value for a
/// name replaces an earlier one.
pub open spec fn mapping_of(entries: Seq<(Seq<char>, ValueModel)>) -> Map<Seq<char>, ValueModel>
    decreases entries.len(),
{
    if entries.len() == 0 {
        Map::empty()
    } else {
        mapping_of(entries.drop_last()).insert(entries.last().0, entries.last().1)
    }
}

/// The named values in `entries`, with their texts as sequences.
pub open spec fn entry_models(entries: Seq<(String, OptionValue)>) -> Seq<(Seq<char>, ValueModel)> {
    entries.map_values(|e: (String, OptionValue)| (e.0@, e.1@))
}

/// The options given to an action: a mapping from names to typed values.
#[derive(Debug)]
pub struct ActionOptions {
    entries: Vec<(String, OptionValue)>,
}

impl View for ActionOptions {
    type V = Map<Seq<char>, ValueModel>;

    closed spec fn view(&self) -> Map<Seq<char>, ValueModel> {
        mapping_of(entry_models(self.entries@))
    }
}

impl ActionOptions {
    /// No options.
    pub fn new() -> (options: ActionOptions)
        ensures
            options@ == Map::<Seq<char>, ValueModel>::empty(),
    {
        ActionOptions { entries: Vec::new() }
    }

    /// Gives `key` the value `value`, in place of any value it had.
    pub fn insert(&mut self, key: String, value: OptionValue)
        ensures
            final(self)@ == old(self)@.insert(key@, value@),
    {
        let ghost before = entry_models(self.entries@);
        let ghost entry = (key@, value@);
        self.entries.push((key, value));
        proof {
            assert(entry_models(self.entries@) == before.push(entry));
            assert(before.push(entry).drop_last() == before);
        }
    }

    /// The value of `key`, if it has one.
    pub fn get(&self, key: &str) -> (found: Option<OptionValue>)
        ensures
            match found {
                Some(v) => self@.contains_key(key@) && self@[key@] == v@,
                None => !self@.contains_key(key@),
            },
    {
        let wanted = chars_of(key);
        let mut i: usize = self.entries.len();
        let ghost all = entry_models(self.entries@);
        proof {
            assert(all.take(all.len() as int) == all);
        }
        while i > 0
            invariant
                i <= self.entries.len(),
                all == entry_models(self.entries@),
                wanted@ == key@,
                mapping_of(all).contains_key(key@) <==> mapping_of(all.take(i as int)).contains_key(key@),
                mapping_of(all).contains_key(key@) ==> mapping_of(all)[key@] == mapping_of(
                    all.take(i as int),
                )[key@],
            decreases i,
        {
            i -= 1;
            let name = chars_of(self.entries[i].0.as_str());
            proof {
                assert(all.take(i + 1).drop_last() == all.take(i as int));
                assert(all.take(i + 1).last() == all[i as int]);
            }
            if crate::text::chars_equal(&name, &wanted) {
                return Some(self.entries[i].1.duplicate());
            }
        }
        None
    }

    /// Whether no option is set.
    pub fn is_empty(&self) -> (empty: bool)
        ensures
            empty == (self@ == Map::<Seq<char>, ValueModel>::empty()),
    {
        let empty = self.entries.len() == 0;
        proof {
            if !empty {
                let all = entry_models(self.entries@);
                assert(mapping_of(all).contains_key(all.last().0));
            }
        }
        empty
    }
}

/// The mapping that a list of tokens says: each token that says something
/// sets its name, a later one over an earlier one.
pub open spec fn collected(tokens: Seq<Seq<char>>) -> Map<Seq<char>, ValueModel>
    decreases tokens.len(),
{
    if tokens.len() == 0 {
        Map::empty()
    } else {
        let before = collected(tokens.drop_last());
        match parsed_option(tokens.last()) {
            Some((k, v)) => before.insert(k, v),
            None => before,
        }
    }
}

/// The options written in `text`: its `key=value` tokens, which single
/// spaces keep apart.
pub open spec fn options_in(text: Seq<char>) -> Map<Seq<char>, ValueModel> {
    collected(split(trimmed(text), ' '))
}

/// Reads the options written in `text`.
pub fn parse_options(text: &Vec<char>) -> (options: ActionOptions)
    ensures
        options@ == options_in(text@),
{
    let tokens = split_chars(&trim(text), ' ');
    let mut options = ActionOptions::new();
    let mut i: usize = 0;
    let ghost all = pieces(tokens@);
    while i < tokens.len()
        invariant
            i <= tokens.len(),
            all == pieces(tokens@),
            options@ == collected(all.take(i as int)),
        decreases tokens.len() - i,
    {
        proof {
            assert(all.take(i + 1).drop_last() == all.take(i as int));
            assert(all.take(i + 1).last() == tokens@[i as int]@);
        }
        match parse_option_chars(&tokens[i]) {
            Some((k, v)) => {
                options.insert(k, v);
            },
            None => {},
        }
        i += 1;
    }
    proof {
        assert(all.take(tokens.len() as int) == all);
    }
    options
}

} // verus!
