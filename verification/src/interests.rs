//! The interest picker.
//!
//! A fixed JSON document maps the key `interests` to a list of strings. One
//! run draws an index below `DRAW_LIMIT` and reports the index and the
//! interest that stands at it.
//!
//! The document is the literal held here; no file is read. The draw range is
//! fixed at `DRAW_LIMIT` and is not fitted to the list, which is shorter: a
//! draw at or past the end of the list is reported as
//! `PickError::OutOfBounds`, never answered with some other entry.

use rand::Rng;
use std::collections::BTreeMap;
use vstd::prelude::*;
use vstd::string::*;

verus! {

#[verifier::external_type_specification]
#[verifier::external_body]
pub struct ExJsonError(serde_json::Error);

/// Every draw is below this bound.
pub const DRAW_LIMIT: usize = 10;

/// What a run reports: the index drawn and the interest found there.
#[derive(Debug, PartialEq, Eq)]
pub struct Selection {
    pub index: usize,
    pub interest: String,
}

/// Why a run reports nothing.
#[derive(Debug, PartialEq, Eq)]
pub enum PickError {
    /// The document is not JSON, or not a mapping from keys to lists of
    /// strings.
    Malformed,
    /// The document has no key `interests`.
    MissingInterests,
    /// The index drawn is not below the length of the list.
    OutOfBounds { index: usize, len: usize },
}

/// A run's result as plain mathematical values.
pub enum Outcome {
    Picked { index: int, interest: Seq<char> },
    Malformed,
    MissingInterests,
    OutOfBounds { index: int, len: int },
}

/// What `serde_json::from_str` makes of `text` when asked for a mapping from
/// strings to lists of strings: the entries in the order of their keys, or
/// `None` where it reports an error.
pub uninterp spec fn parsed_lists(text: Seq<char>) -> Option<Seq<(Seq<char>, Seq<Seq<char>>)>>;

/// The strings of a list, each as its characters.
pub open spec fn texts(list: Seq<String>) -> Seq<Seq<char>> {
    Seq::new(list.len(), |i: int| list[i]@)
}

/// The entries of a document, each as its key and the strings under it.
pub open spec fn lists(doc: Seq<(String, Vec<String>)>) -> Seq<(Seq<char>, Seq<Seq<char>>)> {
    Seq::new(doc.len(), |i: int| (doc[i].0@, texts(doc[i].1@)))
}

/// The list under the first entry at or after `from` whose key is `key`.
pub open spec fn list_from(doc: Seq<(Seq<char>, Seq<Seq<char>>)>, key: Seq<char>, from: int)
    -> Option<Seq<Seq<char>>>
    decreases doc.len() - from,
{
    if from < 0 || from >= doc.len() {
        None
    } else if doc[from].0 == key {
        Some(doc[from].1)
    } else {
        list_from(doc, key, from + 1)
    }
}

/// The list under the first entry whose key is `key`.
pub open spec fn list_named(doc: Seq<(Seq<char>, Seq<Seq<char>>)>, key: Seq<char>) -> Option<
    Seq<Seq<char>>,
> {
    list_from(doc, key, 0)
}

/// What picking at `index` from `list` gives.
pub open spec fn selected(list: Seq<Seq<char>>, index: int) -> Outcome {
    if 0 <= index < list.len() {
        Outcome::Picked { index, interest: list[index] }
    } else {
        Outcome::OutOfBounds { index, len: list.len() as int }
    }
}

/// What a run gives for a parsed document and the index drawn.
pub open spec fn outcome(parsed: Option<Seq<(Seq<char>, Seq<Seq<char>>)>>, index: int) -> Outcome {
    match parsed {
        None => Outcome::Malformed,
        Some(doc) => match list_named(doc, "interests"@) {
            None => Outcome::MissingInterests,
            Some(list) => selected(list, index),
        },
    }
}

/// A result of this module as an `Outcome`.
pub open spec fn result_view(r: Result<Selection, PickError>) -> Outcome {
    match r {
        Ok(s) => Outcome::Picked { index: s.index as int, interest: s.interest@ },
        Err(PickError::Malformed) => Outcome::Malformed,
        Err(PickError::MissingInterests) => Outcome::MissingInterests,
        Err(PickError::OutOfBounds { index, len }) => Outcome::OutOfBounds {
            index: index as int,
            len: len as int,
        },
    }
}

/// The characters of the document.
pub open spec fn document_text() -> Seq<char> {
    "{
  \"interests\": [
    \"🍕 Pizza\",
    \"🖥 Programming\",
    \"🧠 Configuring Linux\",
    \"📚 Reading\"
  ]
}
"@
}

/// The document the picker reads.
pub fn document() -> (text: &'static str)
    ensures
        text@ == document_text(),
{
    "{
  \"interests\": [
    \"🍕 Pizza\",
    \"🖥 Programming\",
    \"🧠 Configuring Linux\",
    \"📚 Reading\"
  ]
}
"
}

/// The numeral for a single digit.
pub open spec fn digit_text(d: nat) -> Seq<char> {
    if d == 0 {
        "0"@
    } else if d == 1 {
        "1"@
    } else if d == 2 {
        "2"@
    } else if d == 3 {
        "3"@
    } else if d == 4 {
        "4"@
    } else if d == 5 {
        "5"@
    } else if d == 6 {
        "6"@
    } else if d == 7 {
        "7"@
    } else if d == 8 {
        "8"@
    } else {
        "9"@
    }
}

/// The decimal numeral of `n`, without sign or leading zeros.
pub open spec fn decimal_text(n: nat) -> Seq<char>
    decreases n,
{
    if n < 10 {
        digit_text(n)
    } else {
        decimal_text(n / 10) + digit_text(n % 10)
    }
}

/// The two lines a run prints for a selection: the index, then the interest
/// as it stands in the list.
pub open spec fn report(index: nat, interest: Seq<char>) -> Seq<Seq<char>> {
    seq![decimal_text(index), interest]
}

/// What a run has printed when it ends with `result`: both lines of a
/// selection; the index alone where it missed the list; nothing where no
/// index was looked up.
pub open spec fn printed_text(result: Outcome) -> Seq<Seq<char>> {
    match result {
        Outcome::Picked { index, interest } => report(index as nat, interest),
        Outcome::OutOfBounds { index, len } => seq![decimal_text(index as nat)],
        _ => Seq::empty(),
    }
}

/// Calls `serde_json::from_str` for a `BTreeMap<String, Vec<String>>` and
/// hands the entries out in the map's order. The contract only gives the
/// outcome its name, `parsed_lists`: parsing reads nothing but the text.
#[verifier::external_body]
fn parse_lists(text: &str) -> (r: Result<Vec<(String, Vec<String>)>, serde_json::Error>)
    ensures
        match r {
            Ok(doc) => parsed_lists(text@) == Some(lists(doc@)),
            Err(_) => parsed_lists(text@) is None,
        },
{
    match serde_json::from_str::<BTreeMap<String, Vec<String>>>(text) {
        Ok(map) => Ok(map.into_iter().collect()),
        Err(e) => Err(e),
    }
}

/// Calls `rand::Rng::gen_range` on `rand::thread_rng()`. The source promises
/// a value in the half-open range from `low` to `high`, and panics where the
/// range is empty, which `requires` rules out.
#[verifier::external_body]
fn draw_between(low: usize, high: usize) -> (n: usize)
    requires
        low < high,
    ensures
        low <= n < high,
{
    rand::thread_rng().gen_range(low, high)
}

fn digit(d: usize) -> (text: &'static str)
    requires
        d < 10,
    ensures
        text@ == digit_text(d as nat),
{
    if d == 0 {
        "0"
    } else if d == 1 {
        "1"
    } else if d == 2 {
        "2"
    } else if d == 3 {
        "3"
    } else if d == 4 {
        "4"
    } else if d == 5 {
        "5"
    } else if d == 6 {
        "6"
    } else if d == 7 {
        "7"
    } else if d == 8 {
        "8"
    } else {
        "9"
    }
}

/// Writes `n` as a decimal numeral.
pub fn decimal(n: usize) -> (text: String)
    ensures
        text@ == decimal_text(n as nat),
    decreases n,
{
    if n < 10 {
        String::from_str(digit(n))
    } else {
        decimal(n / 10).concat(digit(n % 10))
    }
}

impl Selection {
    /// The lines to print for this selection.
    pub fn lines(&self) -> (out: Vec<String>)
        ensures
            texts(out@) == report(self.index as nat, self.interest@),
    {
        let mut out: Vec<String> = Vec::new();
        out.push(decimal(self.index));
        out.push(self.interest.clone());
        assert(texts(out@) =~= report(self.index as nat, self.interest@));
        out
    }
}

/// The lines a run prints, in order, when it ends with `result`. The index
/// is printed as soon as it is drawn, so it is also there when the lookup
/// that follows fails.
pub fn printed(result: &Result<Selection, PickError>) -> (out: Vec<String>)
    ensures
        texts(out@) == printed_text(result_view(*result)),
{
    match result {
        Ok(selection) => selection.lines(),
        Err(PickError::OutOfBounds { index, len: _ }) => {
            let mut out: Vec<String> = Vec::new();
            out.push(decimal(*index));
            assert(texts(out@) =~= seq![decimal_text(*index as nat)]);
            out
        },
        Err(_) => {
            let out: Vec<String> = Vec::new();
            assert(texts(out@) =~= Seq::<Seq<char>>::empty());
            out
        },
    }
}

/// Finds the list under the first entry of `doc` whose key is `key`.
pub fn find_list<'a>(doc: &'a Vec<(String, Vec<String>)>, key: &str) -> (r: Option<
    &'a Vec<String>,
>)
    ensures
        match r {
            Some(list) => list_named(lists(doc@), key@) == Some(texts(list@)),
            None => list_named(lists(doc@), key@) is None,
        },
{
    let wanted = String::from_str(key);
    let mut n: usize = 0;
    while n < doc.len()
        invariant
            n <= doc@.len(),
            wanted@ == key@,
            list_named(lists(doc@), key@) == list_from(lists(doc@), key@, n as int),
        decreases doc@.len() - n,
    {
        if doc[n].0 == wanted {
            return Some(&doc[n].1);
        }
        n = n + 1;
    }
    None
}

/// Picks the interest at `index`, or says by how much the index misses the
/// list.
pub fn select(list: &Vec<String>, index: usize) -> (r: Result<Selection, PickError>)
    ensures
        result_view(r) == selected(texts(list@), index as int),
        r is Ok <==> index < list@.len(),
{
    if index < list.len() {
        Ok(Selection { index, interest: list[index].clone() })
    } else {
        Err(PickError::OutOfBounds { index, len: list.len() })
    }
}

/// The run on a document that was already parsed (`None` where parsing
/// failed) and an index that was already drawn.
pub fn pick_in(parsed: Option<Vec<(String, Vec<String>)>>, index: usize) -> (r: Result<
    Selection,
    PickError,
>)
    ensures
        result_view(r) == outcome(
            match parsed {
                Some(doc) => Some(lists(doc@)),
                None => None,
            },
            index as int,
        ),
{
    match parsed {
        None => Err(PickError::Malformed),
        Some(doc) => match find_list(&doc, "interests") {
            None => Err(PickError::MissingInterests),
            Some(list) => select(list, index),
        },
    }
}

/// Parses `text` and picks the interest at `index`.
pub fn pick_at(text: &str, index: usize) -> (r: Result<Selection, PickError>)
    ensures
        result_view(r) == outcome(parsed_lists(text@), index as int),
{
    let parsed = match parse_lists(text) {
        Ok(doc) => Some(doc),
        Err(_) => None,
    };
    pick_in(parsed, index)
}

/// One run of the picker: draws an index below `DRAW_LIMIT` and picks from
/// the document at it. Which index is drawn is left to chance; the result is
/// the one that `outcome` gives for it.
pub fn pick() -> (r: Result<Selection, PickError>)
    ensures
        exists|index: int|
            0 <= index < DRAW_LIMIT && result_view(r) == #[trigger] outcome(
                parsed_lists(document_text()),
                index,
            ),
{
    let index = draw_between(0, DRAW_LIMIT);
    pick_at(document(), index)
}

} // verus!
