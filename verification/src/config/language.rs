//! Language negotiation: the ranges that an `Accept-Language` header names,
//! and the choice among the languages the application speaks.

use crate::text::char_is_whitespace;
use crate::text::is_blank;
use crate::text::is_whitespace;
use crate::text::same_text;
use crate::text::text_is_blank;
use vstd::prelude::*;

verus! {

/// Index of the first `sep` at or after `from`, or the length of the text
/// where there is none.
pub open spec fn position_of(text: Seq<char>, sep: char, from: int) -> int
    decreases text.len() - from,
{
    if from < 0 || from >= text.len() {
        text.len() as int
    } else if text[from] == sep {
        from
    } else {
        position_of(text, sep, from + 1)
    }
}

/// The pieces between the separators of a text, empty ones included; a text
/// without separator is one piece.
pub open spec fn split_on(text: Seq<char>, sep: char) -> Seq<Seq<char>>
    decreases text.len(),
{
    let cut = position_of(text, sep, 0);
    if 0 <= cut < text.len() {
        seq![text.subrange(0, cut)] + split_on(text.subrange(cut + 1, text.len() as int), sep)
    } else {
        seq![text]
    }
}

/// A text without the white space it starts with.
pub open spec fn trim_start(text: Seq<char>) -> Seq<char>
    decreases text.len(),
{
    if text.len() > 0 && is_whitespace(text[0]) {
        trim_start(text.subrange(1, text.len() as int))
    } else {
        text
    }
}

/// A text without the white space it ends with.
pub open spec fn trim_end(text: Seq<char>) -> Seq<char>
    decreases text.len(),
{
    if text.len() > 0 && is_whitespace(text[text.len() - 1]) {
        trim_end(text.subrange(0, text.len() - 1))
    } else {
        text
    }
}

/// A text without the white space around it.
pub open spec fn trimmed(text: Seq<char>) -> Seq<char> {
    trim_end(trim_start(text))
}

/// The texts of a list of slices.
pub open spec fn slice_views(pieces: Seq<&str>) -> Seq<Seq<char>> {
    pieces.map_values(|p: &str| p@)
}

/// Finds the first `sep` in the text.
fn find_char(text: &str, sep: char) -> (cut: usize)
    ensures
        cut == position_of(text@, sep, 0),
        cut <= text@.len(),
{
    let n: usize = text.unicode_len();
    let mut i: usize = 0;
    while i < n
        invariant
            n == text@.len(),
            i <= n,
            position_of(text@, sep, 0) == position_of(text@, sep, i as int),
        decreases n - i,
    {
        if text.get_char(i) == sep {
            return i;
        }
        i = i + 1;
    }
    i
}

/// Splits a text at every `sep`.
pub fn split_text<'a>(text: &'a str, sep: char) -> (pieces: Vec<&'a str>)
    ensures
        slice_views(pieces@) == split_on(text@, sep),
    decreases text@.len(),
{
    let n: usize = text.unicode_len();
    let cut: usize = find_char(text, sep);
    if cut < n {
        let head: &'a str = text.substring_char(0, cut);
        let tail: &'a str = text.substring_char(cut + 1, n);
        let mut pieces = split_text(tail, sep);
        let ghost rest = slice_views(pieces@);
        pieces.insert(0, head);
        assert(slice_views(pieces@) =~= seq![head@] + rest);
        pieces
    } else {
        let mut pieces: Vec<&'a str> = Vec::new();
        pieces.push(text);
        assert(slice_views(pieces@) =~= seq![text@]);
        pieces
    }
}

/// Strips the white space a text starts with.
pub fn trim_text_start<'a>(text: &'a str) -> (rest: &'a str)
    ensures
        rest@ == trim_start(text@),
    decreases text@.len(),
{
    let n: usize = text.unicode_len();
    if n > 0 && char_is_whitespace(text.get_char(0)) {
        trim_text_start(text.substring_char(1, n))
    } else {
        text
    }
}

/// Strips the white space a text ends with.
pub fn trim_text_end<'a>(text: &'a str) -> (rest: &'a str)
    ensures
        rest@ == trim_end(text@),
    decreases text@.len(),
{
    let n: usize = text.unicode_len();
    if n > 0 && char_is_whitespace(text.get_char(n - 1)) {
        trim_text_end(text.substring_char(0, n - 1))
    } else {
        text
    }
}

/// Strips the white space around a text.
pub fn trim_text<'a>(text: &'a str) -> (rest: &'a str)
    ensures
        rest@ == trimmed(text@),
{
    trim_text_end(trim_text_start(text))
}

/// One entry of an `Accept-Language` header: a language tag, and the text
/// of its weight where the entry gives one.
pub struct LanguageRange {
    pub tag: String,
    pub quality: Option<String>,
}

pub struct LanguageRangeView {
    pub tag: Seq<char>,
    pub quality: Option<Seq<char>>,
}

impl View for LanguageRange {
    type V = LanguageRangeView;

    open spec fn view(&self) -> LanguageRangeView {
        LanguageRangeView { tag: self.tag@, quality: crate::text::text_of(self.quality) }
    }
}

/// Whether a parameter states a weight: it starts with `q=`.
pub open spec fn is_weight(parameter: Seq<char>) -> bool {
    parameter.len() >= 2 && parameter[0] == 'q' && parameter[1] == '='
}

/// The range that one entry of the header names. Its parts stand between
/// semicolons, white space around them not counting: the first is the tag,
/// the second gives the weight if it starts with `q=`.
pub open spec fn range_of(entry: Seq<char>) -> LanguageRangeView {
    let parts = split_on(entry, ';');
    LanguageRangeView {
        tag: trimmed(parts[0]),
        quality: if parts.len() > 1 && is_weight(trimmed(parts[1])) {
            Some(trimmed(parts[1]).subrange(2, trimmed(parts[1]).len() as int))
        } else {
            None
        },
    }
}

/// The ranges that a header names: one for each entry between commas, in
/// the order of the header.
pub open spec fn ranges_of(header: Seq<char>) -> Seq<LanguageRangeView> {
    split_on(header, ',').map_values(|entry: Seq<char>| range_of(entry))
}

/// The ranges of a list as mathematical values.
pub open spec fn range_views(ranges: Seq<LanguageRange>) -> Seq<LanguageRangeView> {
    ranges.map_values(|r: LanguageRange| r@)
}

proof fn split_on_is_not_empty(text: Seq<char>, sep: char)
    ensures
        split_on(text, sep).len() > 0,
{
}

/// Reads one entry of the header.
fn parse_range(entry: &str) -> (range: LanguageRange)
    ensures
        range@ == range_of(entry@),
{
    let parts = split_text(entry, ';');
    proof {
        split_on_is_not_empty(entry@, ';');
        assert(slice_views(parts@).len() == parts@.len());
        assert(slice_views(parts@)[0] == parts@[0]@);
    }
    let tag = String::from_str(trim_text(parts[0]));
    let mut quality: Option<String> = None;
    if parts.len() > 1 {
        assert(slice_views(parts@)[1] == parts@[1]@);
        let parameter = trim_text(parts[1]);
        let n: usize = parameter.unicode_len();
        if n >= 2 && parameter.get_char(0) == 'q' && parameter.get_char(1) == '=' {
            quality = Some(String::from_str(parameter.substring_char(2, n)));
        }
    }
    LanguageRange { tag, quality }
}

/// Reads the ranges of an `Accept-Language` header, in the order of the
/// header.
pub fn parse_accept_language(header: &str) -> (ranges: Vec<LanguageRange>)
    ensures
        range_views(ranges@) == ranges_of(header@),
{
    let entries = split_text(header, ',');
    let mut ranges: Vec<LanguageRange> = Vec::new();
    let mut i: usize = 0;
    while i < entries.len()
        invariant
            i <= entries@.len(),
            slice_views(entries@) == split_on(header@, ','),
            ranges@.len() == i,
            forall|k: int|
                0 <= k < i ==> #[trigger] range_views(ranges@)[k] == range_of(
                    split_on(header@, ',')[k],
                ),
        decreases entries@.len() - i,
    {
        assert(slice_views(entries@)[i as int] == entries@[i as int]@);
        let range = parse_range(entries[i]);
        let ghost before_push = range_views(ranges@);
        ranges.push(range);
        assert(range_views(ranges@) =~= before_push.push(range@));
        i = i + 1;
    }
    assert(slice_views(entries@).len() == entries@.len());
    assert(range_views(ranges@) =~= ranges_of(header@));
    ranges
}

/// The ranges that a request asks for: those of its header, none where the
/// header is missing or blank.
pub open spec fn accepted_ranges_of(header: Option<Seq<char>>) -> Seq<LanguageRangeView> {
    match header {
        Some(h) => if is_blank(h) {
            Seq::empty()
        } else {
            ranges_of(h)
        },
        None => Seq::empty(),
    }
}

/// Reads the ranges that a request asks for.
pub fn accepted_ranges(header: Option<&str>) -> (ranges: Vec<LanguageRange>)
    ensures
        range_views(ranges@) == accepted_ranges_of(
            match header {
                Some(h) => Some(h@),
                None => None,
            },
        ),
{
    match header {
        Some(h) => {
            if text_is_blank(h) {
                let ranges: Vec<LanguageRange> = Vec::new();
                assert(range_views(ranges@) =~= Seq::empty());
                ranges
            } else {
                parse_accept_language(h)
            }
        },
        None => {
            let ranges: Vec<LanguageRange> = Vec::new();
            assert(range_views(ranges@) =~= Seq::empty());
            ranges
        },
    }
}

/// The language that is spoken where a request asks for none that is.
pub const DEFAULT_LANGUAGE: &'static str = "en";

/// The languages the application speaks.
pub open spec fn is_allowed_language(language: Seq<char>) -> bool {
    ||| language == DEFAULT_LANGUAGE@
    ||| language == "ko"@
    ||| language == "de"@
    ||| language == "es"@
    ||| language == "fa"@
    ||| language == "pt"@
    ||| language == "ru"@
    ||| language == "tr"@
}

/// The first language at or after `from` that the application speaks, or
/// English where there is none.
pub open spec fn preferred_from(languages: Seq<Seq<char>>, from: int) -> Seq<char>
    decreases languages.len() - from,
{
    if from < 0 || from >= languages.len() {
        DEFAULT_LANGUAGE@
    } else if is_allowed_language(languages[from]) {
        languages[from]
    } else {
        preferred_from(languages, from + 1)
    }
}

/// The texts of a list of strings.
pub open spec fn string_views(texts: Seq<String>) -> Seq<Seq<char>> {
    texts.map_values(|t: String| t@)
}

/// Whether the application speaks a language.
pub fn language_is_allowed(language: &str) -> (r: bool)
    ensures
        r == is_allowed_language(language@),
{
    same_text(language, DEFAULT_LANGUAGE) || same_text(language, "ko") || same_text(language, "de")
        || same_text(language, "es") || same_text(language, "fa") || same_text(language, "pt")
        || same_text(language, "ru") || same_text(language, "tr")
}

/// Chooses among the languages a request asks for, in order of preference:
/// the first that the application speaks, or English.
pub fn get_preferred_language(languages: &Vec<String>) -> (language: String)
    ensures
        language@ == preferred_from(string_views(languages@), 0),
{
    let mut i: usize = 0;
    while i < languages.len()
        invariant
            i <= languages@.len(),
            preferred_from(string_views(languages@), 0) == preferred_from(
                string_views(languages@),
                i as int,
            ),
        decreases languages@.len() - i,
    {
        assert(string_views(languages@)[i as int] == languages@[i as int]@);
        if language_is_allowed(languages[i].as_str()) {
            return languages[i].clone();
        }
        i = i + 1;
    }
    String::from_str(DEFAULT_LANGUAGE)
}

} // verus!
