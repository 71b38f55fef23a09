//! The grammar of the `Link` header.
//!
//! A header value is a list of link-values separated by commas. A link-value
//! is a target between angle brackets, followed by parameters that are
//! separated by semicolons:
//!
//! ```text
//! <https://example.com/items?max_id=100>; rel="next", <https://example.com/items?min_id=101>; rel="prev"
//! ```
//!
//! Commas and semicolons inside a target or inside a quoted string separate
//! nothing. Of the parameters only the first `rel` is read; its value is a
//! list of relation types separated by spaces, and the library asks of it
//! whether `next` or `prev` is among them, letter for letter. A piece of the
//! header that is no link-value is passed over: nothing in a header is an
//! error of this grammar.
//!
//! All positions are indices into the characters of the header value, and a
//! range `lo..hi` is the characters from `lo` up to, not including, `hi`.
use vstd::prelude::*;
use crate::text::chars_of;

verus! {

/// One link-value of a `Link` header, as far as the library reads it.
#[derive(Clone, Debug)]
pub struct LinkValue {
    /// The target: the text between the angle brackets, without the spaces
    /// around it.
    pub link: String,
    /// Whether `next` is among the relation types.
    pub next: bool,
    /// Whether `prev` is among the relation types.
    pub prev: bool,
}

/// What a [`LinkValue`] stands for.
pub struct LinkEntry {
    pub target: Seq<char>,
    pub next: bool,
    pub prev: bool,
}

impl View for LinkValue {
    type V = LinkEntry;

    open spec fn view(&self) -> LinkEntry {
        LinkEntry { target: self.link@, next: self.next, prev: self.prev }
    }
}

/// The entries that a list of link-values stands for.
pub open spec fn entries_of(links: Seq<LinkValue>) -> Seq<LinkEntry> {
    links.map_values(|l: LinkValue| l@)
}

/// Where a scan stands: in plain text, inside a target, or inside a quoted
/// string.
#[derive(Clone, Copy, Debug)]
pub enum Scan {
    Plain,
    Target,
    Quoted,
}

/// The relation type `next`.
pub open spec fn rel_next() -> Seq<char> {
    seq!['n', 'e', 'x', 't']
}

/// The relation type `prev`.
pub open spec fn rel_prev() -> Seq<char> {
    seq!['p', 'r', 'e', 'v']
}

/// The name of the parameter that holds the relation types.
pub open spec fn param_rel() -> Seq<char> {
    seq!['r', 'e', 'l']
}

/// Whether `c` is a space or a tab.
pub open spec fn is_space(c: char) -> bool {
    c == ' ' || c == '\t'
}

/// Where a scan stands after the character `c`.
pub open spec fn scan_after(mode: Scan, c: char) -> Scan {
    match mode {
        Scan::Plain => if c == '<' {
            Scan::Target
        } else if c == '"' {
            Scan::Quoted
        } else {
            Scan::Plain
        },
        Scan::Target => if c == '>' {
            Scan::Plain
        } else {
            Scan::Target
        },
        Scan::Quoted => if c == '"' {
            Scan::Plain
        } else {
            Scan::Quoted
        },
    }
}

/// The first position in `lo..hi` that holds `c`; `hi` if there is none.
pub open spec fn find(s: Seq<char>, c: char, lo: int, hi: int) -> int
    decreases hi - lo,
{
    if lo >= hi {
        hi
    } else if s[lo] == c {
        lo
    } else {
        find(s, c, lo + 1, hi)
    }
}

/// The first position in `lo..hi` that holds the separator `c` in plain
/// text, for a scan that stands in `mode` at `lo`; `hi` if there is none.
pub open spec fn find_top(s: Seq<char>, c: char, lo: int, hi: int, mode: Scan) -> int
    decreases hi - lo,
{
    if lo >= hi {
        hi
    } else if mode is Plain && s[lo] == c {
        lo
    } else {
        find_top(s, c, lo + 1, hi, scan_after(mode, s[lo]))
    }
}

/// The first position in `lo..hi` that holds no space; `hi` if all are
/// spaces.
pub open spec fn trim_lo(s: Seq<char>, lo: int, hi: int) -> int
    decreases hi - lo,
{
    if lo < hi && is_space(s[lo]) {
        trim_lo(s, lo + 1, hi)
    } else {
        lo
    }
}

/// The position after the last character in `lo..hi` that is no space; `lo`
/// if all are spaces.
pub open spec fn trim_hi(s: Seq<char>, lo: int, hi: int) -> int
    decreases hi - lo,
{
    if lo < hi && is_space(s[hi - 1]) {
        trim_hi(s, lo, hi - 1)
    } else {
        hi
    }
}

/// The range `lo..hi` without the spaces at its two ends.
pub open spec fn trimmed(s: Seq<char>, lo: int, hi: int) -> (int, int) {
    (trim_lo(s, lo, hi), trim_hi(s, trim_lo(s, lo, hi), hi))
}

/// The range `lo..hi` without the double quotes around it, if it has them.
pub open spec fn unquoted(s: Seq<char>, lo: int, hi: int) -> (int, int) {
    if hi - lo >= 2 && s[lo] == '"' && s[hi - 1] == '"' {
        (lo + 1, hi - 1)
    } else {
        (lo, hi)
    }
}

/// Whether `word` stands at `at` in the list `lo..hi` of words separated by
/// spaces, as a whole word.
pub open spec fn word_at(s: Seq<char>, lo: int, hi: int, word: Seq<char>, at: int) -> bool {
    &&& lo <= at
    &&& at + word.len() <= hi
    &&& s.subrange(at, at + word.len()) == word
    &&& (at == lo || is_space(s[at - 1]))
    &&& (at + word.len() == hi || is_space(s[at + word.len()]))
}

/// Whether `word` is one of the words of the list `lo..hi`.
pub open spec fn has_word(s: Seq<char>, lo: int, hi: int, word: Seq<char>) -> bool {
    exists|at: int| word_at(s, lo, hi, word, at)
}

/// The value of the parameter `lo..hi`, if that parameter is `rel`: the range
/// behind its `=`, without the spaces and the quotes around it.
pub open spec fn rel_of_param(s: Seq<char>, lo: int, hi: int) -> Option<(int, int)> {
    let eq = find(s, '=', lo, hi);
    let name = trimmed(s, lo, eq);
    if eq < hi && s.subrange(name.0, name.1) == param_rel() {
        let value = trimmed(s, eq + 1, hi);
        Some(unquoted(s, value.0, value.1))
    } else {
        None
    }
}

/// The value of the first `rel` among the parameters `lo..hi`.
pub open spec fn rel_of_params(s: Seq<char>, lo: int, hi: int) -> Option<(int, int)>
    decreases hi - lo + 1,
    via rel_of_params_decreases
{
    if lo >= hi {
        None
    } else {
        let end = find_top(s, ';', lo, hi, Scan::Plain);
        match rel_of_param(s, lo, end) {
            Some(value) => Some(value),
            None => rel_of_params(s, end + 1, hi),
        }
    }
}

#[via_fn]
proof fn rel_of_params_decreases(s: Seq<char>, lo: int, hi: int) {
    if lo <= hi {
        lemma_find_top_bounds(s, ';', lo, hi, Scan::Plain);
    }
}

/// Whether `word` is among the relation types of the parameters `lo..hi`.
pub open spec fn has_relation(s: Seq<char>, lo: int, hi: int, word: Seq<char>) -> bool {
    match rel_of_params(s, lo, hi) {
        Some(value) => has_word(s, value.0, value.1, word),
        None => false,
    }
}

/// The link-value that the piece `lo..hi` of a header holds, if it is one: it
/// begins, after spaces, with a target in angle brackets.
pub open spec fn link_value(s: Seq<char>, lo: int, hi: int) -> Option<LinkEntry> {
    let open = trim_lo(s, lo, hi);
    let close = find(s, '>', open + 1, hi);
    if open < hi && s[open] == '<' && close < hi {
        let target = trimmed(s, open + 1, close);
        Some(
            LinkEntry {
                target: s.subrange(target.0, target.1),
                next: has_relation(s, close + 1, hi, rel_next()),
                prev: has_relation(s, close + 1, hi, rel_prev()),
            },
        )
    } else {
        None
    }
}

/// The link-values of the header `s` from the position `from` on, in the
/// order of the header.
pub open spec fn link_values_from(s: Seq<char>, from: int) -> Seq<LinkEntry>
    decreases s.len() - from + 1,
    via link_values_from_decreases
{
    if 0 <= from < s.len() {
        let end = find_top(s, ',', from, s.len() as int, Scan::Plain);
        let rest = link_values_from(s, end + 1);
        match link_value(s, from, end) {
            Some(entry) => seq![entry] + rest,
            None => rest,
        }
    } else {
        Seq::empty()
    }
}

#[via_fn]
proof fn link_values_from_decreases(s: Seq<char>, from: int) {
    if from <= s.len() {
        lemma_find_top_bounds(s, ',', from, s.len() as int, Scan::Plain);
    }
}

/// The link-values of the header value `s`, in the order of the header.
pub open spec fn link_values(s: Seq<char>) -> Seq<LinkEntry> {
    link_values_from(s, 0)
}

/// A separator is found within the range that was searched.
pub proof fn lemma_find_top_bounds(s: Seq<char>, c: char, lo: int, hi: int, mode: Scan)
    requires
        lo <= hi,
    ensures
        lo <= find_top(s, c, lo, hi, mode) <= hi,
    decreases hi - lo,
{
    if lo < hi && !(mode is Plain && s[lo] == c) {
        lemma_find_top_bounds(s, c, lo + 1, hi, scan_after(mode, s[lo]));
    }
}

fn is_space_char(c: char) -> (r: bool)
    ensures
        r == is_space(c),
{
    c == ' ' || c == '\t'
}

fn scan_step(mode: Scan, c: char) -> (r: Scan)
    ensures
        r == scan_after(mode, c),
{
    match mode {
        Scan::Plain => if c == '<' {
            Scan::Target
        } else if c == '"' {
            Scan::Quoted
        } else {
            Scan::Plain
        },
        Scan::Target => if c == '>' {
            Scan::Plain
        } else {
            Scan::Target
        },
        Scan::Quoted => if c == '"' {
            Scan::Plain
        } else {
            Scan::Quoted
        },
    }
}

fn find_char(s: &Vec<char>, c: char, lo: usize, hi: usize) -> (at: usize)
    requires
        lo <= hi <= s.len(),
    ensures
        at == find(s@, c, lo as int, hi as int),
        lo <= at <= hi,
{
    let mut i: usize = lo;
    while i < hi
        invariant
            lo <= i <= hi <= s.len(),
            find(s@, c, lo as int, hi as int) == find(s@, c, i as int, hi as int),
        decreases hi - i,
    {
        if s[i] == c {
            return i;
        }
        i += 1;
    }
    hi
}

fn find_separator(s: &Vec<char>, c: char, lo: usize, hi: usize) -> (at: usize)
    requires
        lo <= hi <= s.len(),
    ensures
        at == find_top(s@, c, lo as int, hi as int, Scan::Plain),
        lo <= at <= hi,
{
    let mut i: usize = lo;
    let mut mode = Scan::Plain;
    while i < hi
        invariant
            lo <= i <= hi <= s.len(),
            find_top(s@, c, lo as int, hi as int, Scan::Plain) == find_top(
                s@,
                c,
                i as int,
                hi as int,
                mode,
            ),
        decreases hi - i,
    {
        let found = match mode {
            Scan::Plain => s[i] == c,
            _ => false,
        };
        if found {
            return i;
        }
        mode = scan_step(mode, s[i]);
        i += 1;
    }
    hi
}

fn skip_spaces(s: &Vec<char>, lo: usize, hi: usize) -> (at: usize)
    requires
        lo <= hi <= s.len(),
    ensures
        at == trim_lo(s@, lo as int, hi as int),
        lo <= at <= hi,
{
    let mut i: usize = lo;
    while i < hi && is_space_char(s[i])
        invariant
            lo <= i <= hi <= s.len(),
            trim_lo(s@, lo as int, hi as int) == trim_lo(s@, i as int, hi as int),
        decreases hi - i,
    {
        i += 1;
    }
    i
}

fn drop_spaces(s: &Vec<char>, lo: usize, hi: usize) -> (at: usize)
    requires
        lo <= hi <= s.len(),
    ensures
        at == trim_hi(s@, lo as int, hi as int),
        lo <= at <= hi,
{
    let mut i: usize = hi;
    while lo < i && is_space_char(s[i - 1])
        invariant
            lo <= i <= hi <= s.len(),
            trim_hi(s@, lo as int, hi as int) == trim_hi(s@, lo as int, i as int),
        decreases i - lo,
    {
        i -= 1;
    }
    i
}

fn trim(s: &Vec<char>, lo: usize, hi: usize) -> (range: (usize, usize))
    requires
        lo <= hi <= s.len(),
    ensures
        (range.0 as int, range.1 as int) == trimmed(s@, lo as int, hi as int),
        lo <= range.0 <= range.1 <= hi,
{
    let a = skip_spaces(s, lo, hi);
    let b = drop_spaces(s, a, hi);
    (a, b)
}

fn unquote(s: &Vec<char>, lo: usize, hi: usize) -> (range: (usize, usize))
    requires
        lo <= hi <= s.len(),
    ensures
        (range.0 as int, range.1 as int) == unquoted(s@, lo as int, hi as int),
        lo <= range.0 <= range.1 <= hi,
{
    if hi - lo >= 2 && s[lo] == '"' && s[hi - 1] == '"' {
        (lo + 1, hi - 1)
    } else {
        (lo, hi)
    }
}

fn range_is(s: &Vec<char>, lo: usize, hi: usize, word: &Vec<char>) -> (r: bool)
    requires
        lo <= hi <= s.len(),
    ensures
        r == (s@.subrange(lo as int, hi as int) == word@),
{
    if hi - lo != word.len() {
        return false;
    }
    let mut k: usize = 0;
    while k < word.len()
        invariant
            lo <= hi <= s.len(),
            hi - lo == word.len(),
            k <= word.len(),
            forall|j: int| 0 <= j < k ==> s@[lo + j] == word@[j],
        decreases word.len() - k,
    {
        if s[lo + k] != word[k] {
            assert(s@.subrange(lo as int, hi as int)[k as int] != word@[k as int]);
            return false;
        }
        k += 1;
    }
    assert(s@.subrange(lo as int, hi as int) =~= word@);
    true
}

fn is_word_at(s: &Vec<char>, lo: usize, hi: usize, word: &Vec<char>, at: usize) -> (r: bool)
    requires
        lo <= at,
        at + word.len() <= hi <= s.len(),
    ensures
        r == word_at(s@, lo as int, hi as int, word@, at as int),
{
    let end: usize = at + word.len();
    range_is(s, at, end, word) && (at == lo || is_space_char(s[at - 1])) && (end == hi
        || is_space_char(s[end]))
}

fn contains_word(s: &Vec<char>, lo: usize, hi: usize, word: &Vec<char>) -> (r: bool)
    requires
        lo <= hi <= s.len(),
    ensures
        r == has_word(s@, lo as int, hi as int, word@),
{
    if hi - lo < word.len() {
        return false;
    }
    let last: usize = hi - word.len();
    let mut at: usize = lo;
    loop
        invariant
            lo <= at <= last,
            last + word.len() == hi <= s.len(),
            forall|j: int| lo <= j < at ==> !word_at(s@, lo as int, hi as int, word@, j),
        decreases last - at,
    {
        if is_word_at(s, lo, hi, word, at) {
            return true;
        }
        if at == last {
            return false;
        }
        at += 1;
    }
}

/// The value of the parameter `lo..hi`, where that parameter is `rel`.
fn relation_of_param(s: &Vec<char>, lo: usize, hi: usize) -> (value: Option<(usize, usize)>)
    requires
        lo <= hi <= s.len(),
    ensures
        match value {
            Some(v) => rel_of_param(s@, lo as int, hi as int) == Some((v.0 as int, v.1 as int))
                && lo <= v.0 <= v.1 <= hi,
            None => rel_of_param(s@, lo as int, hi as int) is None,
        },
{
    let eq = find_char(s, '=', lo, hi);
    let name = trim(s, lo, eq);
    let rel: Vec<char> = vec!['r', 'e', 'l'];
    assert(rel@ =~= param_rel());
    if eq < hi && range_is(s, name.0, name.1, &rel) {
        let value = trim(s, eq + 1, hi);
        Some(unquote(s, value.0, value.1))
    } else {
        None
    }
}

/// The value of the first `rel` among the parameters `lo..hi`.
fn relation_of_params(s: &Vec<char>, lo: usize, hi: usize) -> (value: Option<(usize, usize)>)
    requires
        lo <= hi <= s.len(),
    ensures
        match value {
            Some(v) => rel_of_params(s@, lo as int, hi as int) == Some((v.0 as int, v.1 as int))
                && lo <= v.0 <= v.1 <= hi,
            None => rel_of_params(s@, lo as int, hi as int) is None,
        },
{
    let mut from: usize = lo;
    while from < hi
        invariant
            lo <= from <= hi <= s.len(),
            rel_of_params(s@, lo as int, hi as int) == rel_of_params(s@, from as int, hi as int),
        decreases hi - from,
    {
        let end = find_separator(s, ';', from, hi);
        match relation_of_param(s, from, end) {
            Some(value) => {
                return Some(value);
            },
            None => {
                if end == hi {
                    assert(rel_of_params(s@, hi as int + 1, hi as int) is None);
                    return None;
                }
                from = end + 1;
            },
        }
    }
    None
}

fn relation_among(s: &Vec<char>, lo: usize, hi: usize, word: &Vec<char>) -> (r: bool)
    requires
        lo <= hi <= s.len(),
    ensures
        r == has_relation(s@, lo as int, hi as int, word@),
{
    match relation_of_params(s, lo, hi) {
        Some(value) => contains_word(s, value.0, value.1, word),
        None => false,
    }
}

/// The link-value that the piece `lo..hi` of the header `value` holds, if it
/// is one. `s` holds the characters of `value`.
fn read_link_value(value: &str, s: &Vec<char>, lo: usize, hi: usize) -> (link: Option<LinkValue>)
    requires
        s@ == value@,
        lo <= hi <= s.len(),
    ensures
        match link {
            Some(l) => link_value(s@, lo as int, hi as int) == Some(l@),
            None => link_value(s@, lo as int, hi as int) is None,
        },
{
    let open = skip_spaces(s, lo, hi);
    if open < hi && s[open] == '<' {
        let close = find_char(s, '>', open + 1, hi);
        if close < hi {
            let target = trim(s, open + 1, close);
            let next: Vec<char> = vec!['n', 'e', 'x', 't'];
            let prev: Vec<char> = vec!['p', 'r', 'e', 'v'];
            assert(next@ =~= rel_next());
            assert(prev@ =~= rel_prev());
            return Some(
                LinkValue {
                    link: value.substring_char(target.0, target.1).to_owned(),
                    next: relation_among(s, close + 1, hi, &next),
                    prev: relation_among(s, close + 1, hi, &prev),
                },
            );
        }
    }
    None
}

/// Reads the value of one `Link` header.
///
/// The result holds the link-values of the header in their order, each with
/// its target and with whether `next` and `prev` are among its relation
/// types. What is no link-value is passed over, so every text has a reading.
pub fn parse_link_header(value: &str) -> (links: Vec<LinkValue>)
    ensures
        entries_of(links@) == link_values(value@),
{
    let s = chars_of(value);
    let n: usize = s.len();
    let mut links: Vec<LinkValue> = Vec::new();
    let mut from: usize = 0;
    assert(entries_of(links@) =~= Seq::<LinkEntry>::empty());
    while from < n
        invariant
            s@ == value@,
            n == s.len(),
            from <= n,
            entries_of(links@) + link_values_from(s@, from as int) == link_values(s@),
        decreases n - from,
    {
        let end = find_separator(&s, ',', from, n);
        let ghost before = links@;
        match read_link_value(value, &s, from, end) {
            Some(link) => {
                links.push(link);
                assert(entries_of(links@) =~= entries_of(before) + seq![link@]);
            },
            None => {},
        }
        assert(entries_of(links@) + link_values_from(s@, end as int + 1) =~= link_values(s@));
        if end == n {
            assert(link_values_from(s@, n as int + 1) =~= Seq::<LinkEntry>::empty());
            assert(entries_of(links@) =~= link_values(s@));
            return links;
        }
        from = end + 1;
    }
    assert(link_values_from(s@, from as int) =~= Seq::<LinkEntry>::empty());
    assert(entries_of(links@) =~= link_values(s@));
    links
}

} // verus!
