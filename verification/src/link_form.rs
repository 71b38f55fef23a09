//! Headers of the usual form, and what the grammar makes of them.
//!
//! A server writes a link-value as `<target>; rel="type"` and puts `, `
//! between two of them. This module shows that the grammar of
//! [`crate::link`] reads every such header as the links that it was written
//! from, in their order.
use vstd::prelude::*;
use crate::link::{
    find, find_top, has_relation, has_word, is_space, link_value, link_values, link_values_from,
    param_rel, rel_next, rel_of_param, rel_of_params, rel_prev, scan_after, trim_hi, trim_lo,
    trimmed, unquoted, word_at, LinkEntry, Scan,
};

verus! {

/// A link as a server writes it: its target and its relation type.
pub struct PlainLink {
    pub target: Seq<char>,
    pub rel: Seq<char>,
}

impl PlainLink {
    /// The target holds no `>` and neither begins nor ends with a space, and
    /// the relation type is one word without a quote.
    pub open spec fn wf(self) -> bool {
        &&& forall|i: int| 0 <= i < self.target.len() ==> #[trigger] self.target[i] != '>'
        &&& self.target.len() > 0 ==> !is_space(self.target.first()) && !is_space(
            self.target.last(),
        )
        &&& forall|i: int|
            0 <= i < self.rel.len() ==> #[trigger] self.rel[i] != '"' && !is_space(self.rel[i])
    }

    /// The link-value as it is written: `<target>; rel="type"`.
    pub open spec fn text(self) -> Seq<char> {
        seq!['<'] + self.target + seq!['>', ';', ' ', 'r', 'e', 'l', '=', '"'] + self.rel
            + seq!['"']
    }

    /// What the link is read as.
    pub open spec fn entry(self) -> LinkEntry {
        LinkEntry {
            target: self.target,
            next: self.rel == rel_next(),
            prev: self.rel == rel_prev(),
        }
    }
}

/// The header that holds the links in this order, with `, ` between each two
/// of them.
pub open spec fn plain_header(links: Seq<PlainLink>) -> Seq<char>
    decreases links.len(),
{
    if links.len() == 0 {
        Seq::empty()
    } else if links.len() == 1 {
        links[0].text()
    } else {
        links[0].text() + seq![',', ' '] + plain_header(links.drop_first())
    }
}

/// What the links are read as.
pub open spec fn plain_entries(links: Seq<PlainLink>) -> Seq<LinkEntry> {
    links.map_values(|l: PlainLink| l.entry())
}

/// A character is found where it first stands.
proof fn lemma_find(s: Seq<char>, c: char, lo: int, at: int, hi: int)
    requires
        lo <= at <= hi,
        forall|i: int| lo <= i < at ==> s[i] != c,
        at < hi ==> s[at] == c,
    ensures
        find(s, c, lo, hi) == at,
    decreases at - lo,
{
    if lo < at {
        lemma_find(s, c, lo + 1, at, hi);
    }
}

/// A scan inside a target or a quoted string passes over what does not end
/// it.
proof fn lemma_find_top_inside(s: Seq<char>, c: char, lo: int, mid: int, hi: int, mode: Scan)
    requires
        lo <= mid <= hi,
        !(mode is Plain),
        forall|i: int| lo <= i < mid ==> scan_after(mode, #[trigger] s[i]) == mode,
    ensures
        find_top(s, c, lo, hi, mode) == find_top(s, c, mid, hi, mode),
    decreases mid - lo,
{
    if lo < mid {
        lemma_find_top_inside(s, c, lo + 1, mid, hi, mode);
    }
}

/// A scan in plain text passes over what is neither the separator nor the
/// beginning of a target or of a quoted string.
proof fn lemma_find_top_plain(s: Seq<char>, c: char, lo: int, mid: int, hi: int)
    requires
        lo <= mid <= hi,
        forall|i: int| lo <= i < mid ==> #[trigger] s[i] != c && s[i] != '<' && s[i] != '"',
    ensures
        find_top(s, c, lo, hi, Scan::Plain) == find_top(s, c, mid, hi, Scan::Plain),
    decreases mid - lo,
{
    if lo < mid {
        assert(s[lo] != c && s[lo] != '<' && s[lo] != '"');
        lemma_find_top_plain(s, c, lo + 1, mid, hi);
    }
}

/// A list of one word holds that word and no other.
proof fn lemma_single_word(s: Seq<char>, lo: int, hi: int, word: Seq<char>)
    requires
        0 <= lo <= hi <= s.len(),
        forall|i: int| lo <= i < hi ==> !is_space(#[trigger] s[i]),
    ensures
        has_word(s, lo, hi, word) == (s.subrange(lo, hi) == word),
{
    if s.subrange(lo, hi) == word {
        assert(word_at(s, lo, hi, word, lo));
    }
    if has_word(s, lo, hi, word) {
        let at = choose|at: int| word_at(s, lo, hi, word, at);
        if at != lo {
            assert(!is_space(s[at - 1]));
        }
        if at + word.len() != hi {
            assert(!is_space(s[at + word.len()]));
        }
    }
}

/// Spaces at the beginning of a range are passed over, up to the first
/// character that is none.
proof fn lemma_trim_lo(s: Seq<char>, lo: int, at: int, hi: int)
    requires
        lo <= at <= hi,
        forall|i: int| lo <= i < at ==> is_space(#[trigger] s[i]),
        at < hi ==> !is_space(s[at]),
    ensures
        trim_lo(s, lo, hi) == at,
    decreases at - lo,
{
    if lo < at {
        assert(is_space(s[lo]));
        lemma_trim_lo(s, lo + 1, at, hi);
    }
}

/// The characters of a link-value as it is written, one by one.
proof fn lemma_text_chars(link: PlainLink)
    ensures
        ({
            let n = link.target.len() as int;
            let m = link.rel.len() as int;
            let text = link.text();
            &&& text.len() == n + m + 10
            &&& text[0] == '<'
            &&& forall|j: int| 1 <= j <= n ==> #[trigger] text[j] == link.target[j - 1]
            &&& text[n + 1] == '>'
            &&& text[n + 2] == ';'
            &&& text[n + 3] == ' '
            &&& text[n + 4] == 'r'
            &&& text[n + 5] == 'e'
            &&& text[n + 6] == 'l'
            &&& text[n + 7] == '='
            &&& text[n + 8] == '"'
            &&& forall|j: int| n + 9 <= j < n + 9 + m ==> #[trigger] text[j] == link.rel[j - n - 9]
            &&& text[n + 9 + m] == '"'
        }),
{
    let n = link.target.len() as int;
    let head = seq!['<'] + link.target;
    let mid = seq!['>', ';', ' ', 'r', 'e', 'l', '=', '"'];
    let front = head + mid;
    let all = front + link.rel + seq!['"'];
    assert(all == link.text());
    assert(head.len() == n + 1);
    assert(front.len() == n + 9);
    assert forall|j: int| 1 <= j <= n implies #[trigger] all[j] == link.target[j - 1] by {
        assert(all[j] == front[j]);
        assert(front[j] == head[j]);
    }
    assert(all[0] == front[0] && front[0] == head[0]);
    assert forall|k: int| 0 <= k < 8 implies all[n + 1 + k] == mid[k] by {
        assert(all[n + 1 + k] == front[n + 1 + k]);
    }
    assert(all[n + 1] == mid[0]);
    assert(all[n + 2] == mid[1]);
    assert(all[n + 3] == mid[2]);
    assert(all[n + 4] == mid[3]);
    assert(all[n + 5] == mid[4]);
    assert(all[n + 6] == mid[5]);
    assert(all[n + 7] == mid[6]);
    assert(all[n + 8] == mid[7]);
}

/// The relation types of a link-value that stands at `base` in `s`, written
/// as it is usual: `word` is among them exactly if it is the one that was
/// written.
proof fn lemma_relation_at(s: Seq<char>, base: int, link: PlainLink, word: Seq<char>)
    requires
        link.wf(),
        0 <= base,
        base + link.text().len() <= s.len(),
        s.subrange(base, base + link.text().len()) == link.text(),
    ensures
        has_relation(s, base + link.target.len() + 2, base + link.text().len(), word) == (link.rel
            == word),
{
    let n = link.target.len() as int;
    let m = link.rel.len() as int;
    let text = link.text();
    let end = base + n + m + 10;
    lemma_text_chars(link);
    assert forall|j: int| 0 <= j < n + m + 10 implies s[base + j] == text[j] by {
        assert(s.subrange(base, end)[j] == s[base + j]);
    }
    let params = base + n + 2;
    let first = base + n + 3;
    let eq = base + n + 7;
    let quote = base + n + 8;
    let word_lo = base + n + 9;
    let word_hi = base + n + 9 + m;
    assert(s[params] == text[n + 2]);
    assert(s[first] == text[n + 3]);
    assert(s[base + n + 4] == text[n + 4]);
    assert(s[base + n + 5] == text[n + 5]);
    assert(s[base + n + 6] == text[n + 6]);
    assert(s[eq] == text[n + 7]);
    assert(s[quote] == text[n + 8]);
    assert(s[word_hi] == text[n + 9 + m]);
    assert forall|i: int| word_lo <= i < word_hi implies s[i] != '"' && !is_space(
        #[trigger] s[i],
    ) by {
        assert(s[i] == text[i - base]);
        assert(text[i - base] == link.rel[i - base - n - 9]);
    }

    // The first parameter is empty: the semicolon stands right behind the target.
    assert(find_top(s, ';', params, end, Scan::Plain) == params);
    assert(find(s, '=', params, params) == params);
    assert(rel_of_param(s, params, params) is None);

    // The second parameter runs up to the end of the link-value.
    assert(find_top(s, ';', first, end, Scan::Plain) == end) by {
        lemma_find_top_plain(s, ';', first, quote, end);
        assert(find_top(s, ';', quote, end, Scan::Plain) == find_top(
            s,
            ';',
            word_lo,
            end,
            Scan::Quoted,
        ));
        assert forall|i: int| word_lo <= i < word_hi implies scan_after(
            Scan::Quoted,
            #[trigger] s[i],
        ) == Scan::Quoted by {
            assert(s[i] != '"');
        }
        lemma_find_top_inside(s, ';', word_lo, word_hi, end, Scan::Quoted);
        assert(find_top(s, ';', word_hi, end, Scan::Quoted) == find_top(
            s,
            ';',
            end,
            end,
            Scan::Plain,
        ));
    }

    // It is the parameter `rel`, and its value is the word between the quotes.
    lemma_find(s, '=', first, eq, end);
    lemma_trim_lo(s, first, first + 1, eq);
    assert(trim_hi(s, first + 1, eq) == eq);
    assert(trimmed(s, first, eq) == (first + 1, eq));
    assert(s.subrange(first + 1, eq) =~= param_rel());
    lemma_trim_lo(s, quote, quote, end);
    assert(trim_hi(s, quote, end) == end);
    assert(trimmed(s, quote, end) == (quote, end));
    assert(unquoted(s, quote, end) == (word_lo, word_hi));
    assert(rel_of_param(s, first, end) == Some((word_lo, word_hi)));
    assert(rel_of_params(s, first, end) == Some((word_lo, word_hi)));
    assert(rel_of_params(s, params, end) == Some((word_lo, word_hi)));

    lemma_single_word(s, word_lo, word_hi, word);
    assert(s.subrange(word_lo, word_hi) =~= link.rel) by {
        assert forall|k: int| 0 <= k < m implies s.subrange(word_lo, word_hi)[k]
            == link.rel[k] by {
            assert(s[word_lo + k] == text[n + 9 + k]);
            assert(text[n + 9 + k] == link.rel[n + 9 + k - n - 9]);
        }
    }
}

/// A link-value that stands in `s` behind `pad` spaces from `from` on,
/// written as it is usual, is read as the link that was written, and the
/// search for the comma that ends it passes over it.
proof fn lemma_link_at(s: Seq<char>, from: int, pad: int, link: PlainLink)
    requires
        link.wf(),
        0 <= from,
        0 <= pad,
        from + pad + link.text().len() <= s.len(),
        forall|i: int| from <= i < from + pad ==> #[trigger] s[i] == ' ',
        s.subrange(from + pad, from + pad + link.text().len()) == link.text(),
    ensures
        link_value(s, from, from + pad + link.text().len()) == Some(link.entry()),
        find_top(s, ',', from, s.len() as int, Scan::Plain) == find_top(
            s,
            ',',
            from + pad + link.text().len(),
            s.len() as int,
            Scan::Plain,
        ),
{
    let n = link.target.len() as int;
    let m = link.rel.len() as int;
    let text = link.text();
    let base = from + pad;
    let end = base + n + m + 10;
    let len = s.len() as int;
    lemma_text_chars(link);
    assert forall|j: int| 0 <= j < n + m + 10 implies s[base + j] == text[j] by {
        assert(s.subrange(base, end)[j] == s[base + j]);
    }
    let close = base + n + 1;
    let quote = base + n + 8;
    let word_lo = base + n + 9;
    let word_hi = base + n + 9 + m;
    assert(s[base] == text[0]);
    assert(s[close] == text[n + 1]);
    assert(s[base + n + 2] == text[n + 2]);
    assert(s[base + n + 3] == text[n + 3]);
    assert(s[base + n + 4] == text[n + 4]);
    assert(s[base + n + 5] == text[n + 5]);
    assert(s[base + n + 6] == text[n + 6]);
    assert(s[base + n + 7] == text[n + 7]);
    assert(s[quote] == text[n + 8]);
    assert(s[word_hi] == text[n + 9 + m]);
    assert forall|i: int| base + 1 <= i < close implies #[trigger] s[i] == link.target[i - base
        - 1] by {
        assert(s[i] == text[i - base]);
    }
    assert forall|i: int| word_lo <= i < word_hi implies #[trigger] s[i] != '"' by {
        assert(s[i] == text[i - base]);
        assert(text[i - base] == link.rel[i - base - n - 9]);
    }

    // The comma that ends the link-value is searched for behind it.
    assert(find_top(s, ',', from, len, Scan::Plain) == find_top(s, ',', end, len, Scan::Plain))
        by {
        lemma_find_top_plain(s, ',', from, base, len);
        assert(find_top(s, ',', base, len, Scan::Plain) == find_top(
            s,
            ',',
            base + 1,
            len,
            Scan::Target,
        ));
        assert forall|i: int| base + 1 <= i < close implies scan_after(
            Scan::Target,
            #[trigger] s[i],
        ) == Scan::Target by {
            assert(s[i] == link.target[i - base - 1]);
        }
        lemma_find_top_inside(s, ',', base + 1, close, len, Scan::Target);
        assert(find_top(s, ',', close, len, Scan::Target) == find_top(
            s,
            ',',
            close + 1,
            len,
            Scan::Plain,
        ));
        lemma_find_top_plain(s, ',', close + 1, quote, len);
        assert(find_top(s, ',', quote, len, Scan::Plain) == find_top(
            s,
            ',',
            word_lo,
            len,
            Scan::Quoted,
        ));
        assert forall|i: int| word_lo <= i < word_hi implies scan_after(
            Scan::Quoted,
            #[trigger] s[i],
        ) == Scan::Quoted by {
            assert(s[i] != '"');
        }
        lemma_find_top_inside(s, ',', word_lo, word_hi, len, Scan::Quoted);
        assert(find_top(s, ',', word_hi, len, Scan::Quoted) == find_top(
            s,
            ',',
            end,
            len,
            Scan::Plain,
        ));
    }

    // The target stands between the angle brackets, as it was written.
    lemma_trim_lo(s, from, base, end);
    assert forall|i: int| base + 1 <= i < close implies s[i] != '>' by {
        assert(s[i] == link.target[i - base - 1]);
    }
    lemma_find(s, '>', base + 1, close, end);
    if n > 0 {
        assert(s[base + 1] == link.target[0]);
        assert(s[close - 1] == link.target[n - 1]);
    }
    assert(trim_lo(s, base + 1, close) == base + 1);
    assert(trim_hi(s, base + 1, close) == close);
    assert(trimmed(s, base + 1, close) == (base + 1, close));
    assert(s.subrange(base + 1, close) =~= link.target);

    // Its relation type is the one that was written.
    lemma_relation_at(s, base, link, rel_next());
    lemma_relation_at(s, base, link, rel_prev());
}

/// A header of the usual form that stands at the end of `s`, behind `pad`
/// spaces from `from` on, is read as the links that it was written from.
proof fn lemma_header_at(s: Seq<char>, from: int, pad: int, links: Seq<PlainLink>)
    requires
        links.len() > 0,
        forall|i: int| 0 <= i < links.len() ==> (#[trigger] links[i]).wf(),
        0 <= from,
        0 <= pad,
        from + pad + plain_header(links).len() == s.len(),
        forall|i: int| from <= i < from + pad ==> #[trigger] s[i] == ' ',
        s.subrange(from + pad, s.len() as int) == plain_header(links),
    ensures
        link_values_from(s, from) == plain_entries(links),
    decreases links.len(),
{
    let len = s.len() as int;
    let base = from + pad;
    let first = links[0];
    let text = first.text();
    let width = text.len() as int;
    let end = base + width;
    let header = plain_header(links);
    lemma_text_chars(first);
    assert(first.wf());
    if links.len() == 1 {
        lemma_link_at(s, from, pad, first);
        assert(find_top(s, ',', len, len, Scan::Plain) == len);
        assert(link_values_from(s, len + 1) =~= Seq::<LinkEntry>::empty());
        assert(link_values_from(s, from) =~= seq![first.entry()]);
        assert(plain_entries(links) =~= seq![first.entry()]);
    } else {
        let rest = links.drop_first();
        let tail = plain_header(rest);
        assert(header == text + seq![',', ' '] + tail);
        assert forall|j: int| 0 <= j < header.len() implies s[base + j] == header[j] by {
            assert(s.subrange(base, len)[j] == s[base + j]);
        }
        assert(s.subrange(base, end) =~= text) by {
            assert forall|j: int| 0 <= j < width implies s.subrange(base, end)[j]
                == text[j] by {
                assert(header[j] == text[j]);
            }
        }
        lemma_link_at(s, from, pad, first);
        assert(s[end] == header[width]);
        assert(header[width] == ',');
        assert(s[end + 1] == header[width + 1]);
        assert(header[width + 1] == ' ');
        assert(find_top(s, ',', end, len, Scan::Plain) == end);
        assert(s.subrange(end + 2, len) =~= tail) by {
            assert forall|j: int| 0 <= j < tail.len() implies s.subrange(end + 2, len)[j]
                == tail[j] by {
                assert(s[end + 2 + j] == header[width + 2 + j]);
            }
        }
        assert forall|i: int| 0 <= i < rest.len() implies (#[trigger] rest[i]).wf() by {
            assert(rest[i] == links[i + 1]);
        }
        lemma_header_at(s, end + 1, 1, rest);
        assert(link_values_from(s, from) =~= seq![first.entry()] + plain_entries(rest));
        assert(plain_entries(links) =~= seq![first.entry()] + plain_entries(rest)) by {
            assert forall|i: int| 1 <= i < links.len() implies plain_entries(links)[i]
                == plain_entries(rest)[i - 1] by {
                assert(rest[i - 1] == links[i]);
            }
        }
    }
}

/// A header of the usual form is read as the links that it was written
/// from, in their order: each with its target as it stands, and with the
/// relation `next` or `prev` exactly where that is the relation type that
/// was written, letter for letter.
pub proof fn plain_header_is_read(links: Seq<PlainLink>)
    requires
        forall|i: int| 0 <= i < links.len() ==> (#[trigger] links[i]).wf(),
    ensures
        link_values(plain_header(links)) == plain_entries(links),
{
    let header = plain_header(links);
    if links.len() == 0 {
        assert(link_values(header) =~= plain_entries(links));
    } else {
        assert(header.subrange(0, header.len() as int) =~= header);
        lemma_header_at(header, 0, 0, links);
    }
}

} // verus!
