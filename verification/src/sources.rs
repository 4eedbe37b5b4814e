//! Sources cited by tool output. A tool names a source by answering with a
//! record of the exact form `{"url":"U","title":"T"}`, where `U` is not empty
//! and neither `U` nor `T` holds a double quote. Sources are kept in the order
//! first seen, one per URL.

use vstd::prelude::*;
use vstd::string::*;
use crate::model::{cites, distinct_urls, source_views, Source, SourceView};
use crate::text::{chars_of, find_from, find_within, lemma_find_from, matches_at, occurs_at};

verus! {

/// The characters `{"url":"` that open a source record.
pub open spec fn record_head() -> Seq<char> {
    seq!['{', '"', 'u', 'r', 'l', '"', ':', '"']
}

/// The characters `","title":"` between the URL and the title of a record.
pub open spec fn record_middle() -> Seq<char> {
    seq!['"', ',', '"', 't', 'i', 't', 'l', 'e', '"', ':', '"']
}

/// The characters `"}` that close a source record.
pub open spec fn record_tail() -> Seq<char> {
    seq!['"', '}']
}

/// No character of the sequence is a double quote.
pub open spec fn quote_free(s: Seq<char>) -> bool {
    forall|i: int| 0 <= i < s.len() ==> s[i] != '"'
}

/// Whether `text` is the record that names `source`.
pub open spec fn is_source_record(text: Seq<char>, source: SourceView) -> bool {
    &&& text == record_head() + source.url + record_middle() + source.title + record_tail()
    &&& source.url.len() > 0
    &&& quote_free(source.url)
    &&& quote_free(source.title)
}

/// The index just behind the URL of the record that names `source`.
spec fn url_end(source: SourceView) -> int {
    8 + (source.url.len() as int)
}

/// The index at which the title of the record that names `source` begins.
spec fn title_start(source: SourceView) -> int {
    19 + (source.url.len() as int)
}

/// The index just behind the title of the record that names `source`.
spec fn title_end(source: SourceView) -> int {
    19 + (source.url.len() as int) + (source.title.len() as int)
}

/// The source that a text names: the one whose record the text is, if it is
/// a record.
pub open spec fn source_named(text: Seq<char>) -> Option<SourceView> {
    if exists|v: SourceView| is_source_record(text, v) {
        Some(choose|v: SourceView| is_source_record(text, v))
    } else {
        None
    }
}

/// Where the parts of a record lie in its text.
proof fn lemma_record_layout(text: Seq<char>, source: SourceView)
    requires
        is_source_record(text, source),
    ensures
        text.len() == title_end(source) + 2,
        occurs_at(text, record_head(), 0),
        source.url == text.subrange(8, url_end(source)),
        occurs_at(text, record_middle(), url_end(source)),
        source.title == text.subrange(title_start(source), title_end(source)),
        occurs_at(text, record_tail(), title_end(source)),
        text[url_end(source)] == '"',
        text[title_end(source)] == '"',
        forall|j: int| 8 <= j < url_end(source) ==> text[j] != '"',
        forall|j: int| title_start(source) <= j < title_end(source) ==> text[j] != '"',
{
    let u = source.url.len() as int;
    let t = source.title.len() as int;
    assert(text.subrange(0, 8) =~= record_head());
    assert(text.subrange(8 + u, 8 + u + 11) =~= record_middle());
    assert(text.subrange(19 + u + t, 19 + u + t + 2) =~= record_tail());
}

/// The single double quote, as a needle.
spec fn quote() -> Seq<char> {
    seq!['"']
}

/// A quote stands at an index exactly when the character there is one.
proof fn lemma_quote_at(text: Seq<char>, at: int)
    requires
        0 <= at < text.len(),
    ensures
        occurs_at(text, quote(), at) == (text[at] == '"'),
{
    if text[at] == '"' {
        assert(text.subrange(at, at + 1) =~= quote());
    } else {
        assert(text.subrange(at, at + 1)[0] == text[at]);
    }
}

/// Where no quote stands in `[start, end)` and one stands at `end`, the
/// search from `start` finds `end`.
proof fn lemma_first_quote(text: Seq<char>, start: int, end: int)
    requires
        0 <= start <= end < text.len(),
        forall|j: int| start <= j < end ==> text[j] != '"',
        text[end] == '"',
    ensures
        find_from(text, quote(), start) == Some(end),
{
    lemma_find_from(text, quote(), start);
    lemma_quote_at(text, end);
    match find_from(text, quote(), start) {
        Some(at) => {
            if at < end {
                lemma_quote_at(text, at);
            }
        },
        None => {},
    }
}

/// In a record, the first quote at or after index 8 ends the URL, and the
/// first at or after the start of the title ends the title.
proof fn lemma_record_quotes(text: Seq<char>, source: SourceView)
    requires
        is_source_record(text, source),
    ensures
        find_from(text, quote(), 8) == Some(url_end(source)),
        find_from(text, quote(), title_start(source)) == Some(title_end(source)),
{
    lemma_record_layout(text, source);
    lemma_first_quote(text, 8, url_end(source));
    lemma_first_quote(text, title_start(source), title_end(source));
}

/// A text is the record of at most one source.
pub proof fn lemma_source_record_unique(text: Seq<char>, a: SourceView, b: SourceView)
    requires
        is_source_record(text, a),
        is_source_record(text, b),
    ensures
        a == b,
{
    lemma_record_quotes(text, a);
    lemma_record_quotes(text, b);
    lemma_record_layout(text, a);
    lemma_record_layout(text, b);
}

/// `source_named` gives the one source whose record a text is, and nothing
/// for a text that is no record.
pub proof fn lemma_source_named(text: Seq<char>)
    ensures
        match source_named(text) {
            Some(v) => {
                &&& is_source_record(text, v)
                &&& forall|w: SourceView| is_source_record(text, w) ==> w == v
            },
            None => forall|w: SourceView| !is_source_record(text, w),
        },
{
    match source_named(text) {
        Some(v) => {
            assert forall|w: SourceView| is_source_record(text, w) implies w == v by {
                lemma_source_record_unique(text, w, v);
            }
        },
        None => {},
    }
}

/// The characters `{"url":"`.
fn head_chars() -> (v: Vec<char>)
    ensures
        v@ == record_head(),
{
    let v = vec!['{', '"', 'u', 'r', 'l', '"', ':', '"'];
    v
}

/// The characters `","title":"`.
fn middle_chars() -> (v: Vec<char>)
    ensures
        v@ == record_middle(),
{
    let v = vec!['"', ',', '"', 't', 'i', 't', 'l', 'e', '"', ':', '"'];
    v
}

/// The characters `"}`.
fn tail_chars() -> (v: Vec<char>)
    ensures
        v@ == record_tail(),
{
    let v = vec!['"', '}'];
    v
}

/// Reads the source that a tool output names: some source exactly when the
/// output is a source record, and then the one it names.
pub fn extract_source(output: &str) -> (r: Option<Source>)
    ensures
        match r {
            Some(source) => source_named(output@) == Some(source@),
            None => source_named(output@) is None,
        },
{
    proof {
        lemma_source_named(output@);
    }
    let hay = chars_of(output);
    let n = hay.len();
    let head = head_chars();
    let middle = middle_chars();
    let tail = tail_chars();
    let quote_mark = vec!['"'];
    assert(quote_mark@ =~= quote());
    assert(hay@.take(n as int) =~= hay@);
    assert forall|v: SourceView| is_source_record(output@, v) implies {
        &&& occurs_at(hay@, record_head(), 0)
        &&& find_from(hay@, quote(), 8) == Some(url_end(v))
        &&& url_end(v) > 8
        &&& occurs_at(hay@, record_middle(), url_end(v))
        &&& find_from(hay@, quote(), title_start(v)) == Some(title_end(v))
        &&& occurs_at(hay@, record_tail(), title_end(v))
        &&& hay@.len() == title_end(v) + 2
    } by {
        lemma_record_layout(output@, v);
        lemma_record_quotes(output@, v);
    }
    if !matches_at(&hay, &head, 0, n) {
        return None;
    }
    let url_end = match find_within(&hay, &quote_mark, 8, n) {
        Some(at) => at,
        None => {
            return None;
        },
    };
    if url_end == 8 || !matches_at(&hay, &middle, url_end, n) {
        return None;
    }
    let title_start = url_end + 11;
    let title_end = match find_within(&hay, &quote_mark, title_start, n) {
        Some(at) => at,
        None => {
            return None;
        },
    };
    if !matches_at(&hay, &tail, title_end, n) || title_end + 2 != n {
        return None;
    }
    let source = Source {
        url: output.substring_char(8, url_end).to_owned(),
        title: output.substring_char(title_start, title_end).to_owned(),
    };
    proof {
        let text = output@;
        lemma_find_from(text, quote(), 8);
        lemma_find_from(text, quote(), title_start as int);
        assert forall|i: int| 0 <= i < source@.url.len() implies source@.url[i] != '"' by {
            lemma_quote_at(text, 8 + i);
        }
        assert forall|i: int| 0 <= i < source@.title.len() implies source@.title[i] != '"' by {
            lemma_quote_at(text, title_start + i);
        }
        assert(text =~= text.subrange(0, 8) + source@.url + text.subrange(
            url_end as int,
            url_end + 11,
        ) + source@.title + text.subrange(title_end as int, title_end + 2));
        assert(is_source_record(text, source@));
    }
    Some(source)
}

/// The sources with one more: it is appended unless its URL is cited
/// already.
pub open spec fn with_source(sources: Seq<SourceView>, source: SourceView) -> Seq<SourceView> {
    if cites(sources, source.url) {
        sources
    } else {
        sources.push(source)
    }
}

/// Adding a source keeps the URLs distinct, keeps every earlier source in its
/// place, and leaves the new URL cited.
pub proof fn lemma_with_source(sources: Seq<SourceView>, source: SourceView)
    requires
        distinct_urls(sources),
    ensures
        distinct_urls(with_source(sources, source)),
        cites(with_source(sources, source), source.url),
        sources.len() <= with_source(sources, source).len() <= sources.len() + 1,
        forall|i: int| 0 <= i < sources.len() ==> with_source(sources, source)[i] == sources[i],
{
    let after = with_source(sources, source);
    if !cites(sources, source.url) {
        assert(after[sources.len() as int].url == source.url);
    }
}

/// Whether some source of the list has the given URL.
pub fn is_cited(sources: &Vec<Source>, url: &String) -> (r: bool)
    ensures
        r == cites(source_views(sources@), url@),
{
    let mut i: usize = 0;
    while i < sources.len()
        invariant
            i <= sources.len(),
            forall|j: int| 0 <= j < i ==> source_views(sources@)[j].url != url@,
        decreases sources.len() - i,
    {
        if sources[i].url == *url {
            assert(source_views(sources@)[i as int].url == url@);
            return true;
        }
        i += 1;
    }
    false
}

/// Adds a source to the list unless its URL is cited already. Returns whether
/// it was added.
pub fn add_source(sources: &mut Vec<Source>, source: Source) -> (added: bool)
    ensures
        source_views(final(sources)@) == with_source(source_views(old(sources)@), source@),
        added == !cites(source_views(old(sources)@), source@.url),
{
    if is_cited(sources, &source.url) {
        false
    } else {
        sources.push(source);
        true
    }
}

} // verus!
