//! The url-file: plain text with one feed URL per line.

use crate::text::{chars_of, scan_to, span_before, trim_bounds, trimmed};
use vstd::prelude::*;
use vstd::string::*;

verus! {

/// The lines of `s`: the pieces between its line feeds, in order.
pub open spec fn lines(s: Seq<char>) -> Seq<Seq<char>>
    decreases s.len(),
{
    let n = span_before(s, '\n') as int;
    if n >= s.len() {
        seq![s]
    } else {
        seq![s.take(n)] + lines(s.skip(n + 1))
    }
}

/// The URL that one line of the url-file names: the line without the white
/// space around it, unless that is empty or begins with `#`.
pub open spec fn url_of_line(line: Seq<char>) -> Option<Seq<char>> {
    let t = trimmed(line);
    if t.len() == 0 || t.first() == '#' {
        None
    } else {
        Some(t)
    }
}

/// The URL list of a url-file with the contents `s`: the URLs of its lines,
/// in the file's order, repeated where the file repeats them.
pub open spec fn url_list(s: Seq<char>) -> Seq<Seq<char>> {
    lines(s).filter_map(|l: Seq<char>| url_of_line(l))
}

/// Putting an element in front of a sequence puts its image, if it has one,
/// in front of the sequence's images.
pub proof fn lemma_filter_map_prepend<A, B>(x: A, r: Seq<A>, f: spec_fn(A) -> Option<B>)
    ensures
        (seq![x] + r).filter_map(f) == (match f(x) {
            Some(y) => seq![y],
            None => Seq::empty(),
        }) + r.filter_map(f),
    decreases r.len(),
{
    if r.len() == 0 {
        assert(seq![x] + r =~= seq![x]);
        Seq::lemma_filter_map_singleton(x, f);
    } else {
        let whole = seq![x] + r;
        assert(whole.drop_last() =~= seq![x] + r.drop_last());
        assert(whole.last() == r.last());
        lemma_filter_map_prepend(x, r.drop_last(), f);
    }
}

/// Reads the URL list out of the contents of a url-file.
pub fn read_urls(contents: &str) -> (urls: Vec<String>)
    ensures
        urls@.map_values(|u: String| u@) == url_list(contents@),
{
    let chars = chars_of(contents);
    let n = chars.len();
    let ghost f = |l: Seq<char>| url_of_line(l);
    let mut urls: Vec<String> = Vec::new();
    let mut start: usize = 0;
    let mut more = true;
    proof {
        assert(chars@.skip(0) =~= chars@);
        assert(urls@.map_values(|u: String| u@) =~= Seq::empty());
        assert(url_list(contents@) =~= Seq::<Seq<char>>::empty() + lines(chars@.skip(0)).filter_map(f));
    }
    while more
        invariant
            chars@ == contents@,
            n == chars.len(),
            start <= n,
            f == (|l: Seq<char>| url_of_line(l)),
            more ==> url_list(contents@) == urls@.map_values(|u: String| u@) + lines(
                chars@.skip(start as int),
            ).filter_map(f),
            !more ==> url_list(contents@) == urls@.map_values(|u: String| u@),
            !more ==> start == n,
        decreases n - start + (if more { 1int } else { 0int }),
    {
        let end = scan_to(&chars, start, '\n');
        let ghost rest = chars@.skip(start as int);
        let ghost line = chars@.subrange(start as int, end as int);
        let ghost before = urls@.map_values(|u: String| u@);
        proof {
            assert(rest.take(end - start) =~= line);
            if end < n {
                assert(rest.skip(end - start + 1) =~= chars@.skip(end + 1));
                lemma_filter_map_prepend(line, lines(chars@.skip(end + 1)), f);
            } else {
                assert(rest =~= line);
                Seq::lemma_filter_map_singleton(line, f);
            }
        }
        let (lo, hi) = trim_bounds(&chars, start, end);
        if lo < hi && chars[lo] != '#' {
            let url = contents.substring_char(lo, hi).to_owned();
            urls.push(url);
            assert(urls@.map_values(|u: String| u@) =~= before + seq![trimmed(line)]);
        }
        if end < n {
            start = end + 1;
        } else {
            start = n;
            more = false;
        }
    }
    urls
}

/// Each image under `filter_map` is the image of an element.
proof fn lemma_filter_map_image<A, B>(s: Seq<A>, f: spec_fn(A) -> Option<B>, k: int)
    requires
        0 <= k < s.filter_map(f).len(),
    ensures
        exists|j: int| 0 <= j < s.len() && f(s[j]) == Some(s.filter_map(f)[k]),
    decreases s.len(),
{
    if s.len() > 0 {
        let front = s.drop_last();
        if f(s.last()) is Some && k == front.filter_map(f).len() {
            assert(f(s[s.len() - 1]) == Some(s.filter_map(f)[k]));
        } else {
            lemma_filter_map_image(front, f, k);
            let j = choose|j: int| 0 <= j < front.len() && f(front[j]) == Some(front.filter_map(f)[k]);
            assert(f(s[j]) == Some(s.filter_map(f)[k]));
        }
    }
}

/// Every URL of a url-file is clean: it is not empty, it neither begins nor
/// ends with white space, and it does not begin with `#`.
pub proof fn law_urls_are_clean(contents: Seq<char>, k: int)
    requires
        0 <= k < url_list(contents).len(),
    ensures
        url_list(contents)[k].len() > 0,
        url_list(contents)[k].first() != '#',
        !crate::text::is_space(url_list(contents)[k].first()),
        !crate::text::is_space(url_list(contents)[k].last()),
{
    let f = |l: Seq<char>| url_of_line(l);
    let ls = lines(contents);
    lemma_filter_map_image(ls, f, k);
    let j = choose|j: int| 0 <= j < ls.len() && f(ls[j]) == Some(ls.filter_map(f)[k]);
    crate::text::lemma_trimmed(ls[j]);
}

} // verus!
