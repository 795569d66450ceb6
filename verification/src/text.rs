//! Character and string helpers shared by the url-file reader and the
//! argument parser: whitespace, trimming, and comparison of string slices.

use vstd::prelude::*;

verus! {

/// Whether `c` is white space: the code points that carry the Unicode
/// property `White_Space`.
pub open spec fn is_space(c: char) -> bool {
    let u = c as u32;
    ||| 0x09 <= u <= 0x0D
    ||| u == 0x20
    ||| u == 0x85
    ||| u == 0xA0
    ||| u == 0x1680
    ||| 0x2000 <= u <= 0x200A
    ||| u == 0x2028
    ||| u == 0x2029
    ||| u == 0x202F
    ||| u == 0x205F
    ||| u == 0x3000
}

/// `s` without its leading white space.
pub open spec fn trim_start(s: Seq<char>) -> Seq<char>
    decreases s.len(),
{
    if s.len() > 0 && is_space(s.first()) {
        trim_start(s.drop_first())
    } else {
        s
    }
}

/// `s` without its trailing white space.
pub open spec fn trim_end(s: Seq<char>) -> Seq<char>
    decreases s.len(),
{
    if s.len() > 0 && is_space(s.last()) {
        trim_end(s.drop_last())
    } else {
        s
    }
}

/// `s` without leading and trailing white space.
pub open spec fn trimmed(s: Seq<char>) -> Seq<char> {
    trim_end(trim_start(s))
}

/// Decides whether `c` is white space.
pub fn is_space_char(c: char) -> (b: bool)
    ensures
        b == is_space(c),
{
    let u: u32 = c as u32;
    (0x09 <= u && u <= 0x0D) || u == 0x20 || u == 0x85 || u == 0xA0 || u == 0x1680 || (0x2000 <= u
        && u <= 0x200A) || u == 0x2028 || u == 0x2029 || u == 0x202F || u == 0x205F || u == 0x3000
}

/// The characters of `s`, in order.
pub fn chars_of(s: &str) -> (out: Vec<char>)
    ensures
        out@ == s@,
{
    let mut out: Vec<char> = Vec::new();
    for c in it: s.chars()
        invariant
            out@ == it.seq().take(it.index() as int),
            it.seq() == s@,
    {
        out.push(c);
    }
    out
}

/// The bounds of the trimmed part of `chars[lo..hi]`: the range returned
/// holds exactly `trimmed` of that slice.
pub fn trim_bounds(chars: &Vec<char>, lo: usize, hi: usize) -> (r: (usize, usize))
    requires
        lo <= hi <= chars.len(),
    ensures
        lo <= r.0 <= r.1 <= hi,
        chars@.subrange(r.0 as int, r.1 as int) == trimmed(chars@.subrange(lo as int, hi as int)),
{
    let mut a: usize = lo;
    while a < hi && is_space_char(chars[a])
        invariant
            lo <= a <= hi <= chars.len(),
            trim_start(chars@.subrange(lo as int, hi as int)) == trim_start(
                chars@.subrange(a as int, hi as int),
            ),
        decreases hi - a,
    {
        assert(chars@.subrange(a as int, hi as int).drop_first() == chars@.subrange(
            a + 1,
            hi as int,
        ));
        a += 1;
    }
    assert(trim_start(chars@.subrange(a as int, hi as int)) == chars@.subrange(a as int, hi as int));
    let mut b: usize = hi;
    while a < b && is_space_char(chars[b - 1])
        invariant
            lo <= a <= b <= hi <= chars.len(),
            trimmed(chars@.subrange(lo as int, hi as int)) == trim_end(
                chars@.subrange(a as int, b as int),
            ),
        decreases b - a,
    {
        assert(chars@.subrange(a as int, b as int).drop_last() == chars@.subrange(
            a as int,
            b - 1,
        ));
        b -= 1;
    }
    assert(trim_end(chars@.subrange(a as int, b as int)) == chars@.subrange(a as int, b as int));
    (a, b)
}

/// Whether two string slices hold the same characters.
pub fn same_text(a: &str, b: &str) -> (eq: bool)
    ensures
        eq == (a@ == b@),
{
    let x = chars_of(a);
    let y = chars_of(b);
    if x.len() != y.len() {
        return false;
    }
    let mut i: usize = 0;
    while i < x.len()
        invariant
            i <= x.len(),
            x.len() == y.len(),
            x@ == a@,
            y@ == b@,
            forall|k: int| 0 <= k < i ==> x@[k] == y@[k],
        decreases x.len() - i,
    {
        if x[i] != y[i] {
            return false;
        }
        i += 1;
    }
    assert(a@ =~= b@);
    true
}

/// The number of characters of `s` before its first `stop`, or the length of
/// `s` if it holds none.
pub open spec fn span_before(s: Seq<char>, stop: char) -> nat
    decreases s.len(),
{
    if s.len() == 0 || s.first() == stop {
        0
    } else {
        1 + span_before(s.drop_first(), stop)
    }
}

/// Walking over characters that are not `stop` adds them to the span.
pub proof fn lemma_span_walk(s: Seq<char>, stop: char, from: int, to: int)
    requires
        0 <= from <= to <= s.len(),
        forall|k: int| from <= k < to ==> s[k] != stop,
    ensures
        span_before(s.skip(from), stop) == (to - from) + span_before(s.skip(to), stop),
    decreases to - from,
{
    if from < to {
        assert(s.skip(from).drop_first() =~= s.skip(from + 1));
        lemma_span_walk(s, stop, from + 1, to);
    }
}

/// The index of the first `stop` in `chars` at or after `from`, or the
/// length of `chars` if none follows.
pub fn scan_to(chars: &Vec<char>, from: usize, stop: char) -> (end: usize)
    requires
        from <= chars.len(),
    ensures
        from <= end <= chars.len(),
        end - from == span_before(chars@.skip(from as int), stop),
        forall|k: int| from <= k < end ==> chars@[k] != stop,
        end < chars.len() ==> chars@[end as int] == stop,
{
    let mut end: usize = from;
    while end < chars.len() && chars[end] != stop
        invariant
            from <= end <= chars.len(),
            forall|k: int| from <= k < end ==> chars@[k] != stop,
        decreases chars.len() - end,
    {
        end += 1;
    }
    proof {
        lemma_span_walk(chars@, stop, from as int, end as int);
        assert(span_before(chars@.skip(end as int), stop) == 0);
    }
    end
}

/// What is left of `s` without its leading white space is empty or begins
/// with a character that is no white space.
pub proof fn lemma_trim_start(s: Seq<char>)
    ensures
        trim_start(s).len() == 0 || !is_space(trim_start(s).first()),
    decreases s.len(),
{
    if s.len() > 0 && is_space(s.first()) {
        lemma_trim_start(s.drop_first());
    }
}

/// What is left of `s` without its trailing white space is empty or ends
/// with a character that is no white space, and begins as `s` does.
pub proof fn lemma_trim_end(s: Seq<char>)
    ensures
        trim_end(s).len() == 0 || !is_space(trim_end(s).last()),
        trim_end(s).len() > 0 ==> trim_end(s).first() == s.first(),
    decreases s.len(),
{
    if s.len() > 0 && is_space(s.last()) {
        lemma_trim_end(s.drop_last());
    }
}

/// A trimmed text is empty, or neither begins nor ends with white space.
pub proof fn lemma_trimmed(s: Seq<char>)
    ensures
        trimmed(s).len() == 0 || (!is_space(trimmed(s).first()) && !is_space(trimmed(s).last())),
{
    lemma_trim_start(s);
    lemma_trim_end(trim_start(s));
}

/// The digit whose value is `d`.
pub open spec fn digit_char(d: nat) -> char {
    if d == 0 {
        '0'
    } else if d == 1 {
        '1'
    } else if d == 2 {
        '2'
    } else if d == 3 {
        '3'
    } else if d == 4 {
        '4'
    } else if d == 5 {
        '5'
    } else if d == 6 {
        '6'
    } else if d == 7 {
        '7'
    } else if d == 8 {
        '8'
    } else {
        '9'
    }
}

/// The usual way to write `n` in base ten.
pub open spec fn decimal(n: nat) -> Seq<char>
    decreases n,
{
    if n < 10 {
        seq![digit_char(n)]
    } else {
        decimal(n / 10).push(digit_char(n % 10))
    }
}

/// The digit `d` as a text of one character.
fn digit_text(d: u16) -> (text: &'static str)
    requires
        d < 10,
    ensures
        text@ == seq![digit_char(d as nat)],
{
    proof {
        reveal_strlit("0");
        reveal_strlit("1");
        reveal_strlit("2");
        reveal_strlit("3");
        reveal_strlit("4");
        reveal_strlit("5");
        reveal_strlit("6");
        reveal_strlit("7");
        reveal_strlit("8");
        reveal_strlit("9");
    }
    let text = match d {
        0 => "0",
        1 => "1",
        2 => "2",
        3 => "3",
        4 => "4",
        5 => "5",
        6 => "6",
        7 => "7",
        8 => "8",
        _ => "9",
    };
    assert(text@ =~= seq![digit_char(d as nat)]);
    text
}

/// Writes `n` in base ten.
pub fn decimal_string(n: u16) -> (text: String)
    ensures
        text@ == decimal(n as nat),
    decreases n,
{
    if n < 10 {
        digit_text(n).to_owned()
    } else {
        let mut text = decimal_string(n / 10);
        let ghost front = text@;
        text.append(digit_text(n % 10));
        assert(text@ =~= front.push(digit_char((n % 10) as nat)));
        text
    }
}

} // verus!
