//! Character-level text handling used to read yt-dlp's output and to build
//! the command lines and URLs the library hands out.
use vstd::prelude::*;

verus! {

broadcast use vstd::seq_lib::group_seq_properties;

// ---------------------------------------------------------------------------
// Whitespace and trimming
// ---------------------------------------------------------------------------

/// Unicode `White_Space`: the characters that `str::trim` removes.
pub open spec fn is_white_space(c: char) -> bool {
    let u = c as u32;
    ||| 0x09 <= u <= 0x0D
    ||| u == 0x20
    ||| u == 0x85
    ||| u == 0xA0
    ||| u == 0x1680
    ||| 0x2000 <= u <= 0x200A
    ||| u == 0x2028
    ||| u == 0x2029
    ||| u == 0x202F
    ||| u == 0x205F
    ||| u == 0x3000
}

/// `s` without its leading whitespace.
pub open spec fn trim_start(s: Seq<char>) -> Seq<char>
    decreases s.len(),
{
    if s.len() > 0 && is_white_space(s[0]) {
        trim_start(s.drop_first())
    } else {
        s
    }
}

/// `s` without its trailing whitespace.
pub open spec fn trim_end(s: Seq<char>) -> Seq<char>
    decreases s.len(),
{
    if s.len() > 0 && is_white_space(s.last()) {
        trim_end(s.drop_last())
    } else {
        s
    }
}

/// `s` without leading and trailing whitespace.
pub open spec fn trim(s: Seq<char>) -> Seq<char> {
    trim_end(trim_start(s))
}

/// Whether `c` is a whitespace character.
pub fn is_white_space_char(c: char) -> (b: bool)
    ensures
        b == is_white_space(c),
{
    let u = c as u32;
    (0x09 <= u && u <= 0x0D) || u == 0x20 || u == 0x85 || u == 0xA0 || u == 0x1680 || (0x2000
        <= u && u <= 0x200A) || u == 0x2028 || u == 0x2029 || u == 0x202F || u == 0x205F || u
        == 0x3000
}

/// The characters of `s`, in order.
pub fn chars_of(s: &str) -> (v: Vec<char>)
    ensures
        v@ == s@,
{
    let mut v: Vec<char> = Vec::new();
    for c in it: s.chars()
        invariant
            it.seq() == s@,
            v@ == it.seq().take(it.index()),
    {
        v.push(c);
    }
    v
}

/// The bounds `(i, j)` of `s` without its leading and trailing whitespace.
fn trim_bounds(cs: &Vec<char>) -> (r: (usize, usize))
    ensures
        r.0 <= r.1 <= cs@.len(),
        cs@.subrange(r.0 as int, r.1 as int) == trim(cs@),
{
    let n = cs.len();
    let mut i: usize = 0;
    while i < n && is_white_space_char(cs[i])
        invariant
            i <= n,
            n == cs@.len(),
            trim_start(cs@) == trim_start(cs@.subrange(i as int, n as int)),
        decreases n - i,
    {
        assert(cs@.subrange(i as int, n as int).drop_first() =~= cs@.subrange(
            i + 1,
            n as int,
        ));
        i = i + 1;
    }
    assert(trim_start(cs@) == cs@.subrange(i as int, n as int));
    let mut j: usize = n;
    while j > i && is_white_space_char(cs[j - 1])
        invariant
            i <= j <= n,
            n == cs@.len(),
            trim_start(cs@) == cs@.subrange(i as int, n as int),
            trim(cs@) == trim_end(cs@.subrange(i as int, j as int)),
        decreases j,
    {
        assert(cs@.subrange(i as int, j as int).drop_last() =~= cs@.subrange(
            i as int,
            j - 1,
        ));
        j = j - 1;
    }
    (i, j)
}

/// `s` without leading and trailing whitespace, as `str::trim` gives it.
pub fn trim_str(s: &str) -> (t: String)
    ensures
        t@ == trim(s@),
{
    let cs = chars_of(s);
    let (i, j) = trim_bounds(&cs);
    s.substring_char(i, j).to_owned()
}

// ---------------------------------------------------------------------------
// Lines
// ---------------------------------------------------------------------------

/// The index of the first line feed at or after `from`, or the length of `s`.
pub open spec fn line_end(s: Seq<char>, from: int) -> int
    decreases s.len() - from,
{
    if from >= s.len() || from < 0 {
        s.len() as int
    } else if s[from] == '\n' {
        from
    } else {
        line_end(s, from + 1)
    }
}

/// `line_end` stays within the string and after `from`, and nothing between
/// `from` and it is a line feed.
pub proof fn lemma_line_end(s: Seq<char>, from: int)
    requires
        0 <= from,
    ensures
        from <= s.len() ==> from <= line_end(s, from) <= s.len(),
        line_end(s, from) < s.len() ==> s[line_end(s, from)] == '\n',
        forall|k: int| from <= k < line_end(s, from) ==> s[k] != '\n',
    decreases s.len() - from,
{
    if from < s.len() && s[from] != '\n' {
        lemma_line_end(s, from + 1);
    }
}

/// The first line of `s`: everything before the first line feed.
pub open spec fn first_line(s: Seq<char>) -> Seq<char> {
    s.subrange(0, line_end(s, 0))
}

/// A line as `str::lines` gives it: a carriage return just before the line
/// feed is not part of the line.
pub open spec fn strip_cr(l: Seq<char>) -> Seq<char> {
    if l.len() > 0 && l.last() == '\r' {
        l.drop_last()
    } else {
        l
    }
}

/// The lines of `s` from position `from` on, as `str::lines` splits them: at
/// `\n` or `\r\n`, with no empty line after a final line feed.
pub open spec fn lines_from(s: Seq<char>, from: int) -> Seq<Seq<char>>
    decreases s.len() - from,
{
    if from < 0 || from >= s.len() {
        Seq::empty()
    } else {
        let e = line_end(s, from);
        proof {
            lemma_line_end(s, from);
        }
        if e < s.len() {
            seq![strip_cr(s.subrange(from, e))] + lines_from(s, e + 1)
        } else {
            seq![s.subrange(from, e)]
        }
    }
}

/// The lines of `s`.
pub open spec fn lines(s: Seq<char>) -> Seq<Seq<char>> {
    lines_from(s, 0)
}

proof fn lemma_trim_end_keeps_first(s: Seq<char>)
    requires
        s.len() > 0,
        !is_white_space(s[0]),
    ensures
        trim_end(s).len() > 0,
        trim_end(s)[0] == s[0],
    decreases s.len(),
{
    if is_white_space(s.last()) {
        assert(s.len() > 1);
        lemma_trim_end_keeps_first(s.drop_last());
        assert(s.drop_last()[0] == s[0]);
    }
}

proof fn lemma_trim_start_is_suffix(s: Seq<char>)
    ensures
        trim_start(s).len() <= s.len(),
        trim_start(s) == s.subrange(s.len() - trim_start(s).len(), s.len() as int),
        trim_start(s).len() > 0 ==> !is_white_space(trim_start(s)[0]),
        forall|j: int| 0 <= j < s.len() - trim_start(s).len() ==> is_white_space(#[trigger] s[j]),
    decreases s.len(),
{
    if s.len() > 0 && is_white_space(s[0]) {
        lemma_trim_start_is_suffix(s.drop_first());
    }
}

proof fn lemma_trim_end_shape(s: Seq<char>)
    ensures
        trim_end(s).len() <= s.len(),
        trim_end(s) == s.subrange(0, trim_end(s).len() as int),
        trim_end(s).len() > 0 ==> !is_white_space(trim_end(s).last()),
        forall|j: int| trim_end(s).len() <= j < s.len() ==> is_white_space(#[trigger] s[j]),
    decreases s.len(),
{
    if s.len() > 0 && is_white_space(s.last()) {
        lemma_trim_end_shape(s.drop_last());
        assert forall|j: int| trim_end(s).len() <= j < s.len() implies is_white_space(
            #[trigger] s[j],
        ) by {
            if j < s.len() - 1 {
                assert(s[j] == s.drop_last()[j]);
            }
        }
    }
}

/// A trimmed text, when not empty, neither starts nor ends with whitespace,
/// and it is a contiguous part of the text it came from.
pub proof fn lemma_trim_is_clean(s: Seq<char>)
    ensures
        trim(s).len() > 0 ==> !is_white_space(trim(s)[0]) && !is_white_space(trim(s).last()),
        exists|i: int| 0 <= i && i + trim(s).len() <= s.len() && #[trigger] s.subrange(i, i + trim(s).len()) == trim(s),
{
    let t = trim_start(s);
    lemma_trim_start_is_suffix(s);
    lemma_trim_end_shape(t);
    assert(trim(s).len() <= t.len());
    if t.len() > 0 {
        lemma_trim_end_keeps_first(t);
    }
    let i = s.len() - t.len();
    assert(s.subrange(i, i + trim(s).len()) =~= trim(s));
}

/// What trimming does, for every text: the result is a contiguous part of
/// the text, everything before and after it is whitespace, and when it is
/// not empty it starts and ends with a character that is not whitespace.
/// So it is empty exactly when the text is all whitespace, and nothing but
/// whitespace is ever removed.
pub proof fn lemma_trim_exact(s: Seq<char>)
    ensures
        ({
            let t = trim(s);
            exists|i: int|
                #![trigger s.subrange(i, i + t.len())]
                0 <= i && i + t.len() <= s.len() && s.subrange(i, i + t.len()) == t && (forall|j: int|
                    0 <= j < i ==> is_white_space(#[trigger] s[j])) && (forall|j: int|
                    i + t.len() <= j < s.len() ==> is_white_space(#[trigger] s[j])) && (t.len() > 0
                    ==> !is_white_space(t[0]) && !is_white_space(t.last()))
        }),
        trim(s).len() == 0 <==> (forall|j: int| 0 <= j < s.len() ==> is_white_space(#[trigger] s[j])),
{
    let ts = trim_start(s);
    let t = trim(s);
    lemma_trim_start_is_suffix(s);
    lemma_trim_end_shape(ts);
    if ts.len() > 0 {
        lemma_trim_end_keeps_first(ts);
    }
    let i = s.len() - ts.len();
    assert(s.subrange(i, i + t.len()) =~= t);
    assert forall|j: int| i + t.len() <= j < s.len() implies is_white_space(#[trigger] s[j]) by {
        assert(s[j] == ts[j - i]);
    }
    if t.len() == 0 {
        assert forall|j: int| 0 <= j < s.len() implies is_white_space(#[trigger] s[j]) by {
            if j >= i {
                assert(s[j] == ts[j - i]);
            }
        }
    } else {
        assert(!is_white_space(s[i]));
    }
}

/// What the first line is, for every text: the longest prefix holding no line
/// feed, so it ends at the text's first line feed, or at its end.
pub proof fn lemma_first_line_exact(s: Seq<char>)
    ensures
        first_line(s).len() <= s.len(),
        first_line(s) == s.subrange(0, first_line(s).len() as int),
        forall|k: int| 0 <= k < first_line(s).len() ==> #[trigger] s[k] != '\n',
        first_line(s).len() == s.len() || s[first_line(s).len() as int] == '\n',
{
    lemma_line_end(s, 0);
}

/// The first line of a text holds no line feed.
pub proof fn lemma_first_line_is_one_line(s: Seq<char>)
    ensures
        forall|k: int| 0 <= k < first_line(s).len() ==> first_line(s)[k] != '\n',
{
    lemma_line_end(s, 0);
}

/// Whether a line holds anything but whitespace.
pub open spec fn is_blank(l: Seq<char>) -> bool {
    trim(l).len() == 0
}

/// The views of a vector of strings.
pub open spec fn string_views(v: Seq<String>) -> Seq<Seq<char>> {
    v.map_values(|x: String| x@)
}

/// The first line of `s` with surrounding whitespace removed.
pub fn first_line_trimmed(s: &str) -> (t: String)
    ensures
        t@ == trim(first_line(s@)),
{
    let cs = chars_of(s);
    let n = cs.len();
    let mut e: usize = 0;
    while e < n && cs[e] != '\n'
        invariant
            e <= n,
            n == cs@.len(),
            line_end(cs@, 0) == line_end(cs@, e as int),
        decreases n - e,
    {
        e = e + 1;
    }
    let line = s.substring_char(0, e);
    trim_str(line)
}

/// The lines of `s` that hold anything but whitespace, in order, each as
/// `str::lines` gives it.
pub fn non_blank_lines(s: &str) -> (v: Vec<String>)
    ensures
        string_views(v@) == lines(s@).filter(|l: Seq<char>| !is_blank(l)),
{
    let cs = chars_of(s);
    let n = cs.len();
    let ghost keep = |l: Seq<char>| !is_blank(l);
    let mut out: Vec<String> = Vec::new();
    let mut start: usize = 0;
    while start < n
        invariant
            start <= n,
            n == cs@.len(),
            cs@ == s@,
            keep == (|l: Seq<char>| !is_blank(l)),
            string_views(out@) + lines_from(cs@, start as int).filter(keep) == lines_from(
                cs@,
                0,
            ).filter(keep),
        decreases n - start,
    {
        let mut e: usize = start;
        while e < n && cs[e] != '\n'
            invariant
                start <= e <= n,
                n == cs@.len(),
                line_end(cs@, start as int) == line_end(cs@, e as int),
            decreases n - e,
        {
            e = e + 1;
        }
        proof {
            lemma_line_end(cs@, start as int);
        }
        let ghost line: Seq<char> = if e < n {
            strip_cr(cs@.subrange(start as int, e as int))
        } else {
            cs@.subrange(start as int, e as int)
        };
        let end = if e < n && e > start && cs[e - 1] == '\r' {
            e - 1
        } else {
            e
        };
        assert(cs@.subrange(start as int, end as int) =~= line);
        let piece = s.substring_char(start, end);
        let trimmed_bounds = trim_bounds(&chars_of(piece));
        let ghost rest = if e < n {
            lines_from(cs@, e + 1)
        } else {
            Seq::<Seq<char>>::empty()
        };
        assert(lines_from(cs@, start as int) =~= seq![line] + rest);
        proof {
            Seq::filter_distributes_over_add(seq![line], rest, keep);
            reveal_with_fuel(Seq::filter, 2);
        }
        let ghost old_views = string_views(out@);
        if trimmed_bounds.0 < trimmed_bounds.1 {
            out.push(piece.to_owned());
            assert(string_views(out@) =~= old_views.push(line));
            assert(seq![line].filter(keep) =~= seq![line]);
        } else {
            assert(seq![line].filter(keep) =~= Seq::<Seq<char>>::empty());
        }
        assert(string_views(out@) + rest.filter(keep) =~= old_views + (seq![line]
            + rest).filter(keep));
        start = if e < n {
            e + 1
        } else {
            n
        };
    }
    assert(lines_from(cs@, start as int) =~= Seq::<Seq<char>>::empty());
    assert(Seq::<Seq<char>>::empty().filter(keep) =~= Seq::<Seq<char>>::empty());
    assert(string_views(out@) =~= string_views(out@) + Seq::<Seq<char>>::empty());
    out
}

/// Whether two strings hold the same characters.
pub fn same_text(a: &str, b: &str) -> (r: bool)
    ensures
        r == (a@ == b@),
{
    let xs = chars_of(a);
    let ys = chars_of(b);
    if xs.len() != ys.len() {
        return false;
    }
    let mut i: usize = 0;
    while i < xs.len()
        invariant
            i <= xs@.len(),
            xs@.len() == ys@.len(),
            xs@ == a@,
            ys@ == b@,
            forall|k: int| 0 <= k < i ==> xs@[k] == ys@[k],
        decreases xs@.len() - i,
    {
        if xs[i] != ys[i] {
            return false;
        }
        i = i + 1;
    }
    assert(xs@ =~= ys@);
    true
}

// ---------------------------------------------------------------------------
// Searching
// ---------------------------------------------------------------------------

/// Whether `pat` occurs in `s` as a contiguous run.
pub open spec fn contains_seq(s: Seq<char>, pat: Seq<char>) -> bool {
    exists|i: int| 0 <= i && i + pat.len() <= s.len() && #[trigger] s.subrange(i, i + pat.len()) == pat
}

/// Whether `pat` occurs in `s`, as `str::contains` answers it.
pub fn contains_str(s: &str, pat: &str) -> (b: bool)
    ensures
        b == contains_seq(s@, pat@),
{
    let cs = chars_of(s);
    let ps = chars_of(pat);
    let n = cs.len();
    let m = ps.len();
    if m > n {
        assert forall|i: int| 0 <= i && i + ps@.len() <= cs@.len() implies #[trigger] cs@.subrange(
            i,
            i + ps@.len(),
        ) != ps@ by {}
        return false;
    }
    let mut i: usize = 0;
    while i <= n - m
        invariant
            m <= n,
            n == cs@.len(),
            m == ps@.len(),
            cs@ == s@,
            ps@ == pat@,
            i <= n - m + 1,
            forall|k: int| 0 <= k < i ==> #[trigger] cs@.subrange(k, k + m) != ps@,
        decreases n - i,
    {
        let mut j: usize = 0;
        while j < m && cs[i + j] == ps[j]
            invariant
                j <= m,
                i + m <= n,
                n == cs@.len(),
                m == ps@.len(),
                forall|k: int| 0 <= k < j ==> cs@[i + k] == ps@[k],
            decreases m - j,
        {
            j = j + 1;
        }
        if j == m {
            assert(cs@.subrange(i as int, i + m) =~= ps@);
            return true;
        }
        assert(cs@.subrange(i as int, i + m)[j as int] != ps@[j as int]);
        i = i + 1;
    }
    assert forall|k: int| 0 <= k && k + ps@.len() <= cs@.len() implies #[trigger] cs@.subrange(
        k,
        k + ps@.len(),
    ) != ps@ by {
        assert(k < i);
    }
    false
}

// ---------------------------------------------------------------------------
// Numbers
// ---------------------------------------------------------------------------

/// The digit character for `d` (0 through 9).
pub open spec fn digit_char(d: int) -> char {
    if d == 0 {
        '0'
    } else if d == 1 {
        '1'
    } else if d == 2 {
        '2'
    } else if d == 3 {
        '3'
    } else if d == 4 {
        '4'
    } else if d == 5 {
        '5'
    } else if d == 6 {
        '6'
    } else if d == 7 {
        '7'
    } else if d == 8 {
        '8'
    } else {
        '9'
    }
}

/// The decimal rendering of `n`, as `{}` formats an unsigned integer.
pub open spec fn decimal(n: nat) -> Seq<char>
    decreases n,
{
    if n < 10 {
        seq![digit_char(n as int)]
    } else {
        decimal(n / 10) + seq![digit_char((n % 10) as int)]
    }
}

fn digit_str(d: u32) -> (s: &'static str)
    requires
        d < 10,
    ensures
        s@ == seq![digit_char(d as int)],
{
    proof {
        reveal_strlit("0");
        reveal_strlit("1");
        reveal_strlit("2");
        reveal_strlit("3");
        reveal_strlit("4");
        reveal_strlit("5");
        reveal_strlit("6");
        reveal_strlit("7");
        reveal_strlit("8");
        reveal_strlit("9");
    }
    if d == 0 {
        "0"
    } else if d == 1 {
        "1"
    } else if d == 2 {
        "2"
    } else if d == 3 {
        "3"
    } else if d == 4 {
        "4"
    } else if d == 5 {
        "5"
    } else if d == 6 {
        "6"
    } else if d == 7 {
        "7"
    } else if d == 8 {
        "8"
    } else {
        "9"
    }
}

/// Appends the decimal rendering of `n` to `out`.
pub fn push_decimal(out: &mut String, n: u32)
    ensures
        final(out)@ == old(out)@ + decimal(n as nat),
    decreases n,
{
    if n >= 10 {
        push_decimal(out, n / 10);
    }
    out.append(digit_str(n % 10));
    assert(decimal(n as nat) == if n < 10 {
        seq![digit_char(n as int)]
    } else {
        decimal((n / 10) as nat) + seq![digit_char((n % 10) as int)]
    });
}

// ---------------------------------------------------------------------------
// Calls into std that have no vstd specification
// ---------------------------------------------------------------------------

/// What `str::to_lowercase` makes of a string: Unicode's lowercase mapping,
/// one that may change a string's length.
pub uninterp spec fn lowercase(s: Seq<char>) -> Seq<char>;

/// Calls `str::to_lowercase`. Claimed: the result is `lowercase` of the
/// argument, that is, it depends on the argument's characters alone.
#[verifier::external_body]
pub fn to_lowercase(s: &str) -> (r: String)
    ensures
        r@ == lowercase(s@),
{
    s.to_lowercase()
}

/// What `String::from_utf8_lossy` makes of a byte sequence: its UTF-8
/// decoding, with each invalid sequence replaced by U+FFFD.
pub uninterp spec fn utf8_lossy(b: Seq<u8>) -> Seq<char>;

/// Calls `String::from_utf8_lossy`. Claimed: the result is `utf8_lossy` of
/// the bytes, and for valid UTF-8 it is exactly their decoding, as the
/// documentation says ("If the bytes are valid UTF-8, returns them").
#[verifier::external_body]
pub fn from_utf8_lossy(b: &[u8]) -> (r: String)
    ensures
        r@ == utf8_lossy(b@),
        vstd::utf8::valid_utf8(b@) ==> r@ == vstd::utf8::decode_utf8(b@),
{
    String::from_utf8_lossy(b).into_owned()
}

} // verus!
