//! Character-level text helpers shared by the shell's parsers and formatters:
//! Unicode whitespace, trimming, whitespace splitting, substring search,
//! decimal formatting and padding. Everything is stated over `Seq<char>`.

use vstd::prelude::*;

verus! {

// ===== whitespace =====

/// Unicode `White_Space` (the set `char::is_whitespace` accepts).
pub open spec fn is_ws(c: char) -> bool {
    ||| c == '\t'
    ||| c == '\n'
    ||| c == '\x0B'
    ||| c == '\x0C'
    ||| c == '\r'
    ||| c == ' '
    ||| c == '\u{85}'
    ||| c == '\u{A0}'
    ||| c == '\u{1680}'
    ||| ('\u{2000}' <= c && c <= '\u{200A}')
    ||| c == '\u{2028}'
    ||| c == '\u{2029}'
    ||| c == '\u{202F}'
    ||| c == '\u{205F}'
    ||| c == '\u{3000}'
}

/// Whether `c` is Unicode whitespace.
pub fn is_whitespace(c: char) -> (r: bool)
    ensures
        r == is_ws(c),
{
    c == '\t' || c == '\n' || c == '\x0B' || c == '\x0C' || c == '\r' || c == ' ' || c
        == '\u{85}' || c == '\u{A0}' || c == '\u{1680}' || ('\u{2000}' <= c && c <= '\u{200A}')
        || c == '\u{2028}' || c == '\u{2029}' || c == '\u{202F}' || c == '\u{205F}' || c
        == '\u{3000}'
}

/// `s` with leading whitespace removed.
pub open spec fn trim_start_seq(s: Seq<char>) -> Seq<char>
    decreases s.len(),
{
    if s.len() > 0 && is_ws(s[0]) {
        trim_start_seq(s.drop_first())
    } else {
        s
    }
}

/// `s` with trailing whitespace removed.
pub open spec fn trim_end_seq(s: Seq<char>) -> Seq<char>
    decreases s.len(),
{
    if s.len() > 0 && is_ws(s.last()) {
        trim_end_seq(s.drop_last())
    } else {
        s
    }
}

/// `s` with whitespace removed from both ends (what `str::trim` returns).
pub open spec fn trim_seq(s: Seq<char>) -> Seq<char> {
    trim_end_seq(trim_start_seq(s))
}

/// Whether every character of `s` is whitespace.
pub open spec fn all_ws(s: Seq<char>) -> bool {
    forall|i: int| 0 <= i < s.len() ==> is_ws(#[trigger] s[i])
}

/// Dropping leading whitespace from the suffix at `i` is the same as from the
/// suffix at `i + 1` when `s[i]` is whitespace.
pub proof fn lemma_trim_start_step(s: Seq<char>, i: int)
    requires
        0 <= i < s.len(),
        is_ws(s[i]),
    ensures
        trim_start_seq(s.subrange(i, s.len() as int)) == trim_start_seq(
            s.subrange(i + 1, s.len() as int),
        ),
{
    assert(s.subrange(i, s.len() as int).drop_first() =~= s.subrange(i + 1, s.len() as int));
}

/// Dropping trailing whitespace from the prefix of length `j` is the same as from
/// the prefix of length `j - 1` when `s[j - 1]` is whitespace.
pub proof fn lemma_trim_end_step(s: Seq<char>, i: int, j: int)
    requires
        0 <= i < j <= s.len(),
        is_ws(s[j - 1]),
    ensures
        trim_end_seq(s.subrange(i, j)) == trim_end_seq(s.subrange(i, j - 1)),
{
    assert(s.subrange(i, j).drop_last() =~= s.subrange(i, j - 1));
}

/// The trimmed value of an all-whitespace sequence is empty, and a trimmed value
/// is empty only when everything was whitespace.
pub proof fn lemma_trim_empty_iff_all_ws(s: Seq<char>)
    ensures
        trim_seq(s).len() == 0 <==> all_ws(s),
    decreases s.len(),
{
    if s.len() > 0 && is_ws(s[0]) {
        lemma_trim_empty_iff_all_ws(s.drop_first());
        assert(trim_seq(s) == trim_seq(s.drop_first()));
        if all_ws(s.drop_first()) {
            assert forall|i: int| 0 <= i < s.len() implies is_ws(#[trigger] s[i]) by {
                if i > 0 {
                    assert(s[i] == s.drop_first()[i - 1]);
                }
            }
        }
        if all_ws(s) {
            assert forall|i: int| 0 <= i < s.drop_first().len() implies is_ws(
                #[trigger] s.drop_first()[i],
            ) by {
                assert(s.drop_first()[i] == s[i + 1]);
            }
        }
    } else {
        assert(trim_start_seq(s) == s);
        lemma_trim_end_nonempty(s);
        if s.len() > 0 {
            assert(!is_ws(s[0]));
        }
    }
}

/// Trimming the end of a sequence whose first character is not whitespace keeps
/// that character.
proof fn lemma_trim_end_nonempty(s: Seq<char>)
    requires
        s.len() > 0 ==> !is_ws(s[0]),
    ensures
        s.len() > 0 ==> trim_end_seq(s).len() > 0,
    decreases s.len(),
{
    if s.len() > 0 && is_ws(s.last()) {
        assert(s.len() > 1);
        assert(s.drop_last()[0] == s[0]);
        lemma_trim_end_nonempty(s.drop_last());
    }
}

/// The characters of `s`, in order.
pub fn chars_of(s: &str) -> (v: Vec<char>)
    ensures
        v@ == s@,
{
    let n = s.unicode_len();
    let mut v: Vec<char> = Vec::new();
    let mut i: usize = 0;
    while i < n
        invariant
            n == s@.len(),
            i <= n,
            v@ == s@.subrange(0, i as int),
        decreases n - i,
    {
        let c = s.get_char(i);
        v.push(c);
        i = i + 1;
        assert(v@ =~= s@.subrange(0, i as int));
    }
    assert(v@ =~= s@);
    v
}

/// `s` without leading and trailing whitespace (as `str::trim`).
pub fn trim(s: &str) -> (r: &str)
    ensures
        r@ == trim_seq(s@),
{
    let v = chars_of(s);
    let n = v.len();
    let mut i: usize = 0;
    assert(s@.subrange(0, n as int) =~= s@);
    while i < n && is_whitespace(v[i])
        invariant
            n == v@.len(),
            v@ == s@,
            i <= n,
            trim_start_seq(s@) == trim_start_seq(s@.subrange(i as int, n as int)),
        decreases n - i,
    {
        proof {
            lemma_trim_start_step(s@, i as int);
        }
        i = i + 1;
    }
    proof {
        if i < n {
            assert(s@.subrange(i as int, n as int)[0] == s@[i as int]);
        }
        assert(trim_start_seq(s@) == s@.subrange(i as int, n as int));
    }
    let mut j: usize = n;
    while j > i && is_whitespace(v[j - 1])
        invariant
            n == v@.len(),
            v@ == s@,
            i <= j <= n,
            trim_seq(s@) == trim_end_seq(s@.subrange(i as int, j as int)),
        decreases j,
    {
        proof {
            lemma_trim_end_step(s@, i as int, j as int);
        }
        j = j - 1;
    }
    proof {
        if j > i {
            assert(s@.subrange(i as int, j as int).last() == s@[j - 1]);
        }
        assert(trim_end_seq(s@.subrange(i as int, j as int)) == s@.subrange(i as int, j as int));
    }
    s.substring_char(i, j)
}

/// Whether two strings hold the same characters.
pub fn str_eq(a: &str, b: &str) -> (r: bool)
    ensures
        r == (a@ == b@),
{
    let n = a.unicode_len();
    let m = b.unicode_len();
    if n != m {
        return false;
    }
    let mut i: usize = 0;
    while i < n
        invariant
            n == a@.len(),
            m == b@.len(),
            n == m,
            i <= n,
            forall|k: int| 0 <= k < i ==> a@[k] == b@[k],
        decreases n - i,
    {
        if a.get_char(i) != b.get_char(i) {
            return false;
        }
        i = i + 1;
    }
    assert(a@ =~= b@);
    true
}

// ===== splitting on whitespace =====

/// Length of the run of non-whitespace characters at the start of `s`.
pub open spec fn word_len(s: Seq<char>) -> nat
    decreases s.len(),
{
    if s.len() == 0 || is_ws(s[0]) {
        0
    } else {
        1 + word_len(s.drop_first())
    }
}

/// `word_len` never exceeds the length.
pub proof fn lemma_word_len_bound(s: Seq<char>)
    ensures
        word_len(s) <= s.len(),
        s.len() > 0 && !is_ws(s[0]) ==> word_len(s) >= 1,
    decreases s.len(),
{
    if s.len() > 0 && !is_ws(s[0]) {
        lemma_word_len_bound(s.drop_first());
    }
}

/// The whitespace-separated words of `s` (what `str::split_whitespace` yields).
pub open spec fn split_ws(s: Seq<char>) -> Seq<Seq<char>>
    decreases s.len(),
{
    if s.len() == 0 {
        seq![]
    } else if is_ws(s[0]) {
        split_ws(s.drop_first())
    } else {
        proof {
            lemma_word_len_bound(s);
        }
        seq![s.take(word_len(s) as int)] + split_ws(s.skip(word_len(s) as int))
    }
}

/// The views of a list of string slices.
pub open spec fn views(v: Seq<&str>) -> Seq<Seq<char>> {
    v.map_values(|x: &str| x@)
}

/// A run of non-whitespace characters `s[i..j)` ended by whitespace or the end
/// has `word_len` equal to its length.
proof fn lemma_word_len_run(s: Seq<char>, i: int, j: int)
    requires
        0 <= i <= j <= s.len(),
        forall|k: int| i <= k < j ==> !is_ws(#[trigger] s[k]),
        j == s.len() || is_ws(s[j]),
    ensures
        word_len(s.subrange(i, s.len() as int)) == j - i,
    decreases j - i,
{
    let t = s.subrange(i, s.len() as int);
    if i < j {
        assert(t[0] == s[i]);
        assert(t.drop_first() =~= s.subrange(i + 1, s.len() as int));
        lemma_word_len_run(s, i + 1, j);
    } else if j < s.len() {
        assert(t[0] == s[j]);
    }
}

/// The words of `s` (as `str::split_whitespace`).
pub fn split_whitespace(s: &str) -> (r: Vec<&str>)
    ensures
        views(r@) == split_ws(s@),
{
    let v = chars_of(s);
    let n = v.len();
    let mut out: Vec<&str> = Vec::new();
    let mut i: usize = 0;
    assert(s@.subrange(0, n as int) =~= s@);
    assert(views(out@) =~= Seq::<Seq<char>>::empty());
    assert(views(out@) + split_ws(s@) =~= split_ws(s@));
    while i < n
        invariant
            n == v@.len(),
            v@ == s@,
            i <= n,
            views(out@) + split_ws(s@.subrange(i as int, n as int)) == split_ws(s@),
        decreases n - i,
    {
        let ghost rest = s@.subrange(i as int, n as int);
        if is_whitespace(v[i]) {
            proof {
                assert(rest[0] == s@[i as int]);
                assert(rest.drop_first() =~= s@.subrange(i + 1, n as int));
            }
            i = i + 1;
        } else {
            let mut j: usize = i;
            while j < n && !is_whitespace(v[j])
                invariant
                    n == v@.len(),
                    v@ == s@,
                    i <= j <= n,
                    forall|k: int| i <= k < j ==> !is_ws(#[trigger] s@[k]),
                decreases n - j,
            {
                j = j + 1;
            }
            let w = s.substring_char(i, j);
            let ghost old_out = views(out@);
            out.push(w);
            proof {
                assert(rest[0] == s@[i as int]);
                lemma_word_len_run(s@, i as int, j as int);
                assert(rest.take(word_len(rest) as int) =~= s@.subrange(i as int, j as int));
                assert(rest.skip(word_len(rest) as int) =~= s@.subrange(j as int, n as int));
                assert(views(out@) =~= old_out.push(w@));
                assert(split_ws(rest) == seq![w@] + split_ws(s@.subrange(j as int, n as int)));
                assert(views(out@) + split_ws(s@.subrange(j as int, n as int)) =~= old_out
                    + split_ws(rest));
            }
            i = j;
        }
    }
    proof {
        assert(s@.subrange(n as int, n as int) =~= Seq::<char>::empty());
        assert(views(out@) + Seq::<Seq<char>>::empty() =~= views(out@));
    }
    out
}


// ===== decimal numbers =====

/// The ASCII digit for `d` (`d < 10`).
pub open spec fn digit_char(d: nat) -> char {
    if d == 0 {
        '0'
    } else if d == 1 {
        '1'
    } else if d == 2 {
        '2'
    } else if d == 3 {
        '3'
    } else if d == 4 {
        '4'
    } else if d == 5 {
        '5'
    } else if d == 6 {
        '6'
    } else if d == 7 {
        '7'
    } else if d == 8 {
        '8'
    } else {
        '9'
    }
}

/// The decimal representation of `n`, without sign or leading zeros.
pub open spec fn dec_seq(n: nat) -> Seq<char>
    decreases n,
{
    if n < 10 {
        seq![digit_char(n)]
    } else {
        dec_seq(n / 10).push(digit_char(n % 10))
    }
}

/// The one-character string for digit `d`.
fn digit_str(d: u64) -> (r: &'static str)
    requires
        d < 10,
    ensures
        r@ == seq![digit_char(d as nat)],
{
    proof {
        reveal_strlit("0");
        reveal_strlit("1");
        reveal_strlit("2");
        reveal_strlit("3");
        reveal_strlit("4");
        reveal_strlit("5");
        reveal_strlit("6");
        reveal_strlit("7");
        reveal_strlit("8");
        reveal_strlit("9");
    }
    if d == 0 {
        "0"
    } else if d == 1 {
        "1"
    } else if d == 2 {
        "2"
    } else if d == 3 {
        "3"
    } else if d == 4 {
        "4"
    } else if d == 5 {
        "5"
    } else if d == 6 {
        "6"
    } else if d == 7 {
        "7"
    } else if d == 8 {
        "8"
    } else {
        "9"
    }
}

/// Appends the decimal representation of `n` to `out`.
pub fn push_decimal(out: &mut String, n: u64)
    ensures
        final(out)@ == old(out)@ + dec_seq(n as nat),
    decreases n,
{
    if n < 10 {
        out.append(digit_str(n));
        assert(seq![digit_char(n as nat)] =~= dec_seq(n as nat));
    } else {
        push_decimal(out, n / 10);
        out.append(digit_str(n % 10));
        assert(dec_seq(n as nat) == dec_seq((n / 10) as nat).push(digit_char((n % 10) as nat)));
    }
}

/// The decimal representation of `n` (as `n.to_string()`).
pub fn decimal(n: u64) -> (r: String)
    ensures
        r@ == dec_seq(n as nat),
{
    let mut s = String::new();
    push_decimal(&mut s, n);
    assert(Seq::<char>::empty() + dec_seq(n as nat) =~= dec_seq(n as nat));
    s
}

// ===== building strings =====

/// `n` spaces.
pub open spec fn spaces(n: nat) -> Seq<char> {
    Seq::new(n, |i: int| ' ')
}

/// `s` padded with spaces on the right to at least `width` characters
/// (the `{:<width}` format).
pub open spec fn pad_right_seq(s: Seq<char>, width: nat) -> Seq<char> {
    if s.len() >= width {
        s
    } else {
        s + spaces((width - s.len()) as nat)
    }
}

/// Appends `s` padded on the right with spaces to `width` characters.
pub fn push_padded(out: &mut String, s: &str, width: usize)
    ensures
        final(out)@ == old(out)@ + pad_right_seq(s@, width as nat),
{
    proof {
        reveal_strlit(" ");
    }
    let ghost start = out@;
    out.append(s);
    let len = s.unicode_len();
    let mut k: usize = len;
    while k < width
        invariant
            len == s@.len(),
            len <= k,
            k <= width || k == len,
            out@ == start + s@ + spaces((k - len) as nat),
        decreases width - k,
    {
        proof {
            reveal_strlit(" ");
        }
        out.append(" ");
        assert(" "@ =~= seq![' ']);
        assert(spaces((k + 1 - len) as nat) =~= spaces((k - len) as nat).push(' '));
        assert(out@ =~= start + s@ + spaces((k + 1 - len) as nat));
        k = k + 1;
    }
    if len >= width {
        assert(spaces(0) =~= Seq::<char>::empty());
        assert(out@ =~= start + pad_right_seq(s@, width as nat));
    } else {
        assert(k == width);
        assert(out@ =~= start + pad_right_seq(s@, width as nat));
    }
}

/// The parts joined with `sep` between neighbours.
pub open spec fn join_seq(parts: Seq<Seq<char>>, sep: Seq<char>) -> Seq<char>
    decreases parts.len(),
{
    if parts.len() == 0 {
        seq![]
    } else if parts.len() == 1 {
        parts[0]
    } else {
        join_seq(parts.drop_last(), sep) + sep + parts.last()
    }
}

/// The views of a list of strings.
pub open spec fn string_views(v: Seq<String>) -> Seq<Seq<char>> {
    v.map_values(|x: String| x@)
}

/// The strings joined with `sep` (as `parts.join(sep)`).
pub fn join(parts: &Vec<String>, sep: &str) -> (r: String)
    ensures
        r@ == join_seq(string_views(parts@), sep@),
{
    let mut out = String::new();
    let n = parts.len();
    let ghost all = string_views(parts@);
    let mut i: usize = 0;
    while i < n
        invariant
            n == parts@.len(),
            all == string_views(parts@),
            i <= n,
            out@ == join_seq(all.take(i as int), sep@),
        decreases n - i,
    {
        if i != 0 {
            out.append(sep);
        }
        out.append(parts[i].as_str());
        proof {
            assert(all.take(i + 1).drop_last() =~= all.take(i as int));
            if i == 0 {
                assert(all.take(0) =~= Seq::<Seq<char>>::empty());
                assert(out@ =~= all.take(1)[0]);
            }
        }
        i = i + 1;
    }
    assert(all.take(n as int) =~= all);
    out
}

/// A copy of a list of strings.
pub fn copy_strings(v: &[String]) -> (r: Vec<String>)
    ensures
        string_views(r@) == string_views(v@),
{
    let n = v.len();
    let mut out: Vec<String> = Vec::new();
    let mut i: usize = 0;
    while i < n
        invariant
            n == v@.len(),
            i <= n,
            string_views(out@) == string_views(v@).take(i as int),
        decreases n - i,
    {
        let ghost before = out@;
        out.push(v[i].clone());
        assert(string_views(out@) =~= string_views(before).push(v@[i as int]@));
        assert(string_views(v@).take(i + 1) =~= string_views(v@).take(i as int).push(v@[i as int]@));
        i = i + 1;
    }
    assert(string_views(v@).take(n as int) =~= string_views(v@));
    out
}

// ===== searching =====

/// `needle` occurs in `hay` starting at character `i`.
pub open spec fn occurs_at(hay: Seq<char>, needle: Seq<char>, i: int) -> bool {
    0 <= i && i + needle.len() <= hay.len() && hay.subrange(i, i + needle.len()) == needle
}

/// `needle` occurs somewhere in `hay` (as `str::contains`).
pub open spec fn contains_seq(hay: Seq<char>, needle: Seq<char>) -> bool {
    exists|i: int| occurs_at(hay, needle, i)
}

/// Position of the first occurrence of `needle` in `hay` at or after `from`.
pub fn find_from(hay: &Vec<char>, needle: &Vec<char>, from: usize) -> (r: Option<usize>)
    ensures
        match r {
            Some(i) => from <= i && occurs_at(hay@, needle@, i as int) && forall|j: int|
                from <= j < i ==> !occurs_at(hay@, needle@, j),
            None => forall|j: int| from <= j ==> !occurs_at(hay@, needle@, j),
        },
{
    let n = hay.len();
    let m = needle.len();
    if m > n || from > n {
        return None;
    }
    let mut i: usize = from;
    while i <= n - m
        invariant
            n == hay@.len(),
            m == needle@.len(),
            m <= n,
            from <= i <= n,
            forall|j: int| from <= j < i ==> !occurs_at(hay@, needle@, j),
        decreases n - i,
    {
        let mut k: usize = 0;
        while k < m && hay[i + k] == needle[k]
            invariant
                n == hay@.len(),
                m == needle@.len(),
                i + m <= n,
                k <= m,
                forall|t: int| 0 <= t < k ==> hay@[i + t] == needle@[t],
            decreases m - k,
        {
            k = k + 1;
        }
        if k == m {
            assert(hay@.subrange(i as int, i + m) =~= needle@);
            return Some(i);
        }
        assert(hay@.subrange(i as int, i + m)[k as int] != needle@[k as int]);
        i = i + 1;
    }
    None
}

/// Position of the first occurrence of `needle` in `hay`.
pub fn find_chars(hay: &Vec<char>, needle: &Vec<char>) -> (r: Option<usize>)
    ensures
        match r {
            Some(i) => occurs_at(hay@, needle@, i as int) && forall|j: int|
                0 <= j < i ==> !occurs_at(hay@, needle@, j),
            None => !contains_seq(hay@, needle@),
        },
{
    find_from(hay, needle, 0)
}

/// Whether `needle` occurs in `hay` (as `str::contains`).
pub fn contains(hay: &str, needle: &str) -> (r: bool)
    ensures
        r == contains_seq(hay@, needle@),
{
    let h = chars_of(hay);
    let n = chars_of(needle);
    match find_chars(&h, &n) {
        Some(_) => true,
        None => false,
    }
}

/// `i` is the position of the first occurrence of `needle` in `hay`.
pub open spec fn is_first_occurrence(hay: Seq<char>, needle: Seq<char>, i: int) -> bool {
    occurs_at(hay, needle, i) && forall|j: int| 0 <= j < i ==> !occurs_at(hay, needle, j)
}

/// What follows the first occurrence of `needle` in `hay`, if there is one
/// (`hay[hay.find(needle)? + needle.len()..]`).
pub open spec fn after_first_seq(hay: Seq<char>, needle: Seq<char>) -> Option<Seq<char>> {
    if contains_seq(hay, needle) {
        let i = choose|i: int| is_first_occurrence(hay, needle, i);
        Some(hay.skip(i + needle.len()))
    } else {
        None
    }
}

/// What follows the first occurrence of `needle` in `hay`.
pub fn after_first<'a>(hay: &'a str, needle: &str) -> (r: Option<&'a str>)
    ensures
        match r {
            Some(t) => after_first_seq(hay@, needle@) == Some(t@),
            None => after_first_seq(hay@, needle@) is None,
        },
{
    let h = chars_of(hay);
    let k = chars_of(needle);
    match find_chars(&h, &k) {
        Some(i) => {
            proof {
                assert(is_first_occurrence(hay@, needle@, i as int));
                let c = choose|c: int| is_first_occurrence(hay@, needle@, c);
                if c < i {
                    assert(!occurs_at(hay@, needle@, c));
                } else if c > i {
                    assert(!occurs_at(hay@, needle@, i as int));
                }
                assert(c == i);
            }
            let n = h.len();
            assert(occurs_at(h@, k@, i as int));
            let start: usize = i + k.len();
            let t = hay.substring_char(start, n);
            assert(t@ =~= hay@.skip(i + needle@.len()));
            Some(t)
        },
        None => None,
    }
}

/// Whether character `c` occurs in `s`.
pub open spec fn has_char(s: Seq<char>, c: char) -> bool {
    exists|i: int| 0 <= i < s.len() && s[i] == c
}

/// The part of `s` after its last `c`, or all of `s` when `c` does not occur
/// (what `s.rsplit(c).next()` yields).
pub open spec fn after_last_seq(s: Seq<char>, c: char) -> Seq<char>
    decreases s.len(),
{
    if s.len() == 0 {
        s
    } else if s.last() == c {
        seq![]
    } else {
        after_last_seq(s.drop_last(), c).push(s.last())
    }
}

/// The part of `s` after its last `c` (all of `s` when there is none).
pub fn after_last(s: &str, c: char) -> (r: &str)
    ensures
        r@ == after_last_seq(s@, c),
{
    let v = chars_of(s);
    let n = v.len();
    let mut j: usize = n;
    while j > 0 && v[j - 1] != c
        invariant
            n == v@.len(),
            v@ == s@,
            j <= n,
            forall|k: int| j <= k < n ==> s@[k] != c,
        decreases j,
    {
        j = j - 1;
    }
    proof {
        lemma_after_last(s@, c, j as int);
    }
    s.substring_char(j, n)
}

/// When no `c` occurs at or after `j`, and `j == 0` or `s[j - 1] == c`, the part
/// after the last `c` is `s[j..]`.
proof fn lemma_after_last(s: Seq<char>, c: char, j: int)
    requires
        0 <= j <= s.len(),
        forall|k: int| j <= k < s.len() ==> s[k] != c,
        j == 0 || s[j - 1] == c,
    ensures
        after_last_seq(s, c) == s.subrange(j, s.len() as int),
    decreases s.len(),
{
    if s.len() == 0 {
    } else if j == s.len() {
        assert(s.last() == c);
    } else {
        assert(s.last() != c);
        lemma_after_last(s.drop_last(), c, j);
        assert(s.subrange(j, s.len() as int) =~= s.drop_last().subrange(j, s.len() - 1).push(
            s.last(),
        ));
    }
}


// ===== unsigned integer parsing =====

/// Whether `c` is an ASCII digit.
pub open spec fn is_digit(c: char) -> bool {
    '0' <= c && c <= '9'
}

/// Every character of `s` is an ASCII digit.
pub open spec fn all_digits(s: Seq<char>) -> bool {
    forall|i: int| 0 <= i < s.len() ==> is_digit(#[trigger] s[i])
}

/// Value of a digit character.
pub open spec fn digit_value(c: char) -> nat {
    (c as int - '0' as int) as nat
}

/// Value of a run of digits, read in base ten.
pub open spec fn digits_value(s: Seq<char>) -> nat
    decreases s.len(),
{
    if s.len() == 0 {
        0
    } else {
        digits_value(s.drop_last()) * 10 + digit_value(s.last())
    }
}

/// What `str::parse::<u32>` accepts: an optional `+`, then one or more digits
/// whose value fits in `u32`.
pub open spec fn parse_u32_seq(s: Seq<char>) -> Option<u32> {
    let body = if s.len() > 0 && s[0] == '+' {
        s.drop_first()
    } else {
        s
    };
    if body.len() > 0 && all_digits(body) && digits_value(body) <= u32::MAX {
        Some(digits_value(body) as u32)
    } else {
        None
    }
}

/// Parses an unsigned 32-bit decimal (as `str::parse::<u32>`).
pub fn parse_u32(s: &str) -> (r: Option<u32>)
    ensures
        r == parse_u32_seq(s@),
{
    let v = chars_of(s);
    let n = v.len();
    let start: usize = if n > 0 && v[0] == '+' {
        1
    } else {
        0
    };
    let ghost body = if s@.len() > 0 && s@[0] == '+' {
        s@.drop_first()
    } else {
        s@
    };
    assert(body =~= s@.subrange(start as int, n as int));
    if start == n {
        return None;
    }
    let mut acc: u64 = 0;
    let mut i: usize = start;
    while i < n
        invariant
            n == v@.len(),
            v@ == s@,
            start < n,
            start <= i <= n,
            body == s@.subrange(start as int, n as int),
            body == (if s@.len() > 0 && s@[0] == '+' {
                s@.drop_first()
            } else {
                s@
            }),
            all_digits(s@.subrange(start as int, i as int)),
            acc == digits_value(s@.subrange(start as int, i as int)),
            acc <= u32::MAX,
        decreases n - i,
    {
        let c = v[i];
        if !('0' <= c && c <= '9') {
            assert(body[i - start] == c);
            return None;
        }
        let d = (c as u32 - '0' as u32) as u64;
        let next = acc * 10 + d;
        let ghost pre = s@.subrange(start as int, i as int);
        let ghost ext = s@.subrange(start as int, i + 1);
        assert(ext.drop_last() =~= pre);
        assert(ext.last() == c);
        assert(all_digits(ext)) by {
            assert forall|k: int| 0 <= k < ext.len() implies is_digit(#[trigger] ext[k]) by {
                if k < pre.len() {
                    assert(ext[k] == pre[k]);
                }
            }
        }
        assert(digits_value(ext) == next);
        if next > 0xFFFF_FFFF {
            proof {
                lemma_digits_value_prefix_grows(body, (i + 1 - start) as int);
                assert(body.subrange(0, (i + 1 - start) as int) =~= ext);
            }
            return None;
        }
        acc = next;
        i = i + 1;
    }
    assert(s@.subrange(start as int, n as int) =~= body);
    Some(acc as u32)
}

/// The value of a digit string is at least the value of any of its prefixes.
pub proof fn lemma_digits_value_prefix_grows(s: Seq<char>, k: int)
    requires
        0 <= k <= s.len(),
    ensures
        digits_value(s.subrange(0, k)) <= digits_value(s),
    decreases s.len(),
{
    if k < s.len() {
        assert(s.drop_last() =~= s.subrange(0, s.len() - 1));
        lemma_digits_value_prefix_grows(s.drop_last(), k);
        assert(s.drop_last().subrange(0, k) =~= s.subrange(0, k));
    } else {
        assert(s.subrange(0, k) =~= s);
    }
}

// ===== case mapping =====

/// The lowercase form of `s` as `str::to_lowercase` gives it (full Unicode
/// case mapping, locale independent).
pub uninterp spec fn lowercase_of(s: Seq<char>) -> Seq<char>;

/// `str::to_lowercase`. Its result is named, not described: the contract only
/// says that it is `lowercase_of` of the argument.
#[verifier::external_body]
pub(crate) fn to_lowercase(s: &str) -> (r: String)
    ensures
        r@ == lowercase_of(s@),
{
    s.to_lowercase()
}

} // verus!
