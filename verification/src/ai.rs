//! The assistant panel's logic: its settings and messages, the offline rule
//! driver that maps a sentence onto a shell command, the request the remote
//! driver sends, and the replies the panel shows.

use vstd::prelude::*;

use crate::text::{
    after_first, after_first_seq, after_last, after_last_seq, chars_of, contains, contains_seq,
    copy_strings, has_char, is_digit, join, join_seq, push_decimal, dec_seq, split_whitespace, split_ws, str_eq,
    string_views, trim, trim_seq, views,
};

verus! {

// ===== numbers inside a sentence =====

/// A character that continues a number: an ASCII digit or a dot.
pub open spec fn is_num_char(c: char) -> bool {
    is_digit(c) || c == '.'
}

/// The leading run of digits and dots of `s`.
pub open spec fn num_run(s: Seq<char>) -> Seq<char>
    decreases s.len(),
{
    if s.len() > 0 && is_num_char(s[0]) {
        seq![s[0]] + num_run(s.drop_first())
    } else {
        seq![]
    }
}

/// The first number-like token of `s`: from its first digit on, the run of
/// digits and dots (empty when `s` holds no digit).
pub open spec fn num_token(s: Seq<char>) -> Seq<char>
    decreases s.len(),
{
    if s.len() == 0 {
        seq![]
    } else if is_digit(s[0]) {
        num_run(s)
    } else {
        num_token(s.drop_first())
    }
}

/// A decimal literal that `f64` parsing accepts and that starts with a digit:
/// digits with at most one dot.
pub open spec fn is_decimal_text(s: Seq<char>) -> bool {
    &&& s.len() > 0
    &&& is_digit(s[0])
    &&& forall|i: int| 0 <= i < s.len() ==> is_num_char(#[trigger] s[i])
    &&& forall|i: int, j: int|
        #![trigger s[i], s[j]]
        0 <= i < j < s.len() && s[i] == '.' ==> s[j] != '.'
}

/// Whether `c` is an ASCII digit.
fn is_digit_char(c: char) -> (r: bool)
    ensures
        r == is_digit(c),
{
    '0' <= c && c <= '9'
}

/// Whether `t` is a decimal literal.
fn is_decimal(t: &Vec<char>) -> (r: bool)
    ensures
        r == is_decimal_text(t@),
{
    let n = t.len();
    if n == 0 || !is_digit_char(t[0]) {
        return false;
    }
    let mut seen: Option<usize> = None;
    let mut i: usize = 0;
    while i < n
        invariant
            n == t@.len(),
            0 < n,
            is_digit(t@[0]),
            i <= n,
            forall|k: int| 0 <= k < i ==> is_num_char(#[trigger] t@[k]),
            forall|a: int, b: int|
                #![trigger t@[a], t@[b]]
                0 <= a < b < i && t@[a] == '.' ==> t@[b] != '.',
            match seen {
                Some(p) => p < i && t@[p as int] == '.',
                None => forall|k: int| 0 <= k < i ==> t@[k] != '.',
            },
        decreases n - i,
    {
        let c = t[i];
        if !(is_digit_char(c) || c == '.') {
            assert(!is_num_char(t@[i as int]));
            return false;
        }
        if c == '.' {
            match seen {
                Some(p) => {
                    assert(t@[p as int] == '.' && t@[i as int] == '.');
                    return false;
                },
                None => {
                    seen = Some(i);
                },
            }
        }
        i = i + 1;
    }
    true
}

/// The first number-like token of `s`.
fn number_token<'a>(s: &'a str) -> (r: &'a str)
    ensures
        r@ == num_token(s@),
{
    let v = chars_of(s);
    let n = v.len();
    let mut i: usize = 0;
    assert(s@.skip(0) =~= s@);
    while i < n && !is_digit_char(v[i])
        invariant
            n == v@.len(),
            v@ == s@,
            i <= n,
            num_token(s@) == num_token(s@.skip(i as int)),
        decreases n - i,
    {
        assert(s@.skip(i as int)[0] == s@[i as int]);
        assert(s@.skip(i as int).drop_first() =~= s@.skip(i + 1));
        i = i + 1;
    }
    proof {
        if i < n {
            assert(s@.skip(i as int)[0] == s@[i as int]);
        } else {
            assert(s@.skip(i as int) =~= Seq::<char>::empty());
        }
        assert(num_token(s@) == num_run(s@.skip(i as int)));
        assert(s@.subrange(i as int, i as int) + num_run(s@.skip(i as int)) =~= num_run(
            s@.skip(i as int),
        ));
    }
    let mut j: usize = i;
    while j < n && (is_digit_char(v[j]) || v[j] == '.')
        invariant
            n == v@.len(),
            v@ == s@,
            i <= j <= n,
            num_token(s@) == s@.subrange(i as int, j as int) + num_run(s@.skip(j as int)),
        decreases n - j,
    {
        assert(s@.skip(j as int)[0] == s@[j as int]);
        assert(s@.skip(j as int).drop_first() =~= s@.skip(j + 1));
        assert(s@.subrange(i as int, j + 1) =~= s@.subrange(i as int, j as int) + seq![
            s@[j as int],
        ]);
        assert(s@.subrange(i as int, j as int) + num_run(s@.skip(j as int)) =~= s@.subrange(
            i as int,
            j + 1,
        ) + num_run(s@.skip(j + 1)));
        j = j + 1;
    }
    proof {
        if j < n {
            assert(s@.skip(j as int)[0] == s@[j as int]);
        }
        assert(num_run(s@.skip(j as int)) =~= Seq::<char>::empty());
        assert(s@.subrange(i as int, j as int) + Seq::<char>::empty() =~= s@.subrange(
            i as int,
            j as int,
        ));
    }
    s.substring_char(i, j)
}

/// The number that follows the first keyword (in order) whose first
/// occurrence is followed by a decimal literal, if any.
pub open spec fn number_after_first_keyword(text: Seq<char>, kws: Seq<Seq<char>>) -> Option<
    Seq<char>,
>
    decreases kws.len(),
{
    if kws.len() == 0 {
        None
    } else {
        let hit = after_first_seq(text, kws[0]);
        if hit is Some && is_decimal_text(num_token(hit.unwrap())) {
            Some(num_token(hit.unwrap()))
        } else {
            number_after_first_keyword(text, kws.drop_first())
        }
    }
}

/// Some keyword of `kws` occurs in `text`.
pub open spec fn mentions_any(text: Seq<char>, kws: Seq<Seq<char>>) -> bool {
    exists|i: int| 0 <= i < kws.len() && contains_seq(text, #[trigger] kws[i])
}

/// The number a sentence gives for one of `kws`: the number after the first
/// keyword that is followed by one; failing that, when some keyword occurs at
/// all (as in "给 X 做 N 缓冲"), the first number of the text. A sentence that
/// names none of the keywords gives no number.
pub open spec fn number_after_keywords(text: Seq<char>, kws: Seq<Seq<char>>) -> Option<Seq<char>> {
    match number_after_first_keyword(text, kws) {
        Some(n) => Some(n),
        None => if mentions_any(text, kws) && is_decimal_text(num_token(text)) {
            Some(num_token(text))
        } else {
            None
        },
    }
}

/// The number after one of `keywords`, as decimal text.
fn extract_number_after(text: &str, keywords: &[&str]) -> (r: Option<String>)
    ensures
        match r {
            Some(t) => number_after_keywords(text@, views(keywords@)) == Some(t@),
            None => number_after_keywords(text@, views(keywords@)) is None,
        },
{
    let n = keywords.len();
    let ghost kv = views(keywords@);
    let mut k: usize = 0;
    let mut seen = false;
    assert(kv.skip(0) =~= kv);
    while k < n
        invariant
            n == keywords@.len(),
            kv == views(keywords@),
            k <= n,
            number_after_first_keyword(text@, kv) == number_after_first_keyword(
                text@,
                kv.skip(k as int),
            ),
            seen <==> exists|i: int| 0 <= i < k && contains_seq(text@, #[trigger] kv[i]),
        decreases n - k,
    {
        assert(kv.skip(k as int)[0] == keywords@[k as int]@);
        assert(kv[k as int] == keywords@[k as int]@);
        assert(kv.skip(k as int).drop_first() =~= kv.skip(k + 1));
        match after_first(text, keywords[k]) {
            Some(rest) => {
                let tok = number_token(rest);
                let tv = chars_of(tok);
                if is_decimal(&tv) {
                    return Some(String::from_str(tok));
                }
                assert(contains_seq(text@, kv[k as int]));
                seen = true;
            },
            None => {
                assert(!contains_seq(text@, kv[k as int]));
            },
        }
        k = k + 1;
    }
    assert(kv.skip(n as int) =~= Seq::<Seq<char>>::empty());
    assert(seen == mentions_any(text@, kv));
    if !seen {
        return None;
    }
    let tok = number_token(text);
    let tv = chars_of(tok);
    if is_decimal(&tv) {
        Some(String::from_str(tok))
    } else {
        None
    }
}

// ===== paths inside a sentence =====

/// A straight or single quote.
pub open spec fn is_quote(c: char) -> bool {
    c == '"' || c == '\''
}

/// `s` without leading quotes.
pub open spec fn strip_quotes_start(s: Seq<char>) -> Seq<char>
    decreases s.len(),
{
    if s.len() > 0 && is_quote(s[0]) {
        strip_quotes_start(s.drop_first())
    } else {
        s
    }
}

/// `s` without trailing quotes.
pub open spec fn strip_quotes_end(s: Seq<char>) -> Seq<char>
    decreases s.len(),
{
    if s.len() > 0 && is_quote(s.last()) {
        strip_quotes_end(s.drop_last())
    } else {
        s
    }
}

/// `s` without quotes at either end (as `trim_matches` with a quote test).
pub open spec fn strip_quotes(s: Seq<char>) -> Seq<char> {
    strip_quotes_end(strip_quotes_start(s))
}

/// `s` without quotes at either end.
fn trim_quotes<'a>(s: &'a str) -> (r: &'a str)
    ensures
        r@ == strip_quotes(s@),
{
    let v = chars_of(s);
    let n = v.len();
    let mut i: usize = 0;
    assert(s@.subrange(0, n as int) =~= s@);
    while i < n && (v[i] == '"' || v[i] == '\'')
        invariant
            n == v@.len(),
            v@ == s@,
            i <= n,
            strip_quotes_start(s@) == strip_quotes_start(s@.subrange(i as int, n as int)),
        decreases n - i,
    {
        assert(s@.subrange(i as int, n as int).drop_first() =~= s@.subrange(i + 1, n as int));
        i = i + 1;
    }
    proof {
        if i < n {
            assert(s@.subrange(i as int, n as int)[0] == s@[i as int]);
        }
        assert(strip_quotes_start(s@) == s@.subrange(i as int, n as int));
    }
    let mut j: usize = n;
    while j > i && (v[j - 1] == '"' || v[j - 1] == '\'')
        invariant
            n == v@.len(),
            v@ == s@,
            i <= j <= n,
            strip_quotes(s@) == strip_quotes_end(s@.subrange(i as int, j as int)),
        decreases j,
    {
        assert(s@.subrange(i as int, j as int).drop_last() =~= s@.subrange(i as int, j - 1));
        j = j - 1;
    }
    proof {
        if j > i {
            assert(s@.subrange(i as int, j as int).last() == s@[j - 1]);
        }
        assert(strip_quotes_end(s@.subrange(i as int, j as int)) == s@.subrange(
            i as int,
            j as int,
        ));
    }
    s.substring_char(i, j)
}

/// A path is recognised by a dot, a slash or a backslash.
pub open spec fn has_path_mark(p: Seq<char>) -> bool {
    has_char(p, '.') || has_char(p, '/') || has_char(p, '\\')
}

/// The path after the first opening keyword (in order) whose first
/// occurrence is followed, once trimmed of whitespace and quotes, by a
/// non-empty text with a path mark.
pub open spec fn load_path(text: Seq<char>, kws: Seq<Seq<char>>) -> Option<Seq<char>>
    decreases kws.len(),
{
    if kws.len() == 0 {
        None
    } else {
        let hit = after_first_seq(text, kws[0]);
        let p = strip_quotes(trim_seq(hit.unwrap()));
        if hit is Some && p.len() > 0 && has_path_mark(p) {
            Some(p)
        } else {
            load_path(text, kws.drop_first())
        }
    }
}

/// Whether `c` occurs in `v`.
fn vec_has_char(v: &Vec<char>, c: char) -> (r: bool)
    ensures
        r == has_char(v@, c),
{
    let n = v.len();
    let mut i: usize = 0;
    while i < n
        invariant
            n == v@.len(),
            i <= n,
            forall|k: int| 0 <= k < i ==> v@[k] != c,
        decreases n - i,
    {
        if v[i] == c {
            return true;
        }
        i = i + 1;
    }
    false
}

/// The path that follows one of `keywords`.
fn path_after(text: &str, keywords: &[&str]) -> (r: Option<String>)
    ensures
        match r {
            Some(p) => load_path(text@, views(keywords@)) == Some(p@),
            None => load_path(text@, views(keywords@)) is None,
        },
{
    let n = keywords.len();
    let ghost kv = views(keywords@);
    let mut k: usize = 0;
    assert(kv.skip(0) =~= kv);
    while k < n
        invariant
            n == keywords@.len(),
            kv == views(keywords@),
            k <= n,
            load_path(text@, kv) == load_path(text@, kv.skip(k as int)),
        decreases n - k,
    {
        assert(kv.skip(k as int)[0] == keywords@[k as int]@);
        assert(kv.skip(k as int).drop_first() =~= kv.skip(k + 1));
        match after_first(text, keywords[k]) {
            Some(rest) => {
                let p = trim_quotes(trim(rest));
                let pv = chars_of(p);
                if pv.len() > 0 && (vec_has_char(&pv, '.') || vec_has_char(&pv, '/')
                    || vec_has_char(&pv, '\\')) {
                    return Some(String::from_str(p));
                }
            },
            None => {},
        }
        k = k + 1;
    }
    None
}

/// An ASCII letter or digit.
pub open spec fn is_ascii_alnum(c: char) -> bool {
    ('0' <= c && c <= '9') || ('a' <= c && c <= 'z') || ('A' <= c && c <= 'Z')
}

/// The length in bytes of the UTF-8 encoding of `s` (what `str::len` gives).
pub open spec fn byte_len(s: Seq<char>) -> usize {
    vstd::utf8::encode_utf8(s).len() as usize
}

/// A word that looks like a file path: it holds a dot, and the text after
/// its last dot is at most ten bytes of ASCII letters and digits.
pub open spec fn is_path_like(w: Seq<char>) -> bool {
    let e = after_last_seq(w, '.');
    &&& byte_len(e) <= 10
    &&& forall|i: int| 0 <= i < e.len() ==> is_ascii_alnum(#[trigger] e[i])
    &&& has_char(w, '.')
}

/// The first path-like word of `ws`.
pub open spec fn first_path_like(ws: Seq<Seq<char>>) -> Option<Seq<char>>
    decreases ws.len(),
{
    if ws.len() == 0 {
        None
    } else if is_path_like(ws[0]) {
        Some(ws[0])
    } else {
        first_path_like(ws.drop_first())
    }
}

/// Whether a word looks like a file path.
fn path_like(w: &str) -> (r: bool)
    ensures
        r == is_path_like(w@),
{
    let e = after_last(w, '.');
    let el = e.len();
    assert(el == byte_len(e@));
    if el > 10 {
        return false;
    }
    let ev = chars_of(e);
    let n = ev.len();
    let mut i: usize = 0;
    while i < n
        invariant
            n == ev@.len(),
            ev@ == e@,
            e@ == after_last_seq(w@, '.'),
            el == byte_len(e@),
            el <= 10,
            i <= n,
            forall|k: int| 0 <= k < i ==> is_ascii_alnum(#[trigger] e@[k]),
        decreases n - i,
    {
        let c = ev[i];
        if !(('0' <= c && c <= '9') || ('a' <= c && c <= 'z') || ('A' <= c && c <= 'Z')) {
            assert(!is_ascii_alnum(after_last_seq(w@, '.')[i as int]));
            return false;
        }
        i = i + 1;
    }
    let wv = chars_of(w);
    vec_has_char(&wv, '.')
}

/// The first whitespace-separated word of `text` that looks like a file path
/// (a dot, then at most ten ASCII letters or digits after the last dot).
pub fn extract_path_like(text: &str) -> (r: Option<&str>)
    ensures
        match r {
            Some(w) => first_path_like(split_ws(text@)) == Some(w@),
            None => first_path_like(split_ws(text@)) is None,
        },
{
    let words = split_whitespace(text);
    let ghost ws = split_ws(text@);
    let n = words.len();
    let mut k: usize = 0;
    assert(ws.skip(0) =~= ws);
    while k < n
        invariant
            n == words@.len(),
            views(words@) == ws,
            ws == split_ws(text@),
            k <= n,
            first_path_like(ws) == first_path_like(ws.skip(k as int)),
        decreases n - k,
    {
        assert(ws.skip(k as int)[0] == words@[k as int]@);
        assert(ws.skip(k as int).drop_first() =~= ws.skip(k + 1));
        if path_like(words[k]) {
            return Some(words[k]);
        }
        k = k + 1;
    }
    assert(ws.skip(n as int) =~= Seq::<Seq<char>>::empty());
    None
}

// ===== layer named in a sentence =====

/// Among the non-empty layer ids that occur in `text`, the one with the most
/// bytes; of equally long ones, the last (as `max_by_key`).
pub open spec fn best_layer(text: Seq<char>, ls: Seq<Seq<char>>) -> Option<int>
    decreases ls.len(),
{
    if ls.len() == 0 {
        None
    } else {
        let prev = best_layer(text, ls.drop_last());
        let j = ls.len() - 1;
        if ls[j].len() > 0 && contains_seq(text, ls[j]) && (prev is None || byte_len(
            ls[prev.unwrap()],
        ) <= byte_len(ls[j])) {
            Some(j)
        } else {
            prev
        }
    }
}

/// `best_layer` names an index of the list.
pub proof fn lemma_best_layer_in_range(text: Seq<char>, ls: Seq<Seq<char>>)
    ensures
        best_layer(text, ls) is Some ==> 0 <= best_layer(text, ls).unwrap() < ls.len(),
    decreases ls.len(),
{
    if ls.len() > 0 {
        lemma_best_layer_in_range(text, ls.drop_last());
    }
}

/// The layer a sentence names is one of the non-empty ids it contains, and
/// no other contained id is longer.
pub proof fn law_layer_hit_is_longest(text: Seq<char>, ls: Seq<Seq<char>>)
    ensures
        best_layer(text, ls) matches Some(b) ==> {
            &&& 0 <= b < ls.len()
            &&& ls[b].len() > 0
            &&& contains_seq(text, ls[b])
            &&& forall|k: int|
                0 <= k < ls.len() && ls[k].len() > 0 && contains_seq(text, #[trigger] ls[k])
                    ==> byte_len(ls[k]) <= byte_len(ls[b])
        },
        best_layer(text, ls) is None ==> forall|k: int|
            0 <= k < ls.len() ==> !(ls[k].len() > 0 && contains_seq(text, #[trigger] ls[k])),
    decreases ls.len(),
{
    if ls.len() > 0 {
        let p = ls.drop_last();
        law_layer_hit_is_longest(text, p);
        assert forall|k: int| 0 <= k < p.len() implies p[k] == ls[k] by {}
    }
}

/// The index of the layer that `text` names.
fn layer_hit(text: &str, layers: &[String]) -> (r: Option<usize>)
    ensures
        match r {
            Some(i) => best_layer(text@, string_views(layers@)) == Some(i as int),
            None => best_layer(text@, string_views(layers@)) is None,
        },
{
    let n = layers.len();
    let ghost lv = string_views(layers@);
    let mut best: Option<usize> = None;
    let mut i: usize = 0;
    assert(lv.take(0) =~= Seq::<Seq<char>>::empty());
    while i < n
        invariant
            n == layers@.len(),
            lv == string_views(layers@),
            i <= n,
            match best {
                Some(b) => best_layer(text@, lv.take(i as int)) == Some(b as int) && b < i,
                None => best_layer(text@, lv.take(i as int)) is None,
            },
        decreases n - i,
    {
        let ghost t = lv.take(i + 1);
        assert(t.drop_last() =~= lv.take(i as int));
        assert(t[i as int] == layers@[i as int]@);
        let id = layers[i].as_str();
        let take = if id.unicode_len() > 0 && contains(text, id) {
            match best {
                None => true,
                Some(b) => {
                    assert(t[b as int] == layers@[b as int]@);
                    layers[b].as_str().len() <= id.len()
                },
            }
        } else {
            false
        };
        if take {
            best = Some(i);
        }
        i = i + 1;
    }
    assert(lv.take(n as int) =~= lv);
    best
}

// ===== the offline rule driver =====

/// What the offline driver understood (layer names are owned values).
#[derive(Debug)]
pub enum ParsedIntent {
    /// Buffer a layer; the distance is the decimal text as written.
    Buffer { layer: String, distance: String },
    /// Open a file.
    Load(String),
    /// List the layers.
    Layers,
    /// Measure a layer; `kind` is `"length"` or `"area"`.
    Measure { layer: String, kind: &'static str },
    /// Export a layer.
    Export { layer: String, out: String },
    /// Say what the assistant can do.
    Help,
    /// A command is meant but an argument is missing.
    Advice(String),
    /// Not understood.
    Fallback,
}

/// A [`ParsedIntent`] with its texts as character sequences.
pub enum IntentView {
    Buffer { layer: Seq<char>, distance: Seq<char> },
    Load(Seq<char>),
    Layers,
    Measure { layer: Seq<char>, kind: Seq<char> },
    Export { layer: Seq<char>, out: Seq<char> },
    Help,
    Advice(Seq<char>),
    Fallback,
}

impl View for ParsedIntent {
    type V = IntentView;

    open spec fn view(&self) -> IntentView {
        match self {
            ParsedIntent::Buffer { layer, distance } => IntentView::Buffer {
                layer: layer@,
                distance: distance@,
            },
            ParsedIntent::Load(p) => IntentView::Load(p@),
            ParsedIntent::Layers => IntentView::Layers,
            ParsedIntent::Measure { layer, kind } => IntentView::Measure {
                layer: layer@,
                kind: kind@,
            },
            ParsedIntent::Export { layer, out } => IntentView::Export { layer: layer@, out: out@ },
            ParsedIntent::Help => IntentView::Help,
            ParsedIntent::Advice(m) => IntentView::Advice(m@),
            ParsedIntent::Fallback => IntentView::Fallback,
        }
    }
}

/// Words that ask for a buffer, in the order they are tried.
pub open spec fn buffer_keywords() -> Seq<Seq<char>> {
    seq!["缓冲"@, "缓冲区"@, "buffer"@]
}

/// Words that ask to open a file, in the order they are tried.
pub open spec fn open_keywords() -> Seq<Seq<char>> {
    seq!["打开"@, "加载"@, "open"@, "load"@]
}

/// The advice given when a buffer is asked for without a layer.
pub open spec fn buffer_advice() -> Seq<char> {
    "想给谁做缓冲？请带上图层名，如：缓冲 buildings 500"@
}

/// Asks to export.
pub open spec fn asks_export(t: Seq<char>) -> bool {
    contains_seq(t, "导出"@) || contains_seq(t, "export"@)
}

/// Asks for the layer list (and does not mention a buffer).
pub open spec fn asks_layers(t: Seq<char>) -> bool {
    (contains_seq(t, "图层"@) || contains_seq(t, "有哪些"@) || contains_seq(t, "layer"@))
        && !contains_seq(t, "缓冲"@)
}

/// Asks for a length.
pub open spec fn asks_length(t: Seq<char>) -> bool {
    contains_seq(t, "量长度"@) || contains_seq(t, "长度"@) || contains_seq(t, "length"@)
}

/// Asks for an area.
pub open spec fn asks_area(t: Seq<char>) -> bool {
    contains_seq(t, "量面积"@) || contains_seq(t, "面积"@) || contains_seq(t, "area"@)
}

/// Asks for help.
pub open spec fn asks_help(t: Seq<char>) -> bool {
    contains_seq(t, "帮助"@) || contains_seq(t, "能做什么"@) || contains_seq(t, "help"@)
        || contains_seq(t, "会什么"@)
}

/// The intent of a sentence, given the layer ids. The rules are tried in
/// order on the trimmed sentence: a number (after a buffer word, else
/// anywhere in a sentence that names a buffer word) asks for a buffer of the named layer, of the only layer, or
/// gets advice; then opening a path; exporting a named layer to a path-like
/// word; listing layers; measuring the length, then the area, of a named
/// layer; help; otherwise nothing was understood.
pub open spec fn intent_of(input: Seq<char>, layers: Seq<Seq<char>>) -> IntentView {
    let t = trim_seq(input);
    let hit = best_layer(t, layers);
    let num = number_after_keywords(t, buffer_keywords());
    let path = load_path(t, open_keywords());
    let out = first_path_like(split_ws(t));
    if num is Some {
        if hit is Some {
            IntentView::Buffer { layer: layers[hit.unwrap()], distance: num.unwrap() }
        } else if layers.len() == 1 {
            IntentView::Buffer { layer: layers[0], distance: num.unwrap() }
        } else {
            IntentView::Advice(buffer_advice())
        }
    } else if path is Some {
        IntentView::Load(path.unwrap())
    } else if asks_export(t) && hit is Some && out is Some {
        IntentView::Export { layer: layers[hit.unwrap()], out: out.unwrap() }
    } else if asks_layers(t) {
        IntentView::Layers
    } else if asks_length(t) && hit is Some {
        IntentView::Measure { layer: layers[hit.unwrap()], kind: "length"@ }
    } else if asks_area(t) && hit is Some {
        IntentView::Measure { layer: layers[hit.unwrap()], kind: "area"@ }
    } else if asks_help(t) {
        IntentView::Help
    } else {
        IntentView::Fallback
    }
}

/// The offline driver: rules that map a sentence onto a shell command.
pub struct LocalDriver;

impl LocalDriver {
    /// What `input` asks for, given the current layer ids (see [`intent_of`]).
    pub fn parse(input: &str, layers: &[String]) -> (r: ParsedIntent)
        ensures
            r@ == intent_of(input@, string_views(layers@)),
    {
        let text = trim(input);
        let ghost t = text@;
        let ghost lv = string_views(layers@);
        let hit = layer_hit(text, layers);
        proof {
            lemma_best_layer_in_range(t, lv);
        }
        let buffer_words: Vec<&str> = vec!["缓冲", "缓冲区", "buffer"];
        assert(views(buffer_words@) =~= buffer_keywords());
        if let Some(d) = extract_number_after(text, buffer_words.as_slice()) {
            if let Some(h) = hit {
                return ParsedIntent::Buffer { layer: layers[h].clone(), distance: d };
            }
            if layers.len() == 1 {
                return ParsedIntent::Buffer { layer: layers[0].clone(), distance: d };
            }
            return ParsedIntent::Advice(
                String::from_str("想给谁做缓冲？请带上图层名，如：缓冲 buildings 500"),
            );
        }
        let open_words: Vec<&str> = vec!["打开", "加载", "open", "load"];
        assert(views(open_words@) =~= open_keywords());
        if let Some(p) = path_after(text, open_words.as_slice()) {
            return ParsedIntent::Load(p);
        }
        if contains(text, "导出") || contains(text, "export") {
            let out = extract_path_like(text);
            if let (Some(h), Some(o)) = (hit, out) {
                return ParsedIntent::Export { layer: layers[h].clone(), out: String::from_str(o) };
            }
        }
        if (contains(text, "图层") || contains(text, "有哪些") || contains(text, "layer"))
            && !contains(text, "缓冲") {
            return ParsedIntent::Layers;
        }
        if contains(text, "量长度") || contains(text, "长度") || contains(text, "length") {
            if let Some(h) = hit {
                return ParsedIntent::Measure { layer: layers[h].clone(), kind: "length" };
            }
        }
        if contains(text, "量面积") || contains(text, "面积") || contains(text, "area") {
            if let Some(h) = hit {
                return ParsedIntent::Measure { layer: layers[h].clone(), kind: "area" };
            }
        }
        if contains(text, "帮助") || contains(text, "能做什么") || contains(text, "help")
            || contains(text, "会什么") {
            return ParsedIntent::Help;
        }
        ParsedIntent::Fallback
    }
}

// ===== settings and messages =====

/// Assistant settings: the driver, and the endpoint, key and model of the
/// remote one.
#[derive(Debug, Clone)]
pub struct AiSettings {
    /// The driver: `"local"` or `"openai"`.
    pub driver: String,
    /// An OpenAI-compatible endpoint.
    pub base_url: String,
    /// The API key (stored locally only).
    pub api_key: String,
    /// The model name.
    pub model: String,
}

impl Default for AiSettings {
    /// The offline driver, the public OpenAI endpoint, no key, a small model.
    fn default() -> (r: Self)
        ensures
            r.driver@ == "local"@,
            r.base_url@ == "https://api.openai.com/v1"@,
            r.api_key@.len() == 0,
            r.model@ == "gpt-4o-mini"@,
    {
        AiSettings {
            driver: String::from_str("local"),
            base_url: String::from_str("https://api.openai.com/v1"),
            api_key: String::new(),
            model: String::from_str("gpt-4o-mini"),
        }
    }
}

impl AiSettings {
    /// A copy of the settings.
    pub fn copy(&self) -> (r: AiSettings)
        ensures
            r == *self,
    {
        AiSettings {
            driver: self.driver.clone(),
            base_url: self.base_url.clone(),
            api_key: self.api_key.clone(),
            model: self.model.clone(),
        }
    }
}

/// One chat message.
#[derive(Debug, Clone)]
pub struct ChatMsg {
    /// `"user"`, `"assistant"` or `"system"`.
    pub role: String,
    /// The text.
    pub content: String,
}

/// A message as (role, content).
pub open spec fn msg_view(m: ChatMsg) -> (Seq<char>, Seq<char>) {
    (m.role@, m.content@)
}

/// Messages as (role, content) pairs.
pub open spec fn msg_views(v: Seq<ChatMsg>) -> Seq<(Seq<char>, Seq<char>)> {
    v.map_values(|m: ChatMsg| msg_view(m))
}

/// A message with the given role and text.
fn message(role: &str, content: String) -> (r: ChatMsg)
    ensures
        r.role@ == role@,
        r.content@ == content@,
{
    ChatMsg { role: String::from_str(role), content }
}

// ===== drivers =====

/// A pluggable chat driver.
pub trait AiDriver {
    /// The driver's name.
    fn name(&self) -> &str;

    /// Sends the conversation (with a description of the data on hand) and
    /// returns the assistant's reply.
    fn chat(&mut self, history: &[ChatMsg], context: &str) -> Result<String, String>;
}

/// The name of the offline driver.
pub open spec fn local_driver_name() -> Seq<char> {
    "本地规则（离线）"@
}

impl AiDriver for LocalDriver {
    fn name(&self) -> (r: &str)
        ensures
            r@ == local_driver_name(),
    {
        "本地规则（离线）"
    }

    /// The panel dispatches offline sentences itself (through `parse`); a
    /// direct call only answers with that hint.
    fn chat(&mut self, history: &[ChatMsg], context: &str) -> (r: Result<String, String>)
        ensures
            r matches Ok(m) && m@ == "（本地规则：请通过面板的意图分派执行）"@,
    {
        Ok(String::from_str("（本地规则：请通过面板的意图分派执行）"))
    }
}

/// The remote driver: an OpenAI-compatible chat endpoint.
#[derive(Debug)]
pub struct OpenAiDriver {
    /// Endpoint.
    pub base_url: String,
    /// Key.
    pub api_key: String,
    /// Model.
    pub model: String,
}

/// The name of the remote driver.
pub open spec fn remote_driver_name() -> Seq<char> {
    "OpenAI 兼容端点"@
}

/// What the remote driver sends: the chat-completions URL, the authorization
/// header, the model and the messages.
#[derive(Debug)]
pub struct ChatRequest {
    pub url: String,
    pub authorization: String,
    pub model: String,
    pub messages: Vec<ChatMsg>,
}

/// The error when no key is set.
pub open spec fn no_key_msg() -> Seq<char> {
    "未配置 API Key（点右上角齿轮进入 AI 设置）"@
}

/// `s` without trailing slashes.
pub open spec fn trim_end_slashes(s: Seq<char>) -> Seq<char>
    decreases s.len(),
{
    if s.len() > 0 && s.last() == '/' {
        trim_end_slashes(s.drop_last())
    } else {
        s
    }
}

/// Where the last (at most) twenty messages of `n` start.
pub open spec fn recent_start(n: nat) -> nat {
    if n > 20 {
        (n - 20) as nat
    } else {
        0
    }
}

/// `s` without trailing slashes.
fn strip_trailing_slashes<'a>(s: &'a str) -> (r: &'a str)
    ensures
        r@ == trim_end_slashes(s@),
{
    let v = chars_of(s);
    let n = v.len();
    let mut j: usize = n;
    assert(s@.subrange(0, n as int) =~= s@);
    while j > 0 && v[j - 1] == '/'
        invariant
            n == v@.len(),
            v@ == s@,
            j <= n,
            trim_end_slashes(s@) == trim_end_slashes(s@.subrange(0, j as int)),
        decreases j,
    {
        assert(s@.subrange(0, j as int).drop_last() =~= s@.subrange(0, j - 1));
        j = j - 1;
    }
    proof {
        if j > 0 {
            assert(s@.subrange(0, j as int).last() == s@[j - 1]);
        }
    }
    s.substring_char(0, j)
}

impl OpenAiDriver {
    /// The remote driver configured by `settings`.
    pub fn from_settings(settings: &AiSettings) -> (r: OpenAiDriver)
        ensures
            r.base_url@ == settings.base_url@,
            r.api_key@ == settings.api_key@,
            r.model@ == settings.model@,
    {
        OpenAiDriver {
            base_url: settings.base_url.clone(),
            api_key: settings.api_key.clone(),
            model: settings.model.clone(),
        }
    }

    /// The request for `history` with `context` as the system prompt: refused
    /// when the key is blank; else the endpoint without trailing slashes plus
    /// `/chat/completions`, a bearer header, and the system prompt followed by
    /// the last twenty messages at most, in order.
    pub fn request(&self, history: &[ChatMsg], context: &str) -> (r: Result<ChatRequest, String>)
        ensures
            match r {
                Err(e) => trim_seq(self.api_key@).len() == 0 && e@ == no_key_msg(),
                Ok(q) => {
                    &&& trim_seq(self.api_key@).len() > 0
                    &&& q.url@ == trim_end_slashes(self.base_url@) + "/chat/completions"@
                    &&& q.authorization@ == "Bearer "@ + self.api_key@
                    &&& q.model@ == self.model@
                    &&& msg_views(q.messages@) == seq![("system"@, context@)] + msg_views(
                        history@,
                    ).skip(recent_start(history@.len()) as int)
                },
            },
    {
        if trim(self.api_key.as_str()).unicode_len() == 0 {
            return Err(String::from_str("未配置 API Key（点右上角齿轮进入 AI 设置）"));
        }
        let mut url = String::from_str(strip_trailing_slashes(self.base_url.as_str()));
        url.append("/chat/completions");
        let mut authorization = String::from_str("Bearer ");
        authorization.append(self.api_key.as_str());
        let mut messages: Vec<ChatMsg> = Vec::new();
        messages.push(message("system", String::from_str(context)));
        let n = history.len();
        let start: usize = if n > 20 {
            n - 20
        } else {
            0
        };
        let ghost hv = msg_views(history@);
        let mut k: usize = start;
        assert(msg_views(messages@) =~= seq![("system"@, context@)] + hv.subrange(
            start as int,
            start as int,
        ));
        while k < n
            invariant
                n == history@.len(),
                hv == msg_views(history@),
                start <= k <= n,
                msg_views(messages@) == seq![("system"@, context@)] + hv.subrange(
                    start as int,
                    k as int,
                ),
            decreases n - k,
        {
            let m = ChatMsg { role: history[k].role.clone(), content: history[k].content.clone() };
            assert(msg_view(m) == hv[k as int]);
            let ghost before = messages@;
            messages.push(m);
            assert(msg_views(messages@) =~= msg_views(before).push(hv[k as int]));
            assert(hv.subrange(start as int, k + 1) =~= hv.subrange(start as int, k as int).push(
                hv[k as int],
            ));
            assert(msg_views(messages@) =~= seq![("system"@, context@)] + hv.subrange(
                start as int,
                k + 1,
            ));
            k = k + 1;
        }
        assert(hv.subrange(start as int, n as int) =~= hv.skip(start as int));
        Ok(ChatRequest { url, authorization, model: self.model.clone(), messages })
    }
}

/// What `serde_json` makes of a chat-completions response body: the parse
/// error's text, or the string at `choices[0].message.content` (none when
/// that place is missing or not a string).
pub uninterp spec fn chat_response_content(body: Seq<char>) -> Result<Option<Seq<char>>, Seq<char>>;

/// `serde_json::from_str` on the response body, then the string at
/// `choices[0].message.content`. Its result is named, not described: the
/// contract only ties it to `chat_response_content` of the body. Indexing a
/// `serde_json::Value` gives `Null` for a missing place and does not panic.
#[verifier::external_body]
fn parse_chat_response(body: &str) -> (r: Result<Option<String>, String>)
    ensures
        match (r, chat_response_content(body@)) {
            (Ok(Some(c)), Ok(Some(d))) => c@ == d,
            (Ok(None), Ok(None)) => true,
            (Err(e), Err(d)) => e@ == d,
            _ => false,
        },
{
    match serde_json::from_str::<serde_json::Value>(body) {
        Ok(v) => Ok(v["choices"][0]["message"]["content"].as_str().map(|s| s.to_string())),
        Err(e) => Err(format!("{e}")),
    }
}

/// The assistant's reply from the raw response body: the content text; an
/// error when the body is not JSON; or, when the content is missing, the
/// error naming it with the first 200 characters of the body.
pub fn reply_from_response(body: &str) -> (r: Result<String, String>)
    ensures
        match chat_response_content(body@) {
            Err(e) => r matches Err(m) && m@ == "响应非合法 JSON: "@ + e,
            Ok(Some(c)) => r matches Ok(m) && m@ == c,
            Ok(None) => r matches Err(m) && m@ == "响应缺少 choices[0].message.content: "@
                + body@.take(
                if body@.len() > 200 {
                    200
                } else {
                    body@.len() as int
                },
            ),
        },
{
    match parse_chat_response(body) {
        Err(e) => {
            let mut m = String::from_str("响应非合法 JSON: ");
            m.append(e.as_str());
            Err(m)
        },
        Ok(content) => reply_from_content(content, body),
    }
}

/// The reply text from the response's `choices[0].message.content`, or the
/// error naming what is missing with the first 200 characters of the body.
pub fn reply_from_content(content: Option<String>, body: &str) -> (r: Result<String, String>)
    ensures
        match content {
            Some(c) => r matches Ok(m) && m@ == c@,
            None => r matches Err(e) && e@ == "响应缺少 choices[0].message.content: "@ + body@.take(
                if body@.len() > 200 {
                    200
                } else {
                    body@.len() as int
                },
            ),
        },
{
    match content {
        Some(c) => Ok(c),
        None => {
            let n = body.unicode_len();
            let cut: usize = if n > 200 {
                200
            } else {
                n
            };
            let mut e = String::from_str("响应缺少 choices[0].message.content: ");
            e.append(body.substring_char(0, cut));
            assert(body@.subrange(0, cut as int) =~= body@.take(cut as int));
            Err(e)
        },
    }
}

impl OpenAiDriver {
    /// The driver's display name.
    pub fn display_name(&self) -> (r: &'static str)
        ensures
            r@ == remote_driver_name(),
    {
        "OpenAI 兼容端点"
    }
}

// ===== replies =====

/// The answer to "which layers" when there is none.
pub open spec fn no_layers_reply() -> Seq<char> {
    "当前没有图层。可以「打开 examples/buildings.geojson」加载示例。"@
}

/// One layer in the assistant's list: `· id（format，n 要素）`.
pub open spec fn layer_item(id: Seq<char>, fmt: Seq<char>, n: nat) -> Seq<char> {
    "· "@ + id + "（"@ + fmt + "，"@ + dec_seq(n) + " 要素）"@
}

/// The items of a layer list.
pub open spec fn layer_items(list: Seq<(String, String, usize)>) -> Seq<Seq<char>> {
    Seq::new(list.len(), |i: int| layer_item(list[i].0@, list[i].1@, list[i].2 as nat))
}

/// The assistant's answer listing the layers (id, format, feature count).
pub fn layers_reply(list: &Vec<(String, String, usize)>) -> (r: String)
    ensures
        list@.len() == 0 ==> r@ == no_layers_reply(),
        list@.len() > 0 ==> r@ == "当前 "@ + dec_seq(list@.len()) + " 个图层：\n"@ + join_seq(
            layer_items(list@),
            "\n"@,
        ),
{
    let n = list.len();
    if n == 0 {
        return String::from_str("当前没有图层。可以「打开 examples/buildings.geojson」加载示例。");
    }
    let mut items: Vec<String> = Vec::new();
    let mut i: usize = 0;
    while i < n
        invariant
            n == list@.len(),
            i <= n,
            string_views(items@) == layer_items(list@).take(i as int),
        decreases n - i,
    {
        let mut item = String::from_str("· ");
        item.append(list[i].0.as_str());
        item.append("（");
        item.append(list[i].1.as_str());
        item.append("，");
        push_decimal(&mut item, list[i].2 as u64);
        item.append(" 要素）");
        assert(item@ == layer_item(list@[i as int].0@, list@[i as int].1@, list@[i as int].2 as nat));
        let ghost before = items@;
        let ghost iv = item@;
        items.push(item);
        assert(string_views(items@) =~= string_views(before).push(iv));
        assert(layer_items(list@).take(i + 1) =~= layer_items(list@).take(i as int).push(iv));
        i = i + 1;
    }
    assert(layer_items(list@).take(n as int) =~= layer_items(list@));
    let mut out = String::from_str("当前 ");
    push_decimal(&mut out, n as u64);
    out.append(" 个图层：\n");
    let body = join(&items, "\n");
    out.append(body.as_str());
    out
}

/// What the assistant can drive.
pub open spec fn help_reply_text() -> Seq<char> {
    "我目前能直接驱动：\n· 缓冲：缓冲 <图层> <距离>\n· 打开：打开 <路径>\n· 图层：有哪些图层\n· 度量：量长度/量面积 <图层>\n· 导出：导出 <图层> <路径>\n更多命令请切到「终端」页签输入 help。"@
}

/// The answer to a request for help.
pub fn help_reply() -> (r: String)
    ensures
        r@ == help_reply_text(),
{
    String::from_str(
        "我目前能直接驱动：\n· 缓冲：缓冲 <图层> <距离>\n· 打开：打开 <路径>\n· 图层：有哪些图层\n· 度量：量长度/量面积 <图层>\n· 导出：导出 <图层> <路径>\n更多命令请切到「终端」页签输入 help。",
    )
}

/// The answer when nothing was understood: an example to start with, or the
/// current layers and examples that use the first of them.
pub fn fallback_reply(layers: &[String]) -> (r: String)
    ensures
        layers@.len() == 0 ==> r@ == "我还没听懂。先「打开 examples/buildings.geojson」，然后说「缓冲 buildings 500」试试。"@,
        layers@.len() > 0 ==> r@ == "我还没听懂。当前图层："@ + join_seq(
            string_views(layers@),
            ", "@,
        ) + "。可以说「缓冲 "@ + layers@[0]@ + " 500」「量面积 "@ + layers@[0]@ + "」或「有哪些图层」。"@,
{
    if layers.len() == 0 {
        return String::from_str(
            "我还没听懂。先「打开 examples/buildings.geojson」，然后说「缓冲 buildings 500」试试。",
        );
    }
    let all = copy_strings(layers);
    let mut out = String::from_str("我还没听懂。当前图层：");
    let listed = join(&all, ", ");
    out.append(listed.as_str());
    out.append("。可以说「缓冲 ");
    out.append(layers[0].as_str());
    out.append(" 500」「量面积 ");
    out.append(layers[0].as_str());
    out.append("」或「有哪些图层」。");
    out
}

/// `prefix`, then the message (on success) or `err_prefix` and the error.
pub open spec fn outcome_text(
    ok_prefix: Seq<char>,
    err_prefix: Seq<char>,
    r: Result<String, String>,
) -> Seq<char> {
    match r {
        Ok(m) => ok_prefix + m@,
        Err(e) => err_prefix + e@,
    }
}

/// The answer from the remote driver, or why it failed.
pub fn remote_reply(result: Result<String, String>) -> (r: String)
    ensures
        match result {
            Ok(m) => r@ == m@,
            Err(e) => r@ == "远程驱动失败: "@ + e@ + "（可切回 local 驱动）"@,
        },
{
    match result {
        Ok(m) => m,
        Err(e) => {
            let mut out = String::from_str("远程驱动失败: ");
            out.append(e.as_str());
            out.append("（可切回 local 驱动）");
            out
        },
    }
}

/// The answer after opening `path`.
pub fn load_reply(path: &str, result: Result<String, String>) -> (r: String)
    ensures
        r@ == outcome_text("已执行：load "@ + path@ + "。"@, "打开失败: "@, result),
{
    match result {
        Ok(m) => {
            let mut out = String::from_str("已执行：load ");
            out.append(path);
            out.append("。");
            out.append(m.as_str());
            out
        },
        Err(e) => {
            let mut out = String::from_str("打开失败: ");
            out.append(e.as_str());
            out
        },
    }
}

/// The answer after measuring (`kind` is `length` or `area`).
pub fn measure_reply(kind: &str, result: Result<String, String>) -> (r: String)
    ensures
        r@ == outcome_text(kind@ + " 度量结果：\n"@, "度量失败: "@, result),
{
    match result {
        Ok(m) => {
            let mut out = String::from_str(kind);
            out.append(" 度量结果：\n");
            out.append(m.as_str());
            out
        },
        Err(e) => {
            let mut out = String::from_str("度量失败: ");
            out.append(e.as_str());
            out
        },
    }
}

/// The answer after exporting `layer` to `out`.
pub fn export_reply(layer: &str, out: &str, result: Result<String, String>) -> (r: String)
    ensures
        r@ == outcome_text(
            "已执行：export "@ + layer@ + " → "@ + out@ + "。"@,
            "导出失败: "@,
            result,
        ),
{
    match result {
        Ok(m) => {
            let mut s = String::from_str("已执行：export ");
            s.append(layer);
            s.append(" → ");
            s.append(out);
            s.append("。");
            s.append(m.as_str());
            s
        },
        Err(e) => {
            let mut s = String::from_str("导出失败: ");
            s.append(e.as_str());
            s
        },
    }
}

/// One layer in the system prompt: `id(format,n要素)`.
pub open spec fn context_item(id: Seq<char>, fmt: Seq<char>, n: nat) -> Seq<char> {
    id + "("@ + fmt + ","@ + dec_seq(n) + "要素)"@
}

/// The layers part of the system prompt.
pub open spec fn context_layers(list: Seq<(String, String, usize)>) -> Seq<char> {
    if list.len() == 0 {
        "（无图层）"@
    } else {
        join_seq(
            Seq::new(list.len(), |i: int| context_item(list[i].0@, list[i].1@, list[i].2 as nat)),
            ", "@,
        )
    }
}

/// The system prompt describing the data on hand to the remote model.
pub open spec fn context_text(list: Seq<(String, String, usize)>) -> Seq<char> {
    "你是堪舆（Kanyu）GIS 系统的 AI 助手\"堪舆灵\"。当前数据现场图层: "@ + context_layers(list)
        + "。用户可让你执行空间操作；你只能建议使用这些命令（不要假装已执行）：buffer/overlay/topology/sjoin/zonal_stats/measure/reproject/export。用简洁中文回答，涉及命令时给出确切的命令文本。"@
}

/// The system prompt for the current layers (id, format, feature count).
pub fn build_context(list: &Vec<(String, String, usize)>) -> (r: String)
    ensures
        r@ == context_text(list@),
{
    let mut out = String::from_str("你是堪舆（Kanyu）GIS 系统的 AI 助手\"堪舆灵\"。当前数据现场图层: ");
    let n = list.len();
    if n == 0 {
        out.append("（无图层）");
    } else {
        let ghost want = Seq::new(
            list@.len(),
            |i: int| context_item(list@[i].0@, list@[i].1@, list@[i].2 as nat),
        );
        let mut items: Vec<String> = Vec::new();
        let mut i: usize = 0;
        while i < n
            invariant
                n == list@.len(),
                i <= n,
                want == Seq::new(
                    list@.len(),
                    |i: int| context_item(list@[i].0@, list@[i].1@, list@[i].2 as nat),
                ),
                string_views(items@) == want.take(i as int),
            decreases n - i,
        {
            let mut item = String::from_str(list[i].0.as_str());
            item.append("(");
            item.append(list[i].1.as_str());
            item.append(",");
            push_decimal(&mut item, list[i].2 as u64);
            item.append("要素)");
            assert(item@ == want[i as int]);
            let ghost before = items@;
            let ghost iv = item@;
            items.push(item);
            assert(string_views(items@) =~= string_views(before).push(iv));
            assert(want.take(i + 1) =~= want.take(i as int).push(iv));
            i = i + 1;
        }
        assert(want.take(n as int) =~= want);
        let joined = join(&items, ", ");
        out.append(joined.as_str());
    }
    out.append(
        "。用户可让你执行空间操作；你只能建议使用这些命令（不要假装已执行）：buffer/overlay/topology/sjoin/zonal_stats/measure/reproject/export。用简洁中文回答，涉及命令时给出确切的命令文本。",
    );
    out
}

// ===== the panel =====

/// The panel's opening message.
pub open spec fn greeting() -> Seq<char> {
    "你好，我是堪舆灵。试试：「有哪些图层」「缓冲 buildings 500」「打开 examples/buildings.geojson」。远程驱动在右上角 ⚙ 设置。"@
}

/// The chat panel: message history, the input line, the settings and their
/// dialog, and a note line.
pub struct AiChatPanel {
    /// The conversation.
    pub history: Vec<ChatMsg>,
    /// The input line.
    pub input: String,
    /// The settings.
    pub settings: AiSettings,
    /// Whether the settings dialog is shown.
    pub show_settings: bool,
    /// Whether a remote reply is awaited.
    pub busy: bool,
    /// The note line (a status or an error).
    pub note: Option<String>,
}

/// What the embedding program does with a sent sentence.
pub enum SendStep {
    /// Nothing was sent (blank input).
    Nothing,
    /// Ask the remote driver (with the conversation so far).
    Remote(OpenAiDriver),
    /// Carry out the offline intent.
    Local(ParsedIntent),
}

/// The view of an optional note.
pub open spec fn opt_view(o: Option<String>) -> Option<Seq<char>> {
    match o {
        Some(s) => Some(s@),
        None => None,
    }
}

impl AiChatPanel {
    /// A panel with the greeting, an empty input and the given settings.
    pub fn new(settings: AiSettings) -> (r: Self)
        ensures
            msg_views(r.history@) == seq![("assistant"@, greeting())],
            r.input@.len() == 0,
            r.settings == settings,
            !r.show_settings,
            !r.busy,
            opt_view(r.note) is None,
    {
        let mut history: Vec<ChatMsg> = Vec::new();
        history.push(
            message(
                "assistant",
                String::from_str(
                    "你好，我是堪舆灵。试试：「有哪些图层」「缓冲 buildings 500」「打开 examples/buildings.geojson」。远程驱动在右上角 ⚙ 设置。",
                ),
            ),
        );
        assert(msg_views(history@) =~= seq![("assistant"@, greeting())]);
        AiChatPanel {
            history,
            input: String::new(),
            settings,
            show_settings: false,
            busy: false,
            note: None,
        }
    }

    /// Shows or hides the settings dialog.
    pub fn toggle_settings(&mut self)
        ensures
            final(self).show_settings == !old(self).show_settings,
            final(self).busy == old(self).busy,
            opt_view(final(self).note) == opt_view(old(self).note),
            final(self).history@ == old(self).history@,
            final(self).input@ == old(self).input@,
            final(self).settings == old(self).settings,
    {
        self.show_settings = !self.show_settings;
    }

    /// After saving the settings: on success a note and the dialog closes;
    /// on failure a note with the error and the dialog stays.
    pub fn settings_saved(&mut self, result: Result<(), String>)
        ensures
            match result {
                Ok(()) => opt_view(final(self).note) == Some("设置已保存"@)
                    && !final(self).show_settings,
                Err(e) => opt_view(final(self).note) == Some("设置保存失败: "@ + e@)
                    && final(self).show_settings == old(self).show_settings,
            },
            final(self).busy == old(self).busy,
            final(self).history@ == old(self).history@,
            final(self).input@ == old(self).input@,
            final(self).settings == old(self).settings,
    {
        match result {
            Ok(()) => {
                self.note = Some(String::from_str("设置已保存"));
                self.show_settings = false;
            },
            Err(e) => {
                let mut n = String::from_str("设置保存失败: ");
                n.append(e.as_str());
                self.note = Some(n);
            },
        }
    }

    /// Cancelling the dialog puts back the stored settings and closes it.
    pub fn settings_cancelled(&mut self, stored: AiSettings)
        ensures
            final(self).settings == stored,
            !final(self).show_settings,
            final(self).busy == old(self).busy,
            opt_view(final(self).note) == opt_view(old(self).note),
            final(self).history@ == old(self).history@,
            final(self).input@ == old(self).input@,
    {
        self.settings = stored;
        self.show_settings = false;
    }

    /// Whether the remote driver is selected.
    pub open spec fn remote_selected(&self) -> bool {
        self.settings.driver@ == "openai"@
    }

    /// The label naming the driver in use (and the model of the remote one).
    pub fn driver_label(&self) -> (r: String)
        ensures
            self.remote_selected() ==> r@ == "驱动: "@ + remote_driver_name() + "（"@
                + self.settings.model@ + "）"@,
            !self.remote_selected() ==> r@ == "驱动: "@ + local_driver_name(),
    {
        if str_eq(self.settings.driver.as_str(), "openai") {
            let d = OpenAiDriver::from_settings(&self.settings);
            let mut out = String::from_str("驱动: ");
            out.append(d.display_name());
            out.append("（");
            out.append(self.settings.model.as_str());
            out.append("）");
            out
        } else {
            let mut out = String::from_str("驱动: ");
            out.append(LocalDriver.name());
            out
        }
    }

    /// Whether the input is to be sent: Enter was pressed, or the send
    /// button was clicked with something to send.
    pub fn should_send(&self, enter: bool, clicked: bool) -> (r: bool)
        ensures
            r == (enter || (clicked && trim_seq(self.input@).len() > 0)),
    {
        enter || (clicked && trim(self.input.as_str()).unicode_len() > 0)
    }

    /// Takes the input line, leaving it empty.
    pub fn take_input(&mut self) -> (r: String)
        ensures
            r@ == old(self).input@,
            final(self).input@.len() == 0,
            final(self).history@ == old(self).history@,
            final(self).settings == old(self).settings,
            final(self).show_settings == old(self).show_settings,
            final(self).busy == old(self).busy,
            opt_view(final(self).note) == opt_view(old(self).note),
    {
        let t = self.input.clone();
        self.input = String::new();
        t
    }

    /// Sends a sentence. Blank text does nothing. Otherwise it joins the
    /// conversation as the user's; with the remote driver selected the panel
    /// then waits for the reply of the configured driver, else the offline
    /// intent of the text (given the layer ids) is returned to be carried out.
    pub fn begin_send(&mut self, text_in: &str, layers: &[String]) -> (r: SendStep)
        ensures
            final(self).settings == old(self).settings,
            final(self).input@ == old(self).input@,
            final(self).show_settings == old(self).show_settings,
            opt_view(final(self).note) == opt_view(old(self).note),
            trim_seq(text_in@).len() == 0 ==> r is Nothing && final(self).history@ == old(self).history@
                && final(self).busy == old(self).busy,
            trim_seq(text_in@).len() > 0 ==> {
                &&& msg_views(final(self).history@) == msg_views(old(self).history@).push(
                    ("user"@, trim_seq(text_in@)),
                )
                &&& old(self).remote_selected() ==> (r matches SendStep::Remote(d)
                    && d.base_url@ == old(self).settings.base_url@
                    && d.api_key@ == old(self).settings.api_key@
                    && d.model@ == old(self).settings.model@ && final(self).busy)
                &&& !old(self).remote_selected() ==> (r matches SendStep::Local(i)
                    && i@ == intent_of(trim_seq(text_in@), string_views(layers@))
                    && final(self).busy == old(self).busy)
            },
    {
        let text = trim(text_in);
        if text.unicode_len() == 0 {
            return SendStep::Nothing;
        }
        let ghost before = self.history@;
        self.history.push(message("user", String::from_str(text)));
        assert(msg_views(self.history@) =~= msg_views(before).push(("user"@, text@)));
        if str_eq(self.settings.driver.as_str(), "openai") {
            self.busy = true;
            SendStep::Remote(OpenAiDriver::from_settings(&self.settings))
        } else {
            SendStep::Local(LocalDriver::parse(text, layers))
        }
    }

    /// The assistant's reply joins the conversation and the wait ends.
    pub fn finish_send(&mut self, reply: String)
        ensures
            msg_views(final(self).history@) == msg_views(old(self).history@).push(
                ("assistant"@, reply@),
            ),
            !final(self).busy,
            final(self).settings == old(self).settings,
            final(self).input@ == old(self).input@,
            final(self).show_settings == old(self).show_settings,
            opt_view(final(self).note) == opt_view(old(self).note),
    {
        let ghost before = self.history@;
        self.history.push(message("assistant", reply));
        assert(msg_views(self.history@) =~= msg_views(before).push(("assistant"@, reply@)));
        self.busy = false;
    }
}

/// `t` contains none of `words`.
pub open spec fn mentions_none(t: Seq<char>, words: Seq<Seq<char>>) -> bool {
    forall|i: int| 0 <= i < words.len() ==> !contains_seq(t, #[trigger] words[i])
}

/// `l` is a non-empty layer id named in `t`, and no layer id named in `t` is
/// longer (in bytes).
pub open spec fn longest_named(t: Seq<char>, layers: Seq<Seq<char>>, l: Seq<char>) -> bool {
    &&& exists|b: int| 0 <= b < layers.len() && #[trigger] layers[b] == l
    &&& l.len() > 0
    &&& contains_seq(t, l)
    &&& forall|k: int|
        0 <= k < layers.len() && layers[k].len() > 0 && contains_seq(t, #[trigger] layers[k])
            ==> byte_len(layers[k]) <= byte_len(l)
}

/// A sentence without any of the keywords gives no keyed number and does
/// not mention them.
proof fn lemma_no_keyword_number(t: Seq<char>, kws: Seq<Seq<char>>)
    requires
        mentions_none(t, kws),
    ensures
        number_after_first_keyword(t, kws) is None,
        !mentions_any(t, kws),
    decreases kws.len(),
{
    if kws.len() > 0 {
        assert(!contains_seq(t, kws[0]));
        let rest = kws.drop_first();
        assert forall|i: int| 0 <= i < rest.len() implies !contains_seq(t, #[trigger] rest[i]) by {
            assert(rest[i] == kws[i + 1]);
        }
        lemma_no_keyword_number(t, rest);
    }
}

/// A sentence without any of the keywords gives no path.
proof fn lemma_no_keyword_path(t: Seq<char>, kws: Seq<Seq<char>>)
    requires
        mentions_none(t, kws),
    ensures
        load_path(t, kws) is None,
    decreases kws.len(),
{
    if kws.len() > 0 {
        assert(!contains_seq(t, kws[0]));
        let rest = kws.drop_first();
        assert forall|i: int| 0 <= i < rest.len() implies !contains_seq(t, #[trigger] rest[i]) by {
            assert(rest[i] == kws[i + 1]);
        }
        lemma_no_keyword_path(t, rest);
    }
}

/// The rules before the measurements do not apply to a sentence that names
/// no buffer, open/load, export or layer-list word.
proof fn lemma_before_measure(t: Seq<char>, layers: Seq<Seq<char>>)
    requires
        mentions_none(t, seq!["缓冲"@, "缓冲区"@, "buffer"@]),
        mentions_none(t, seq!["打开"@, "加载"@, "open"@, "load"@]),
        mentions_none(t, seq!["导出"@, "export"@]),
        mentions_none(t, seq!["图层"@, "有哪些"@, "layer"@]),
    ensures
        number_after_keywords(t, buffer_keywords()) is None,
        load_path(t, open_keywords()) is None,
        !asks_export(t),
        !asks_layers(t),
{
    lemma_no_keyword_number(t, buffer_keywords());
    lemma_no_keyword_path(t, open_keywords());
    let e = seq!["导出"@, "export"@];
    assert(!contains_seq(t, e[0]) && !contains_seq(t, e[1]));
    let l = seq!["图层"@, "有哪些"@, "layer"@];
    assert(!contains_seq(t, l[0]) && !contains_seq(t, l[1]) && !contains_seq(t, l[2]));
}

/// A sentence that asks for an area ("面积", "量面积" or "area") and names a
/// layer is a measurement of the area of the longest layer id it names,
/// provided it names no word that an earlier rule takes: no buffer word
/// (缓冲, 缓冲区, buffer), no open word (打开, 加载, open, load), no export word
/// (导出, export), no layer-list word (图层, 有哪些, layer) and no length word
/// (量长度, 长度, length).
pub proof fn law_area_request(input: Seq<char>, layers: Seq<Seq<char>>)
    requires
        mentions_none(trim_seq(input), seq!["缓冲"@, "缓冲区"@, "buffer"@]),
        mentions_none(trim_seq(input), seq!["打开"@, "加载"@, "open"@, "load"@]),
        mentions_none(trim_seq(input), seq!["导出"@, "export"@]),
        mentions_none(trim_seq(input), seq!["图层"@, "有哪些"@, "layer"@]),
        mentions_none(trim_seq(input), seq!["量长度"@, "长度"@, "length"@]),
        contains_seq(trim_seq(input), "量面积"@) || contains_seq(trim_seq(input), "面积"@)
            || contains_seq(trim_seq(input), "area"@),
        exists|k: int|
            0 <= k < layers.len() && layers[k].len() > 0 && contains_seq(
                trim_seq(input),
                #[trigger] layers[k],
            ),
    ensures
        intent_of(input, layers) matches IntentView::Measure { layer, kind } && kind == "area"@
            && longest_named(trim_seq(input), layers, layer),
{
    let t = trim_seq(input);
    lemma_before_measure(t, layers);
    let w = seq!["量长度"@, "长度"@, "length"@];
    assert(!contains_seq(t, w[0]) && !contains_seq(t, w[1]) && !contains_seq(t, w[2]));
    law_layer_hit_is_longest(t, layers);
    let k = choose|k: int|
        0 <= k < layers.len() && layers[k].len() > 0 && contains_seq(t, #[trigger] layers[k]);
    assert(layers[k].len() > 0 && contains_seq(t, layers[k]));
    let b = best_layer(t, layers).unwrap();
    assert(layers[b] == layers[b]);
}

/// A sentence that asks for a length ("量长度", "长度" or "length") and names
/// a layer is a measurement of the length of the longest layer id it names,
/// provided it names no buffer, open, export or layer-list word.
pub proof fn law_length_request(input: Seq<char>, layers: Seq<Seq<char>>)
    requires
        mentions_none(trim_seq(input), seq!["缓冲"@, "缓冲区"@, "buffer"@]),
        mentions_none(trim_seq(input), seq!["打开"@, "加载"@, "open"@, "load"@]),
        mentions_none(trim_seq(input), seq!["导出"@, "export"@]),
        mentions_none(trim_seq(input), seq!["图层"@, "有哪些"@, "layer"@]),
        contains_seq(trim_seq(input), "量长度"@) || contains_seq(trim_seq(input), "长度"@)
            || contains_seq(trim_seq(input), "length"@),
        exists|k: int|
            0 <= k < layers.len() && layers[k].len() > 0 && contains_seq(
                trim_seq(input),
                #[trigger] layers[k],
            ),
    ensures
        intent_of(input, layers) matches IntentView::Measure { layer, kind } && kind == "length"@
            && longest_named(trim_seq(input), layers, layer),
{
    let t = trim_seq(input);
    lemma_before_measure(t, layers);
    law_layer_hit_is_longest(t, layers);
    let k = choose|k: int|
        0 <= k < layers.len() && layers[k].len() > 0 && contains_seq(t, #[trigger] layers[k]);
    assert(layers[k].len() > 0 && contains_seq(t, layers[k]));
    let b = best_layer(t, layers).unwrap();
    assert(layers[b] == layers[b]);
}

/// A sentence that asks for the layer list ("图层", "有哪些" or "layer") and
/// names no buffer, open or export word is answered with the layer list.
pub proof fn law_layers_request(input: Seq<char>, layers: Seq<Seq<char>>)
    requires
        mentions_none(trim_seq(input), seq!["缓冲"@, "缓冲区"@, "buffer"@]),
        mentions_none(trim_seq(input), seq!["打开"@, "加载"@, "open"@, "load"@]),
        mentions_none(trim_seq(input), seq!["导出"@, "export"@]),
        contains_seq(trim_seq(input), "图层"@) || contains_seq(trim_seq(input), "有哪些"@)
            || contains_seq(trim_seq(input), "layer"@),
    ensures
        intent_of(input, layers) == IntentView::Layers,
{
    let t = trim_seq(input);
    lemma_no_keyword_number(t, buffer_keywords());
    lemma_no_keyword_path(t, open_keywords());
    let e = seq!["导出"@, "export"@];
    assert(!contains_seq(t, e[0]) && !contains_seq(t, e[1]));
    let bw = seq!["缓冲"@, "缓冲区"@, "buffer"@];
    assert(!contains_seq(t, bw[0]));
}

/// A sentence that asks for help ("帮助", "能做什么", "help" or "会什么") and
/// names none of the words of the earlier rules (buffer, open, export,
/// layer-list, length or area words) is answered with help.
pub proof fn law_help_request(input: Seq<char>, layers: Seq<Seq<char>>)
    requires
        mentions_none(trim_seq(input), seq!["缓冲"@, "缓冲区"@, "buffer"@]),
        mentions_none(trim_seq(input), seq!["打开"@, "加载"@, "open"@, "load"@]),
        mentions_none(trim_seq(input), seq!["导出"@, "export"@]),
        mentions_none(trim_seq(input), seq!["图层"@, "有哪些"@, "layer"@]),
        mentions_none(trim_seq(input), seq!["量长度"@, "长度"@, "length"@]),
        mentions_none(trim_seq(input), seq!["量面积"@, "面积"@, "area"@]),
        contains_seq(trim_seq(input), "帮助"@) || contains_seq(trim_seq(input), "能做什么"@)
            || contains_seq(trim_seq(input), "help"@) || contains_seq(trim_seq(input), "会什么"@),
    ensures
        intent_of(input, layers) == IntentView::Help,
{
    let t = trim_seq(input);
    lemma_before_measure(t, layers);
    let w = seq!["量长度"@, "长度"@, "length"@];
    assert(!contains_seq(t, w[0]) && !contains_seq(t, w[1]) && !contains_seq(t, w[2]));
    let a = seq!["量面积"@, "面积"@, "area"@];
    assert(!contains_seq(t, a[0]) && !contains_seq(t, a[1]) && !contains_seq(t, a[2]));
}

/// "打开 <路径>": a sentence without a buffer word in which the text after
/// the first "打开", trimmed of whitespace and quotes, is non-empty and
/// contains `.`, `/` or a backslash opens that path.
pub proof fn law_open_request(input: Seq<char>, layers: Seq<Seq<char>>, rest: Seq<char>)
    requires
        mentions_none(trim_seq(input), seq!["缓冲"@, "缓冲区"@, "buffer"@]),
        after_first_seq(trim_seq(input), "打开"@) == Some(rest),
        strip_quotes(trim_seq(rest)).len() > 0,
        has_char(strip_quotes(trim_seq(rest)), '.') || has_char(strip_quotes(trim_seq(rest)), '/')
            || has_char(strip_quotes(trim_seq(rest)), '\\'),
    ensures
        intent_of(input, layers) == IntentView::Load(strip_quotes(trim_seq(rest))),
{
    let t = trim_seq(input);
    lemma_no_keyword_number(t, buffer_keywords());
    assert(open_keywords()[0] == "打开"@);
}

} // verus!
