use vstd::prelude::*;

verus! {

/// The characters of an optional text.
pub open spec fn opt_view(o: Option<&str>) -> Option<Seq<char>> {
    match o {
        Some(s) => Some(s@),
        None => None,
    }
}

/// Unicode `White_Space`: the characters that `char::is_whitespace` and the `\s`
/// class of regular expressions accept.
pub open spec fn is_white(c: char) -> bool {
    ||| '\u{9}' <= c <= '\u{d}'
    ||| c == ' '
    ||| c == '\u{85}'
    ||| c == '\u{a0}'
    ||| c == '\u{1680}'
    ||| '\u{2000}' <= c <= '\u{200a}'
    ||| c == '\u{2028}'
    ||| c == '\u{2029}'
    ||| c == '\u{202f}'
    ||| c == '\u{205f}'
    ||| c == '\u{3000}'
}

pub fn is_white_char(c: char) -> (r: bool)
    ensures
        r == is_white(c),
{
    ('\u{9}' <= c && c <= '\u{d}') || c == ' ' || c == '\u{85}' || c == '\u{a0}' || c == '\u{1680}'
        || ('\u{2000}' <= c && c <= '\u{200a}') || c == '\u{2028}' || c == '\u{2029}' || c
        == '\u{202f}' || c == '\u{205f}' || c == '\u{3000}'
}

/// `s` begins with `p`.
pub open spec fn has_prefix(s: Seq<char>, p: Seq<char>) -> bool {
    p.len() <= s.len() && s.subrange(0, p.len() as int) == p
}

/// A text begins with whatever it was built from first.
pub proof fn lemma_prefix_concat(a: Seq<char>, b: Seq<char>)
    ensures
        has_prefix(a + b, a),
{
    assert((a + b).subrange(0, a.len() as int) =~= a);
}

/// `s` ends with `p`.
pub open spec fn has_suffix(s: Seq<char>, p: Seq<char>) -> bool {
    p.len() <= s.len() && s.subrange(s.len() - p.len(), s.len() as int) == p
}

/// `n` occurs in `h` at position `i`.
pub open spec fn occurs_at(h: Seq<char>, n: Seq<char>, i: int) -> bool {
    0 <= i && i + n.len() <= h.len() && h.subrange(i, i + n.len()) == n
}

/// `n` occurs somewhere in `h`.
pub open spec fn has_infix(h: Seq<char>, n: Seq<char>) -> bool {
    exists|i: int| occurs_at(h, n, i)
}

/// Whether `n` occurs in `s` starting at character `at`.
pub fn matches_at(s: &str, n: &str, at: usize) -> (r: bool)
    requires
        at <= s@.len(),
    ensures
        r == occurs_at(s@, n@, at as int),
{
    let sl = s.unicode_len();
    let nl = n.unicode_len();
    if nl > sl - at {
        return false;
    }
    let mut k: usize = 0;
    while k < nl
        invariant
            sl == s@.len(),
            nl == n@.len(),
            at + nl <= sl,
            k <= nl,
            forall|j: int| 0 <= j < k ==> s@[at + j] == n@[j],
        decreases nl - k,
    {
        if s.get_char(at + k) != n.get_char(k) {
            assert(s@.subrange(at as int, at + nl)[k as int] != n@[k as int]);
            return false;
        }
        k = k + 1;
    }
    assert(s@.subrange(at as int, at + nl) =~= n@);
    true
}

/// Whether `s` begins with `p`.
pub fn starts_with(s: &str, p: &str) -> (r: bool)
    ensures
        r == has_prefix(s@, p@),
{
    let r = matches_at(s, p, 0);
    assert(r == has_prefix(s@, p@)) by {
        if p@.len() <= s@.len() {
            assert(occurs_at(s@, p@, 0) == has_prefix(s@, p@));
        }
    }
    r
}

/// Whether `s` ends with `p`.
pub fn ends_with(s: &str, p: &str) -> (r: bool)
    ensures
        r == has_suffix(s@, p@),
{
    let sl = s.unicode_len();
    let pl = p.unicode_len();
    if pl > sl {
        return false;
    }
    matches_at(s, p, sl - pl)
}

/// Whether `n` occurs anywhere in `h`.
pub fn contains(h: &str, n: &str) -> (r: bool)
    ensures
        r == has_infix(h@, n@),
{
    let hl = h.unicode_len();
    let nl = n.unicode_len();
    if nl > hl {
        assert(!has_infix(h@, n@));
        return false;
    }
    let last = hl - nl;
    let mut i: usize = 0;
    loop
        invariant_except_break
            hl == h@.len(),
            nl == n@.len(),
            last == hl - nl,
            i <= last,
            forall|j: int| 0 <= j < i ==> !occurs_at(h@, n@, j),
        ensures
            forall|j: int| 0 <= j <= last ==> !occurs_at(h@, n@, j),
        decreases last - i,
    {
        if matches_at(h, n, i) {
            return true;
        }
        if i == last {
            break;
        }
        i = i + 1;
    }
    assert forall|j: int| !occurs_at(h@, n@, j) by {
        if 0 <= j && j + nl <= hl {
            assert(j <= last);
        }
    }
    false
}

/// `s` without its leading white space.
pub open spec fn trim_start(s: Seq<char>) -> Seq<char>
    decreases s.len(),
{
    if s.len() > 0 && is_white(s[0]) {
        trim_start(s.drop_first())
    } else {
        s
    }
}

/// `s` without its trailing white space.
pub open spec fn trim_end(s: Seq<char>) -> Seq<char>
    decreases s.len(),
{
    if s.len() > 0 && is_white(s.last()) {
        trim_end(s.drop_last())
    } else {
        s
    }
}

/// `s` without white space at either end.
pub open spec fn trimmed(s: Seq<char>) -> Seq<char> {
    trim_end(trim_start(s))
}

/// `s` with white space at both ends removed.
pub fn trim(s: &str) -> (r: &str)
    ensures
        r@ == trimmed(s@),
{
    let n = s.unicode_len();
    let mut a: usize = 0;
    assert(s@.subrange(0, n as int) =~= s@);
    while a < n && is_white_char(s.get_char(a))
        invariant
            n == s@.len(),
            a <= n,
            trim_start(s@) == trim_start(s@.subrange(a as int, n as int)),
        decreases n - a,
    {
        assert(s@.subrange(a as int, n as int).drop_first() =~= s@.subrange(a + 1, n as int));
        a = a + 1;
    }
    assert(trim_start(s@) == s@.subrange(a as int, n as int));
    let mut b: usize = n;
    while b > a && is_white_char(s.get_char(b - 1))
        invariant
            n == s@.len(),
            a <= b <= n,
            trimmed(s@) == trim_end(s@.subrange(a as int, b as int)),
        decreases b,
    {
        assert(s@.subrange(a as int, b as int).drop_last() =~= s@.subrange(a as int, b - 1));
        b = b - 1;
    }
    s.substring_char(a, b)
}

/// The white-space separated words of `s`, in order, read one character at a
/// time: white space ends a word, and any other character extends the word
/// in progress or starts a new one.
pub open spec fn words(s: Seq<char>) -> Seq<Seq<char>>
    decreases s.len(),
{
    if s.len() == 0 {
        seq![]
    } else {
        let p = words(s.drop_last());
        let c = s.last();
        if is_white(c) {
            p
        } else if s.len() >= 2 && !is_white(s[s.len() - 2]) {
            p.update(p.len() - 1, p.last().push(c))
        } else {
            p.push(seq![c])
        }
    }
}

/// A text that ends in a word has at least one.
pub proof fn lemma_words_nonempty(s: Seq<char>)
    requires
        s.len() > 0,
        !is_white(s.last()),
    ensures
        words(s).len() > 0,
    decreases s.len(),
{
    if s.len() >= 2 && !is_white(s[s.len() - 2]) {
        lemma_words_nonempty(s.drop_last());
    }
}

/// A text with no white space has no words only when it is empty.
pub proof fn lemma_words_empty(s: Seq<char>)
    ensures
        words(s).len() == 0 <==> (forall|i: int| 0 <= i < s.len() ==> is_white(s[i])),
    decreases s.len(),
{
    if s.len() > 0 {
        lemma_words_empty(s.drop_last());
        if !is_white(s.last()) {
            lemma_words_nonempty(s);
        } else {
            assert forall|i: int| 0 <= i < s.len() - 1 implies s.drop_last()[i] == s[i] by {}
        }
    }
}

/// The views of a list of strings.
pub open spec fn views(v: Seq<String>) -> Seq<Seq<char>> {
    v.map_values(|w: String| w@)
}

/// The white-space separated words of `s`.
pub fn split_words(s: &str) -> (r: Vec<String>)
    ensures
        views(r@) == words(s@),
{
    let n = s.unicode_len();
    let mut out: Vec<String> = Vec::new();
    let mut start: usize = 0;
    let mut in_word = false;
    let mut i: usize = 0;
    while i < n
        invariant
            n == s@.len(),
            i <= n,
            in_word <==> (i > 0 && !is_white(s@[i - 1])),
            in_word ==> start < i,
            in_word ==> words(s@.subrange(0, i as int)).len() > 0,
            in_word ==> views(out@) == words(s@.subrange(0, i as int)).drop_last(),
            in_word ==> words(s@.subrange(0, i as int)).last() == s@.subrange(start as int, i as int),
            !in_word ==> views(out@) == words(s@.subrange(0, i as int)),
        decreases n - i,
    {
        let c = s.get_char(i);
        let ghost pre = s@.subrange(0, i as int);
        let ghost next = s@.subrange(0, i + 1);
        assert(next.drop_last() =~= pre);
        assert(next.last() == c);
        if is_white_char(c) {
            if in_word {
                let w = s.substring_char(start, i);
                let ghost before = out@;
                out.push(w.to_owned());
                assert(views(out@) =~= views(before).push(w@));
                assert(words(pre).drop_last().push(words(pre).last()) =~= words(pre));
            }
            in_word = false;
        } else {
            if in_word {
                assert(next[next.len() - 2] == s@[i - 1]);
                assert(words(next).drop_last() =~= words(pre).drop_last());
                assert(s@.subrange(start as int, i + 1) =~= s@.subrange(start as int, i as int).push(c));
            } else {
                if i > 0 {
                    assert(next[next.len() - 2] == s@[i - 1]);
                }
                assert(words(next).drop_last() =~= words(pre));
                assert(s@.subrange(i as int, i + 1) =~= seq![c]);
                start = i;
            }
            in_word = true;
        }
        proof {
            if in_word {
                lemma_words_nonempty(next);
            }
        }
        i = i + 1;
    }
    assert(s@.subrange(0, n as int) =~= s@);
    if in_word {
        let w = s.substring_char(start, n);
        let ghost before = out@;
        out.push(w.to_owned());
        assert(views(out@) =~= views(before).push(w@));
        assert(words(s@).drop_last().push(words(s@).last()) =~= words(s@));
    }
    out
}

} // verus!
