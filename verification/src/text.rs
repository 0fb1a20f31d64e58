use vstd::prelude::*;
use crate::fmt::push_char;

verus! {

/// The length of a text in bytes, as UTF-8 encodes it (what `str::len` gives).
pub open spec fn byte_len(s: Seq<char>) -> nat {
    vstd::utf8::encode_utf8(s).len()
}

/// The number of bytes UTF-8 takes for `c`.
pub open spec fn char_width(c: char) -> nat {
    if (c as u32) <= 0x7F {
        1
    } else if (c as u32) <= 0x7FF {
        2
    } else if (c as u32) <= 0xFFFF {
        3
    } else {
        4
    }
}

/// `n`, or `usize::MAX` when it is larger.
pub open spec fn sat_usize(n: nat) -> nat {
    if n > usize::MAX {
        usize::MAX as nat
    } else {
        n
    }
}

proof fn lemma_scalar_width(c: char)
    ensures
        vstd::utf8::encode_scalar(c as u32).len() == char_width(c),
{
    broadcast use vstd::utf8::char_is_scalar;

}

/// Adding a char to a text adds its UTF-8 width to the text's length in bytes.
pub proof fn lemma_byte_len_push(s: Seq<char>, c: char)
    ensures
        byte_len(s.push(c)) == byte_len(s) + char_width(c),
    decreases s.len(),
{
    lemma_scalar_width(c);
    let t = s.push(c);
    assert(vstd::utf8::encode_utf8(t) == vstd::utf8::encode_scalar(t[0] as u32) + vstd::utf8::encode_utf8(t.drop_first()));
    if s.len() == 0 {
        assert(t.drop_first() =~= Seq::<char>::empty());
        assert(vstd::utf8::encode_utf8(Seq::<char>::empty()) =~= Seq::<u8>::empty());
        assert(t[0] == c);
        assert(byte_len(s) == 0);
    } else {
        lemma_byte_len_push(s.drop_first(), c);
        assert(t.drop_first() =~= s.drop_first().push(c));
        assert(t[0] == s[0]);
        assert(vstd::utf8::encode_utf8(s) == vstd::utf8::encode_scalar(s[0] as u32) + vstd::utf8::encode_utf8(s.drop_first()));
    }
}

/// The length of `s` in bytes (as `str::len` counts it), or `usize::MAX`
/// when it is larger.
pub fn text_byte_len(s: &str) -> (n: usize)
    ensures
        n as nat == sat_usize(byte_len(s@)),
{
    let cs = chars_of(s);
    let mut n: usize = 0;
    let mut i: usize = 0;
    proof {
        assert(s@.take(0) =~= Seq::<char>::empty());
    }
    while i < cs.len()
        invariant
            cs@ == s@,
            i <= cs@.len(),
            n as nat == sat_usize(byte_len(s@.take(i as int))),
        decreases cs@.len() - i,
    {
        let c = cs[i];
        let u = c as u32;
        let w: usize = if u <= 0x7F {
            1
        } else if u <= 0x7FF {
            2
        } else if u <= 0xFFFF {
            3
        } else {
            4
        };
        proof {
            assert(s@.take(i + 1) =~= s@.take(i as int).push(c));
            lemma_byte_len_push(s@.take(i as int), c);
        }
        n = n.saturating_add(w);
        i = i + 1;
    }
    proof {
        assert(s@.take(cs@.len() as int) =~= s@);
    }
    n
}

/// The widths, in chars, of the lines of `s` as `str::lines` yields them:
/// the text is split at every `'\n'`, a `'\r'` directly before a `'\n'` is
/// dropped, and a last empty piece (after a final `'\n'`, or of an empty
/// text) is no line.
pub open spec fn line_widths(s: Seq<char>) -> Seq<nat> {
    line_widths_from(s, 0)
}

/// Widths of the lines of `s`, where `cur` chars of the first line were
/// already read before `s`.
pub open spec fn line_widths_from(s: Seq<char>, cur: nat) -> Seq<nat>
    decreases s.len(),
{
    if s.len() == 0 {
        if cur == 0 {
            seq![]
        } else {
            seq![cur]
        }
    } else if s[0] == '\n' {
        seq![cur] + line_widths_from(s.drop_first(), 0)
    } else if s[0] == '\r' && s.len() >= 2 && s[1] == '\n' {
        seq![cur] + line_widths_from(s.subrange(2, s.len() as int), 0)
    } else {
        line_widths_from(s.drop_first(), cur + 1)
    }
}

/// The largest element of `s`, or 0 for an empty sequence.
pub open spec fn seq_max(s: Seq<nat>) -> nat
    decreases s.len(),
{
    if s.len() == 0 {
        0
    } else {
        let m = seq_max(s.drop_last());
        if s.last() > m {
            s.last()
        } else {
            m
        }
    }
}

/// The characters of a string slice, in order.
pub fn chars_of(s: &str) -> (v: Vec<char>)
    ensures
        v@ == s@,
{
    let mut v: Vec<char> = Vec::new();
    for c in it: s.chars()
        invariant
            it.seq() == s@,
            v@ == s@.take(it.index() as int),
    {
        v.push(c);
    }
    v
}

/// The lines of `s` as `str::lines` yields them (see `line_widths`).
pub open spec fn text_lines(s: Seq<char>) -> Seq<Seq<char>> {
    text_lines_from(s, seq![])
}

/// The lines of `s`, where `cur` was already read of the first line.
pub open spec fn text_lines_from(s: Seq<char>, cur: Seq<char>) -> Seq<Seq<char>>
    decreases s.len(),
{
    if s.len() == 0 {
        if cur.len() == 0 {
            seq![]
        } else {
            seq![cur]
        }
    } else if s[0] == '\n' {
        seq![cur] + text_lines_from(s.drop_first(), seq![])
    } else if s[0] == '\r' && s.len() >= 2 && s[1] == '\n' {
        seq![cur] + text_lines_from(s.subrange(2, s.len() as int), seq![])
    } else {
        text_lines_from(s.drop_first(), cur.push(s[0]))
    }
}

/// The lines of `s`, in order (see `text_lines`).
pub fn lines_of(s: &str) -> (v: Vec<String>)
    ensures
        v@.map_values(|l: String| l@) == text_lines(s@),
{
    let cs = chars_of(s);
    let n = cs.len();
    let mut v: Vec<String> = Vec::new();
    let mut cur = String::new();
    let mut cur_len: usize = 0;
    let mut i: usize = 0;
    proof {
        assert(cs@.subrange(0, n as int) =~= s@);
        assert(cur@ =~= Seq::<char>::empty());
    }
    while i < n
        invariant
            n == cs@.len(),
            cs@ == s@,
            i <= n,
            cur_len <= i,
            cur@.len() == cur_len,
            v@.map_values(|l: String| l@) + text_lines_from(cs@.subrange(i as int, n as int), cur@) == text_lines(s@),
        decreases n - i,
    {
        let ghost rest = cs@.subrange(i as int, n as int);
        let ghost done = v@.map_values(|l: String| l@);
        let c = cs[i];
        if c == '\n' {
            proof {
                assert(rest.drop_first() =~= cs@.subrange(i + 1, n as int));
            }
            let line = cur;
            v.push(line);
            cur = String::new();
            cur_len = 0;
            proof {
                assert(v@.map_values(|l: String| l@) =~= done.push(line@));
                assert(cur@ =~= Seq::<char>::empty());
                assert(done.push(line@) + text_lines_from(cs@.subrange(i + 1, n as int), seq![]) =~= done
                    + (seq![line@] + text_lines_from(cs@.subrange(i + 1, n as int), seq![])));
            }
            i = i + 1;
        } else if c == '\r' && i + 1 < n && cs[i + 1] == '\n' {
            proof {
                assert(rest.subrange(2, rest.len() as int) =~= cs@.subrange(i + 2, n as int));
            }
            let line = cur;
            v.push(line);
            cur = String::new();
            cur_len = 0;
            proof {
                assert(v@.map_values(|l: String| l@) =~= done.push(line@));
                assert(cur@ =~= Seq::<char>::empty());
                assert(done.push(line@) + text_lines_from(cs@.subrange(i + 2, n as int), seq![]) =~= done
                    + (seq![line@] + text_lines_from(cs@.subrange(i + 2, n as int), seq![])));
            }
            i = i + 2;
        } else {
            proof {
                assert(rest.drop_first() =~= cs@.subrange(i + 1, n as int));
            }
            push_char(&mut cur, c);
            cur_len = cur_len + 1;
            i = i + 1;
        }
    }
    proof {
        assert(cs@.subrange(n as int, n as int) =~= Seq::<char>::empty());
    }
    if cur_len > 0 {
        let ghost done = v@.map_values(|l: String| l@);
        let line = cur;
        v.push(line);
        proof {
            assert(v@.map_values(|l: String| l@) =~= done.push(line@));
            assert(done + seq![line@] =~= done.push(line@));
        }
    } else {
        proof {
            assert(v@.map_values(|l: String| l@) + Seq::<Seq<char>>::empty() =~= v@.map_values(|l: String| l@));
        }
    }
    v
}

proof fn lemma_push_max(s: Seq<nat>, w: nat)
    ensures
        seq_max(s.push(w)) == if w > seq_max(s) { w } else { seq_max(s) },
{
    assert(s.push(w).drop_last() =~= s);
}

/// The width of every line of `s`, in order (see `line_widths`).
pub fn line_widths_of(s: &str) -> (v: Vec<usize>)
    ensures
        v@.len() == line_widths(s@).len(),
        forall|i: int| 0 <= i < v@.len() ==> v@[i] as nat == #[trigger] line_widths(s@)[i],
{
    let cs = chars_of(s);
    let n = cs.len();
    let mut v: Vec<usize> = Vec::new();
    let mut cur: usize = 0;
    let mut i: usize = 0;
    let ghost done: Seq<nat> = seq![];
    proof {
        assert(cs@.subrange(0, n as int) =~= s@);
        assert(done + line_widths_from(s@, 0) =~= line_widths_from(s@, 0));
    }
    while i < n
        invariant
            n == cs@.len(),
            cs@ == s@,
            i <= n,
            cur <= i,
            v@.len() == done.len(),
            forall|k: int| 0 <= k < v@.len() ==> v@[k] as nat == done[k],
            done + line_widths_from(cs@.subrange(i as int, n as int), cur as nat) == line_widths(
                s@,
            ),
        decreases n - i,
    {
        let rest = Ghost(cs@.subrange(i as int, n as int));
        let c = cs[i];
        if c == '\n' {
            proof {
                assert(rest@.drop_first() =~= cs@.subrange(i + 1, n as int));
                assert(done.push(cur as nat) + line_widths_from(cs@.subrange(i + 1, n as int), 0)
                    =~= done + (seq![cur as nat] + line_widths_from(
                    cs@.subrange(i + 1, n as int),
                    0,
                )));
                done = done.push(cur as nat);
            }
            v.push(cur);
            cur = 0;
            i = i + 1;
        } else if c == '\r' && i + 1 < n && cs[i + 1] == '\n' {
            proof {
                assert(rest@.subrange(2, rest@.len() as int) =~= cs@.subrange(i + 2, n as int));
                assert(done.push(cur as nat) + line_widths_from(cs@.subrange(i + 2, n as int), 0)
                    =~= done + (seq![cur as nat] + line_widths_from(
                    cs@.subrange(i + 2, n as int),
                    0,
                )));
                done = done.push(cur as nat);
            }
            v.push(cur);
            cur = 0;
            i = i + 2;
        } else {
            proof {
                assert(rest@.drop_first() =~= cs@.subrange(i + 1, n as int));
            }
            cur = cur + 1;
            i = i + 1;
        }
    }
    proof {
        assert(cs@.subrange(n as int, n as int) =~= Seq::<char>::empty());
    }
    if cur > 0 {
        proof {
            assert(done + seq![cur as nat] =~= done.push(cur as nat));
            done = done.push(cur as nat);
        }
        v.push(cur);
    } else {
        proof {
            assert(done + Seq::<nat>::empty() =~= done);
        }
    }
    v
}

/// The largest element of `v`, or 0 when `v` is empty.
pub fn max_of(v: &Vec<usize>) -> (m: usize)
    ensures
        m as nat == seq_max(v@.map_values(|x: usize| x as nat)),
{
    let mut m: usize = 0;
    let mut i: usize = 0;
    while i < v.len()
        invariant
            i <= v@.len(),
            m as nat == seq_max(v@.take(i as int).map_values(|x: usize| x as nat)),
        decreases v@.len() - i,
    {
        proof {
            let a = v@.take(i as int).map_values(|x: usize| x as nat);
            assert(v@.take(i + 1).map_values(|x: usize| x as nat) =~= a.push(v@[i as int] as nat));
            lemma_push_max(a, v@[i as int] as nat);
        }
        if v[i] > m {
            m = v[i];
        }
        i = i + 1;
    }
    assert(v@.take(v@.len() as int) =~= v@);
    m
}

} // verus!

verus! {

/// What `str::to_lowercase` gives for a text: the Unicode lowercase mapping,
/// a function of the chars alone.
pub uninterp spec fn lowercase(s: Seq<char>) -> Seq<char>;

/// `str::to_lowercase`. Trusted: the result is the chars that the
/// standard library's Unicode lowercase mapping gives for `s`, named
/// `lowercase`; nothing more is stated of it.
#[verifier::external_body]
pub(crate) fn to_lowercase(s: &str) -> (r: String)
    ensures
        r@ == lowercase(s@),
{
    s.to_lowercase()
}

/// `needle` occurs in `hay` as a contiguous run of chars.
pub open spec fn has_substring(hay: Seq<char>, needle: Seq<char>) -> bool {
    exists|i: int|
        0 <= i && i + needle.len() <= hay.len() && #[trigger] hay.subrange(i, i + needle.len())
            == needle
}

/// Whether the chars of `needle` occur contiguously in `hay` (`str::contains`).
pub fn str_contains(hay: &str, needle: &str) -> (b: bool)
    ensures
        b == has_substring(hay@, needle@),
{
    let h = chars_of(hay);
    let n = chars_of(needle);
    let hl = h.len();
    let nl = n.len();
    if nl > hl {
        proof {
            assert forall|i: int|
                0 <= i && i + n@.len() <= h@.len() implies #[trigger] h@.subrange(i, i + n@.len())
                != n@ by {}
        }
        return false;
    }
    if nl == 0 {
        proof {
            assert(h@.subrange(0, 0 + n@.len() as int) =~= n@);
        }
        return true;
    }
    let mut i: usize = 0;
    while i <= hl - nl
        invariant
            h@ == hay@,
            n@ == needle@,
            hl == h@.len(),
            nl == n@.len(),
            1 <= nl <= hl,
            i <= hl - nl + 1,
            forall|k: int| 0 <= k < i ==> #[trigger] h@.subrange(k, k + nl) != n@,
        decreases hl - nl + 1 - i,
    {
        let mut j: usize = 0;
        let mut ok = true;
        while j < nl
            invariant
                h@ == hay@,
                n@ == needle@,
                hl == h@.len(),
                nl == n@.len(),
                i + nl <= hl,
                j <= nl,
                ok ==> forall|k: int| 0 <= k < j ==> h@[i + k] == n@[k],
                !ok ==> h@.subrange(i as int, i + nl) != n@,
            decreases nl - j,
        {
            if h[i + j] != n[j] {
                proof {
                    assert(h@.subrange(i as int, i + nl)[j as int] == h@[i + j]);
                }
                ok = false;
            }
            j = j + 1;
        }
        if ok {
            proof {
                assert(h@.subrange(i as int, i + nl) =~= n@);
            }
            return true;
        }
        i = i + 1;
    }
    proof {
        assert forall|k: int|
            0 <= k && k + n@.len() <= h@.len() implies #[trigger] h@.subrange(k, k + n@.len())
            != n@ by {
            assert(k < i);
        }
    }
    false
}

} // verus!

verus! {

/// Whether two texts are the same chars.
pub fn text_eq(a: &str, b: &str) -> (r: bool)
    ensures
        r == (a@ == b@),
{
    let x = chars_of(a);
    let y = chars_of(b);
    if x.len() != y.len() {
        return false;
    }
    let mut i: usize = 0;
    while i < x.len()
        invariant
            x@ == a@,
            y@ == b@,
            x@.len() == y@.len(),
            i <= x@.len(),
            forall|j: int| 0 <= j < i ==> x@[j] == y@[j],
        decreases x@.len() - i,
    {
        if x[i] != y[i] {
            return false;
        }
        i = i + 1;
    }
    proof {
        assert(x@ =~= y@);
    }
    true
}

/// `String::pop`. Trusted: std documents that it removes the last char and
/// returns it, or returns `None` for an empty string.
#[verifier::external_body]
pub(crate) fn pop_char(s: &mut String) -> (c: Option<char>)
    ensures
        old(s)@.len() == 0 ==> c is None && final(s)@ == old(s)@,
        old(s)@.len() > 0 ==> c == Some(old(s)@.last()) && final(s)@ == old(s)@.drop_last(),
{
    s.pop()
}

} // verus!

verus! {

/// Whether `pat` occurs in `s` at position `i`.
pub open spec fn occurs_at(s: Seq<char>, pat: Seq<char>, i: int) -> bool {
    0 <= i && i + pat.len() <= s.len() && s.subrange(i, i + pat.len() as int) == pat
}

/// The first position at or after `from` where `pat` occurs in `s`.
pub closed spec fn first_occurrence(s: Seq<char>, pat: Seq<char>, from: int) -> Option<int> {
    if exists|i: int| from <= i && occurs_at(s, pat, i) {
        Some(
            choose|i: int|
                from <= i && occurs_at(s, pat, i) && forall|m: int| from <= m < i ==> !occurs_at(s, pat, m),
        )
    } else {
        None
    }
}

/// Whether `pat` occurs in `s` at position `i`.
pub fn matches_at(s: &Vec<char>, pat: &Vec<char>, i: usize) -> (b: bool)
    ensures
        b == occurs_at(s@, pat@, i as int),
{
    let n = s.len();
    let m = pat.len();
    if m > n || i > n - m {
        return false;
    }
    let mut j: usize = 0;
    while j < m
        invariant
            n == s@.len(),
            m == pat@.len(),
            i + m <= n,
            j <= m,
            forall|t: int| 0 <= t < j ==> s@[i + t] == pat@[t],
        decreases m - j,
    {
        if s[i + j] != pat[j] {
            proof {
                assert(s@.subrange(i as int, i + m)[j as int] == s@[i + j]);
            }
            return false;
        }
        j = j + 1;
    }
    proof {
        assert(s@.subrange(i as int, i + m) =~= pat@);
    }
    true
}

/// The first position at or after `from` where `pat` occurs in `s`
/// (see `first_occurrence`).
pub fn find_from(s: &Vec<char>, pat: &Vec<char>, from: usize) -> (r: Option<usize>)
    ensures
        match r {
            Some(i) => first_occurrence(s@, pat@, from as int) == Some(i as int),
            None => first_occurrence(s@, pat@, from as int) is None,
        },
{
    let n = s.len();
    if from > n {
        proof {
            assert forall|k: int| from <= k implies !occurs_at(s@, pat@, k) by {
                assert(k + pat@.len() > s@.len());
            }
        }
        return None;
    }
    let mut i: usize = from;
    while i < n
        invariant
            n == s@.len(),
            from <= i <= n,
            forall|k: int| from <= k < i ==> !occurs_at(s@, pat@, k),
        ensures
            from <= i <= n,
            forall|k: int| from <= k < i ==> !occurs_at(s@, pat@, k),
            i == n || occurs_at(s@, pat@, i as int),
        decreases n - i,
    {
        if matches_at(s, pat, i) {
            break;
        }
        i = i + 1;
    }
    if matches_at(s, pat, i) {
        proof {
            lemma_first_occurrence(s@, pat@, from as int, i as int);
        }
        Some(i)
    } else {
        proof {
            assert forall|k: int| from <= k implies !occurs_at(s@, pat@, k) by {
                if k > n {
                    assert(k + pat@.len() > s@.len());
                }
            }
        }
        None
    }
}

/// A position that `first_occurrence` gives holds `pat`, at or after `from`.
pub proof fn lemma_occurrence_in_bounds(s: Seq<char>, pat: Seq<char>, from: int)
    ensures
        first_occurrence(s, pat, from) matches Some(i) ==> from <= i && i + pat.len() <= s.len()
            && occurs_at(s, pat, i),
{
    if exists|i: int| from <= i && occurs_at(s, pat, i) {
        let k = choose|i: int| from <= i && occurs_at(s, pat, i);
        lemma_least_occurrence(s, pat, from, k);
    }
}

proof fn lemma_least_occurrence(s: Seq<char>, pat: Seq<char>, from: int, k: int)
    requires
        from <= k,
        occurs_at(s, pat, k),
    ensures
        exists|i: int| from <= i && occurs_at(s, pat, i) && forall|m: int| from <= m < i ==> !occurs_at(s, pat, m),
    decreases k - from,
{
    if exists|m: int| from <= m < k && occurs_at(s, pat, m) {
        let m = choose|m: int| from <= m < k && occurs_at(s, pat, m);
        lemma_least_occurrence(s, pat, from, m);
    } else {
        assert(from <= k && occurs_at(s, pat, k) && forall|m: int| from <= m < k ==> !occurs_at(s, pat, m));
    }
}

proof fn lemma_first_occurrence(s: Seq<char>, pat: Seq<char>, from: int, i: int)
    requires
        from <= i,
        occurs_at(s, pat, i),
        forall|k: int| from <= k < i ==> !occurs_at(s, pat, k),
    ensures
        first_occurrence(s, pat, from) == Some(i),
{
    let k = choose|k: int| from <= k && occurs_at(s, pat, k) && forall|q: int| from <= q < k ==> !occurs_at(s, pat, q);
    assert(k == i) by {
        if k < i {
            assert(!occurs_at(s, pat, k));
        }
        if k > i {
            assert(!occurs_at(s, pat, i));
        }
    }
}

/// The text of `v[lo..hi]`.
pub fn string_of(v: &Vec<char>, lo: usize, hi: usize) -> (s: String)
    requires
        lo <= hi <= v@.len(),
    ensures
        s@ == v@.subrange(lo as int, hi as int),
{
    let mut s = String::new();
    let mut i: usize = lo;
    while i < hi
        invariant
            lo <= i <= hi,
            hi <= v@.len(),
            s@ == v@.subrange(lo as int, i as int),
        decreases hi - i,
    {
        crate::fmt::push_char(&mut s, v[i]);
        proof {
            assert(v@.subrange(lo as int, i + 1) =~= v@.subrange(lo as int, i as int).push(v@[i as int]));
        }
        i = i + 1;
    }
    s
}

} // verus!
