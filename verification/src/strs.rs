//! Verified string utilities: substring containment, decimal rendering of
//! integers, and character-based find/split used by the output parsers.

use vstd::multiset::Multiset;
use vstd::prelude::*;

verus! {

/// `needle` occurs in `hay` starting at index `i`.
pub open spec fn contains_at(hay: Seq<char>, needle: Seq<char>, i: int) -> bool {
    0 <= i && i + needle.len() <= hay.len() && hay.subrange(i, i + needle.len() as int) == needle
}

/// `needle` occurs somewhere in `hay`.
pub open spec fn contains_seq(hay: Seq<char>, needle: Seq<char>) -> bool {
    exists|i: int| contains_at(hay, needle, i)
}

/// An occurrence in the right half of a concatenation is an occurrence in
/// the whole.
pub proof fn lemma_contains_concat_right(a: Seq<char>, b: Seq<char>, n: Seq<char>)
    requires
        contains_seq(b, n),
    ensures
        contains_seq(a + b, n),
{
    let i = choose|i: int| contains_at(b, n, i);
    assert((a + b).subrange(a.len() + i, a.len() + i + n.len() as int) =~= b.subrange(
        i,
        i + n.len() as int,
    ));
    assert(contains_at(a + b, n, a.len() + i));
}

/// An occurrence in the left half of a concatenation is an occurrence in
/// the whole.
pub proof fn lemma_contains_concat_left(a: Seq<char>, b: Seq<char>, n: Seq<char>)
    requires
        contains_seq(a, n),
    ensures
        contains_seq(a + b, n),
{
    let i = choose|i: int| contains_at(a, n, i);
    assert((a + b).subrange(i, i + n.len() as int) =~= a.subrange(i, i + n.len() as int));
    assert(contains_at(a + b, n, i));
}

/// If neither half contains the needle and the left half does not end in
/// any character the needle's proper prefixes end in, the concatenation
/// does not contain the needle either.
pub proof fn lemma_no_contains_concat_left_anchor(a: Seq<char>, b: Seq<char>, n: Seq<char>)
    requires
        n.len() >= 1,
        !contains_seq(a, n),
        !contains_seq(b, n),
        a.len() >= 1 ==> forall|j: int| 0 <= j < n.len() - 1 ==> a[a.len() - 1] != n[j],
    ensures
        !contains_seq(a + b, n),
{
    assert forall|i: int| !contains_at(a + b, n, i) by {
        if contains_at(a + b, n, i) {
            if i + n.len() <= a.len() {
                assert(a.subrange(i, i + n.len() as int) =~= (a + b).subrange(
                    i,
                    i + n.len() as int,
                ));
                assert(contains_at(a, n, i));
            } else if i >= a.len() {
                assert(b.subrange(i - a.len(), i - a.len() + n.len() as int) =~= (a + b).subrange(
                    i,
                    i + n.len() as int,
                ));
                assert(contains_at(b, n, i - a.len()));
            } else {
                // the occurrence straddles the boundary
                let j = a.len() - 1 - i;
                assert(0 <= j < n.len() - 1);
                assert((a + b)[a.len() - 1] == a[a.len() - 1]);
                assert(n[j] == (a + b).subrange(i, i + n.len() as int)[j]);
                assert(a[a.len() - 1] == n[j]);
            }
        }
    }
}

/// Mirror of the previous lemma anchored on the right half's first
/// character.
pub proof fn lemma_no_contains_concat_right_anchor(a: Seq<char>, b: Seq<char>, n: Seq<char>)
    requires
        n.len() >= 1,
        !contains_seq(a, n),
        !contains_seq(b, n),
        b.len() >= 1 ==> forall|j: int| 1 <= j < n.len() ==> b[0] != n[j],
    ensures
        !contains_seq(a + b, n),
{
    assert forall|i: int| !contains_at(a + b, n, i) by {
        if contains_at(a + b, n, i) {
            if i + n.len() <= a.len() {
                assert(a.subrange(i, i + n.len() as int) =~= (a + b).subrange(
                    i,
                    i + n.len() as int,
                ));
                assert(contains_at(a, n, i));
            } else if i >= a.len() {
                assert(b.subrange(i - a.len(), i - a.len() + n.len() as int) =~= (a + b).subrange(
                    i,
                    i + n.len() as int,
                ));
                assert(contains_at(b, n, i - a.len()));
            } else {
                let j = a.len() - i;
                assert(1 <= j < n.len());
                assert((a + b)[a.len() as int] == b[0]);
                assert(n[j] == (a + b).subrange(i, i + n.len() as int)[j]);
                assert(b[0] == n[j]);
            }
        }
    }
}

/// Every character of `s` is a decimal digit.
pub open spec fn all_digits(s: Seq<char>) -> bool {
    forall|i: int| 0 <= i < s.len() ==> '0' <= #[trigger] s[i] <= '9'
}

/// A needle whose first character is not a digit cannot occur in an
/// all-digit string.
pub proof fn lemma_no_contains_all_digits(s: Seq<char>, n: Seq<char>)
    requires
        all_digits(s),
        n.len() >= 1,
        !('0' <= n[0] <= '9'),
    ensures
        !contains_seq(s, n),
{
    assert forall|i: int| !contains_at(s, n, i) by {
        if contains_at(s, n, i) {
            assert(n[0] == s.subrange(i, i + n.len() as int)[0]);
            assert(s[i] == n[0]);
        }
    }
}

/// No three consecutive characters of `s` are `a`, `b`, `c`.
pub open spec fn lacks_trigram(s: Seq<char>, a: char, b: char, c: char) -> bool {
    forall|i: int|
        0 <= i && i + 3 <= s.len() ==> !(#[trigger] s[i] == a && s[i + 1] == b && s[i + 2] == c)
}

/// A needle cannot occur in a string that lacks the needle's first three
/// characters in a row.
pub proof fn lemma_lacks_trigram_no_contains(s: Seq<char>, n: Seq<char>)
    requires
        n.len() >= 3,
        lacks_trigram(s, n[0], n[1], n[2]),
    ensures
        !contains_seq(s, n),
{
    assert forall|i: int| !contains_at(s, n, i) by {
        if contains_at(s, n, i) {
            assert(s.subrange(i, i + n.len() as int)[0] == s[i]);
            assert(s.subrange(i, i + n.len() as int)[1] == s[i + 1]);
            assert(s.subrange(i, i + n.len() as int)[2] == s[i + 2]);
            assert(s[i] == n[0] && s[i + 1] == n[1] && s[i + 2] == n[2]);
        }
    }
}

/// An occurrence of an occurrence: containment is transitive.
pub proof fn lemma_contains_trans(s: Seq<char>, m: Seq<char>, n: Seq<char>)
    requires
        contains_seq(s, m),
        contains_seq(m, n),
    ensures
        contains_seq(s, n),
{
    let i = choose|i: int| contains_at(s, m, i);
    let j = choose|j: int| contains_at(m, n, j);
    assert(s.subrange(i + j, i + j + n.len() as int) =~= s.subrange(i, i + m.len() as int)
        .subrange(j, j + n.len() as int));
    assert(contains_at(s, n, i + j));
}

/// Substring search.
pub fn str_contains(hay: &str, needle: &str) -> (r: bool)
    ensures
        r == contains_seq(hay@, needle@),
{
    let hn = hay.unicode_len();
    let nn = needle.unicode_len();
    if nn > hn {
        assert(!contains_seq(hay@, needle@));
        return false;
    }
    let mut i: usize = 0;
    while i <= hn - nn
        invariant
            nn <= hn,
            hn == hay@.len(),
            nn == needle@.len(),
            i <= hn - nn + 1,
            forall|k: int| 0 <= k < i ==> !contains_at(hay@, needle@, k),
        decreases hn - nn - i + 1,
    {
        let mut j: usize = 0;
        let mut matches_here = true;
        while j < nn
            invariant
                nn <= hn,
                hn == hay@.len(),
                nn == needle@.len(),
                i + nn <= hn,
                j <= nn,
                matches_here == forall|t: int| 0 <= t < j ==> hay@[i + t] == needle@[t],
            decreases nn - j,
        {
            if hay.get_char(i + j) != needle.get_char(j) {
                matches_here = false;
                assert(!(forall|t: int| 0 <= t < j + 1 ==> hay@[i + t] == needle@[t]));
                j = nn;
            } else {
                assert(matches_here ==> forall|t: int|
                    0 <= t < j + 1 ==> hay@[i + t] == needle@[t]);
                j = j + 1;
            }
        }
        if matches_here {
            assert(hay@.subrange(i as int, i + nn) =~= needle@);
            assert(contains_at(hay@, needle@, i as int));
            return true;
        }
        assert(!contains_at(hay@, needle@, i as int));
        i = i + 1;
    }
    assert forall|k: int| !contains_at(hay@, needle@, k) by {
        if contains_at(hay@, needle@, k) {
            assert(0 <= k <= hn - nn);
        }
    }
    false
}

/// The newline separator test.
pub open spec fn nl_pred() -> spec_fn(char) -> bool {
    |c: char| c == '\n'
}

/// The field separator test: spaces and tabs.
pub open spec fn wsp_pred() -> spec_fn(char) -> bool {
    |c: char| c == ' ' || c == '\t'
}

/// The address/prefix separator test.
pub open spec fn slash_pred() -> spec_fn(char) -> bool {
    |c: char| c == '/'
}

/// The first index whose character satisfies `p`, or the length if none
/// does.
pub open spec fn find_pred(s: Seq<char>, p: spec_fn(char) -> bool) -> int
    decreases s.len(),
{
    if s.len() == 0 {
        0
    } else if p(s[0]) {
        0
    } else {
        1 + find_pred(s.skip(1), p)
    }
}

/// `find_pred` returns the position of the first match: it is in bounds,
/// nothing before it matches, and it matches unless nothing does.
pub proof fn lemma_find_pred_props(s: Seq<char>, p: spec_fn(char) -> bool)
    ensures
        0 <= find_pred(s, p) <= s.len(),
        forall|j: int| 0 <= j < find_pred(s, p) ==> !p(s[j]),
        find_pred(s, p) < s.len() ==> p(s[find_pred(s, p)]),
    decreases s.len(),
{
    if s.len() == 0 {
    } else if p(s[0]) {
    } else {
        lemma_find_pred_props(s.skip(1), p);
        assert forall|j: int| 0 <= j < find_pred(s, p) implies !p(s[j]) by {
            if j > 0 {
                assert(s.skip(1)[j - 1] == s[j]);
            }
        }
        if find_pred(s, p) < s.len() {
            assert(s.skip(1)[find_pred(s, p) - 1] == s[find_pred(s, p)]);
        }
    }
}

/// A position with no match before it, and a match at it unless it is the
/// end, is what `find_pred` returns.
pub proof fn lemma_find_pred_is(s: Seq<char>, p: spec_fn(char) -> bool, m: int)
    requires
        0 <= m <= s.len(),
        forall|j: int| 0 <= j < m ==> !p(s[j]),
        m < s.len() ==> p(s[m]),
    ensures
        find_pred(s, p) == m,
    decreases s.len(),
{
    if s.len() == 0 {
    } else if m == 0 {
        if !p(s[0]) {
            lemma_find_pred_props(s.skip(1), p);
        }
    } else {
        assert(!p(s[0]));
        assert forall|j: int| 0 <= j < m - 1 implies !p(s.skip(1)[j]) by {
            assert(s.skip(1)[j] == s[j + 1]);
        }
        if m - 1 < s.skip(1).len() {
            assert(s.skip(1)[m - 1] == s[m]);
        }
        lemma_find_pred_is(s.skip(1), p, m - 1);
    }
}

/// The segments of `s` between the characters that satisfy `p`: the
/// separators themselves are dropped, empty segments are kept, and a
/// trailing separator yields a trailing empty segment.
pub open spec fn split_pred(s: Seq<char>, p: spec_fn(char) -> bool) -> Seq<Seq<char>>
    decreases s.len(),
{
    let i = find_pred(s, p);
    if 0 <= i < s.len() {
        seq![s.take(i)] + split_pred(s.skip(i + 1), p)
    } else {
        seq![s]
    }
}

/// Splitting at a known first separator position peels one segment off.
pub proof fn lemma_split_pred_step(s: Seq<char>, p: spec_fn(char) -> bool, m: int)
    requires
        0 <= m <= s.len(),
        forall|j: int| 0 <= j < m ==> !p(s[j]),
        m < s.len() ==> p(s[m]),
    ensures
        m < s.len() ==> split_pred(s, p) == seq![s.take(m)] + split_pred(s.skip(m + 1), p),
        m == s.len() ==> split_pred(s, p) == seq![s],
{
    lemma_find_pred_is(s, p, m);
}

/// The lines of a string, separated by newlines.
pub open spec fn spec_lines(s: Seq<char>) -> Seq<Seq<char>> {
    split_pred(s, nl_pred())
}

/// Split a string at newlines.
pub fn split_lines(s: &str) -> (parts: Vec<String>)
    ensures
        parts@.len() == spec_lines(s@).len(),
        forall|k: int| 0 <= k < parts@.len() ==> parts@[k]@ == spec_lines(s@)[k],
{
    let n = s.unicode_len();
    let mut parts: Vec<String> = Vec::new();
    let ghost done: Seq<Seq<char>> = Seq::empty();
    let mut done = Ghost(done);
    let mut start: usize = 0;
    let mut i: usize = 0;
    proof {
        assert(s@.skip(0) =~= s@);
    }
    while i < n
        invariant
            n == s@.len(),
            start <= i <= n,
            forall|j: int| start <= j < i ==> !nl_pred()(s@[j]),
            spec_lines(s@) == done@ + split_pred(s@.skip(start as int), nl_pred()),
            done@.len() == parts@.len(),
            forall|k: int| 0 <= k < parts@.len() ==> parts@[k]@ == done@[k],
        decreases n - i,
    {
        if s.get_char(i) == '\n' {
            let token = String::from_str(s.substring_char(start, i));
            proof {
                let rest = s@.skip(start as int);
                assert forall|j: int| 0 <= j < i - start implies !nl_pred()(rest[j]) by {
                    assert(rest[j] == s@[start + j]);
                }
                assert(rest[i - start] == s@[i as int]);
                lemma_split_pred_step(rest, nl_pred(), i - start);
                assert(rest.take(i - start) =~= s@.subrange(start as int, i as int));
                assert(rest.skip(i - start + 1) =~= s@.skip(i + 1));
                assert(done@ + (seq![token@] + split_pred(s@.skip(i + 1), nl_pred()))
                    =~= done@.push(token@) + split_pred(s@.skip(i + 1), nl_pred()));
            }
            parts.push(token);
            proof {
                done@ = done@.push(s@.subrange(start as int, i as int));
            }
            start = i + 1;
        }
        i = i + 1;
    }
    let token = String::from_str(s.substring_char(start, n));
    proof {
        let rest = s@.skip(start as int);
        assert forall|j: int| 0 <= j < rest.len() implies !nl_pred()(rest[j]) by {
            assert(rest[j] == s@[start + j]);
        }
        lemma_split_pred_step(rest, nl_pred(), rest.len() as int);
        assert(rest =~= s@.subrange(start as int, n as int));
        assert(done@ + seq![token@] =~= done@.push(token@));
    }
    parts.push(token);
    proof {
        done@ = done@.push(s@.subrange(start as int, n as int));
    }
    parts
}

/// Split a string at spaces and tabs.
pub fn split_wsp(s: &str) -> (parts: Vec<String>)
    ensures
        parts@.len() == split_pred(s@, wsp_pred()).len(),
        forall|k: int| 0 <= k < parts@.len() ==> parts@[k]@ == split_pred(s@, wsp_pred())[k],
{
    let n = s.unicode_len();
    let mut parts: Vec<String> = Vec::new();
    let ghost done: Seq<Seq<char>> = Seq::empty();
    let mut done = Ghost(done);
    let mut start: usize = 0;
    let mut i: usize = 0;
    proof {
        assert(s@.skip(0) =~= s@);
    }
    while i < n
        invariant
            n == s@.len(),
            start <= i <= n,
            forall|j: int| start <= j < i ==> !wsp_pred()(s@[j]),
            split_pred(s@, wsp_pred()) == done@ + split_pred(s@.skip(start as int), wsp_pred()),
            done@.len() == parts@.len(),
            forall|k: int| 0 <= k < parts@.len() ==> parts@[k]@ == done@[k],
        decreases n - i,
    {
        let c = s.get_char(i);
        if c == ' ' || c == '\t' {
            let token = String::from_str(s.substring_char(start, i));
            proof {
                let rest = s@.skip(start as int);
                assert forall|j: int| 0 <= j < i - start implies !wsp_pred()(rest[j]) by {
                    assert(rest[j] == s@[start + j]);
                }
                assert(rest[i - start] == s@[i as int]);
                lemma_split_pred_step(rest, wsp_pred(), i - start);
                assert(rest.take(i - start) =~= s@.subrange(start as int, i as int));
                assert(rest.skip(i - start + 1) =~= s@.skip(i + 1));
                assert(done@ + (seq![token@] + split_pred(s@.skip(i + 1), wsp_pred()))
                    =~= done@.push(token@) + split_pred(s@.skip(i + 1), wsp_pred()));
            }
            parts.push(token);
            proof {
                done@ = done@.push(s@.subrange(start as int, i as int));
            }
            start = i + 1;
        }
        i = i + 1;
    }
    let token = String::from_str(s.substring_char(start, n));
    proof {
        let rest = s@.skip(start as int);
        assert forall|j: int| 0 <= j < rest.len() implies !wsp_pred()(rest[j]) by {
            assert(rest[j] == s@[start + j]);
        }
        lemma_split_pred_step(rest, wsp_pred(), rest.len() as int);
        assert(rest =~= s@.subrange(start as int, n as int));
        assert(done@ + seq![token@] =~= done@.push(token@));
    }
    parts.push(token);
    proof {
        done@ = done@.push(s@.subrange(start as int, n as int));
    }
    parts
}

/// The nonempty segments, in order.
pub open spec fn nonempty_segments(parts: Seq<Seq<char>>) -> Seq<Seq<char>>
    decreases parts.len(),
{
    if parts.len() == 0 {
        Seq::empty()
    } else {
        (if parts[0].len() > 0 {
            seq![parts[0]]
        } else {
            Seq::empty()
        }) + nonempty_segments(parts.skip(1))
    }
}

/// Appending one segment appends it to the nonempty segments when it is
/// nonempty.
pub proof fn lemma_nonempty_segments_snoc(parts: Seq<Seq<char>>, last: Seq<char>)
    ensures
        nonempty_segments(parts.push(last)) == nonempty_segments(parts) + (if last.len() > 0 {
            seq![last]
        } else {
            Seq::<Seq<char>>::empty()
        }),
    decreases parts.len(),
{
    if parts.len() == 0 {
        assert(parts.push(last)[0] == last);
        assert(parts.push(last).skip(1) =~= Seq::<Seq<char>>::empty());
        assert(nonempty_segments(Seq::<Seq<char>>::empty()) == Seq::<Seq<char>>::empty());
        assert(parts =~= Seq::<Seq<char>>::empty());
        let tail: Seq<Seq<char>> = if last.len() > 0 {
            seq![last]
        } else {
            Seq::empty()
        };
        assert(nonempty_segments(parts.push(last)) == tail + nonempty_segments(
            parts.push(last).skip(1),
        ));
        assert(tail + Seq::<Seq<char>>::empty() =~= Seq::<Seq<char>>::empty() + tail);
    } else {
        assert(parts.push(last)[0] == parts[0]);
        assert(parts.push(last).skip(1) =~= parts.skip(1).push(last));
        lemma_nonempty_segments_snoc(parts.skip(1), last);
        let head: Seq<Seq<char>> = if parts[0].len() > 0 {
            seq![parts[0]]
        } else {
            Seq::empty()
        };
        let tail: Seq<Seq<char>> = if last.len() > 0 {
            seq![last]
        } else {
            Seq::empty()
        };
        assert(nonempty_segments(parts.push(last)) == head + nonempty_segments(
            parts.skip(1).push(last),
        ));
        assert(nonempty_segments(parts.push(last)) == head + (nonempty_segments(parts.skip(1))
            + tail));
        assert(head + (nonempty_segments(parts.skip(1)) + tail) =~= (head + nonempty_segments(
            parts.skip(1),
        )) + tail);
        assert(nonempty_segments(parts) == head + nonempty_segments(parts.skip(1)));
    }
}

/// The whitespace-separated fields of a line.
pub open spec fn line_fields(line: Seq<char>) -> Seq<Seq<char>> {
    nonempty_segments(split_pred(line, wsp_pred()))
}

/// Split a line into its whitespace-separated fields.
pub fn fields_of(line: &str) -> (fields: Vec<String>)
    ensures
        fields@.len() == line_fields(line@).len(),
        forall|k: int| 0 <= k < fields@.len() ==> fields@[k]@ == line_fields(line@)[k],
{
    let raw = split_wsp(line);
    let ghost sp = split_pred(line@, wsp_pred());
    let mut fields: Vec<String> = Vec::new();
    let mut k: usize = 0;
    proof {
        assert(sp.take(0) =~= Seq::<Seq<char>>::empty());
    }
    while k < raw.len()
        invariant
            raw@.len() == sp.len(),
            forall|t: int| 0 <= t < raw@.len() ==> raw@[t]@ == sp[t],
            k <= raw.len(),
            fields@.len() == nonempty_segments(sp.take(k as int)).len(),
            forall|t: int|
                0 <= t < fields@.len() ==> fields@[t]@ == nonempty_segments(sp.take(k as int))[t],
        decreases raw.len() - k,
    {
        proof {
            lemma_nonempty_segments_snoc(sp.take(k as int), sp[k as int]);
            assert(sp.take(k as int + 1) =~= sp.take(k as int).push(sp[k as int]));
        }
        if !raw[k].as_str().is_empty() {
            fields.push(raw[k].clone());
        }
        k = k + 1;
    }
    proof {
        assert(sp.take(raw@.len() as int) =~= sp);
    }
    fields
}

/// Scan for the first slash.
pub fn find_slash(s: &str) -> (i: usize)
    ensures
        i as int == find_pred(s@, slash_pred()),
{
    let n = s.unicode_len();
    let mut i: usize = 0;
    while i < n
        invariant
            n == s@.len(),
            i <= n,
            forall|j: int| 0 <= j < i ==> !slash_pred()(s@[j]),
        decreases n - i,
    {
        if s.get_char(i) == '/' {
            proof {
                lemma_find_pred_is(s@, slash_pred(), i as int);
            }
            return i;
        }
        i = i + 1;
    }
    proof {
        lemma_find_pred_is(s@, slash_pred(), n as int);
    }
    n
}

/// Lexicographic order on character sequences: a string is at most another
/// when at the first differing position its character is smaller, or it is
/// a prefix of the other.
pub open spec fn str_le(a: Seq<char>, b: Seq<char>) -> bool
    decreases a.len(),
{
    if a.len() == 0 {
        true
    } else if b.len() == 0 {
        false
    } else if a[0] != b[0] {
        a[0] < b[0]
    } else {
        str_le(a.skip(1), b.skip(1))
    }
}

/// Lexicographic order is total.
pub proof fn lemma_str_le_total(a: Seq<char>, b: Seq<char>)
    ensures
        str_le(a, b) || str_le(b, a),
    decreases a.len(),
{
    if a.len() == 0 || b.len() == 0 {
    } else if a[0] != b[0] {
    } else {
        lemma_str_le_total(a.skip(1), b.skip(1));
    }
}

/// Compare two strings lexicographically by character.
pub fn str_le_exec(a: &str, b: &str) -> (r: bool)
    ensures
        r == str_le(a@, b@),
{
    let an = a.unicode_len();
    let bn = b.unicode_len();
    let n = if an < bn {
        an
    } else {
        bn
    };
    let mut i: usize = 0;
    proof {
        assert(a@.skip(0) =~= a@);
        assert(b@.skip(0) =~= b@);
    }
    while i < n
        invariant
            an == a@.len(),
            bn == b@.len(),
            n == (if an < bn {
                an
            } else {
                bn
            }),
            i <= n,
            str_le(a@, b@) == str_le(a@.skip(i as int), b@.skip(i as int)),
        decreases n - i,
    {
        let ca = a.get_char(i);
        let cb = b.get_char(i);
        proof {
            assert(a@.skip(i as int)[0] == a@[i as int]);
            assert(b@.skip(i as int)[0] == b@[i as int]);
        }
        if (ca as u32) != (cb as u32) {
            proof {
                assert(ca != cb);
            }
            return (ca as u32) < (cb as u32);
        }
        proof {
            assert(a@.skip(i as int).skip(1) =~= a@.skip(i as int + 1));
            assert(b@.skip(i as int).skip(1) =~= b@.skip(i as int + 1));
        }
        i = i + 1;
    }
    if an <= bn {
        proof {
            assert(a@.skip(i as int).len() == 0);
        }
        true
    } else {
        proof {
            assert(b@.skip(i as int).len() == 0);
            assert(a@.skip(i as int).len() > 0);
        }
        false
    }
}

/// Each entry is at most its neighbour: the sequence is sorted.
pub open spec fn sorted_strings(s: Seq<String>) -> bool {
    forall|i: int| 0 <= i < s.len() - 1 ==> str_le(#[trigger] s[i]@, s[i + 1]@)
}

/// Inserting an element anywhere adds exactly that element to the
/// sequence's multiset.
pub proof fn lemma_insert_to_multiset(s: Seq<String>, p: int, x: String)
    requires
        0 <= p <= s.len(),
    ensures
        s.insert(p, x).to_multiset() == s.to_multiset().insert(x),
{
    broadcast use vstd::seq_lib::group_to_multiset_ensures;

    let t = s.insert(p, x);
    assert(t[p] == x);
    assert(t.remove(p) =~= s);
    assert(s.to_multiset() == t.to_multiset().remove(x));
    assert(t.contains(x));
    assert(t.to_multiset().count(x) > 0);
    assert(t.to_multiset() =~= s.to_multiset().insert(x)) by {
        broadcast use vstd::multiset::group_multiset_axioms;

        assert forall|e: String|
            t.to_multiset().count(e) == s.to_multiset().insert(x).count(e) by {
            if e == x {
                assert(s.to_multiset().count(x) == t.to_multiset().count(x) - 1);
            } else {
                assert(s.to_multiset().count(e) == t.to_multiset().count(e));
            }
        }
    }
}

/// Where a new string belongs in a sorted vector.
fn insert_position(sorted: &Vec<String>, x: &String) -> (p: usize)
    requires
        sorted_strings(sorted@),
    ensures
        p <= sorted@.len(),
        forall|j: int| 0 <= j < p ==> str_le(#[trigger] sorted@[j]@, x@),
        p < sorted@.len() ==> !str_le(sorted@[p as int]@, x@),
{
    let mut p: usize = 0;
    while p < sorted.len()
        invariant
            p <= sorted@.len(),
            forall|j: int| 0 <= j < p ==> str_le(#[trigger] sorted@[j]@, x@),
        decreases sorted@.len() - p,
    {
        if !str_le_exec(sorted[p].as_str(), x.as_str()) {
            return p;
        }
        p = p + 1;
    }
    p
}

/// Sort strings lexicographically, keeping exactly the given entries.
pub fn sort_strings(names: Vec<String>) -> (r: Vec<String>)
    ensures
        sorted_strings(r@),
        r@.to_multiset() == names@.to_multiset(),
{
    broadcast use vstd::seq_lib::group_to_multiset_ensures;

    let ghost orig = names@;
    let mut input = names;
    let mut out: Vec<String> = Vec::new();
    proof {
        assert(out@.to_multiset().add(input@.to_multiset()) =~= orig.to_multiset());
    }
    while input.len() > 0
        invariant
            sorted_strings(out@),
            out@.to_multiset().add(input@.to_multiset()) == orig.to_multiset(),
        decreases input.len(),
    {
        let ghost before_in = input@;
        let ghost before_out = out@;
        let x = input.remove(0);
        let p = insert_position(&out, &x);
        proof {
            if p < out@.len() {
                lemma_str_le_total(out@[p as int]@, x@);
            }
        }
        out.insert(p, x);
        proof {
            assert forall|i: int|
                0 <= i < out@.len() - 1 implies str_le(#[trigger] out@[i]@, out@[i + 1]@) by {
                if i + 1 < p {
                    assert(out@[i] == before_out[i] && out@[i + 1] == before_out[i + 1]);
                } else if i + 1 == p {
                    assert(out@[i] == before_out[i] && out@[i + 1] == x);
                } else if i == p {
                    assert(out@[i] == x && out@[i + 1] == before_out[i]);
                } else {
                    assert(out@[i] == before_out[i - 1] && out@[i + 1] == before_out[i]);
                }
            }
            lemma_insert_to_multiset(before_out, p as int, x);
            assert(before_in[0] == x);
            assert(before_in.remove(0) =~= before_in.skip(1));
            assert(before_in =~= before_in.skip(1).insert(0, x));
            lemma_insert_to_multiset(before_in.skip(1), 0, x);
            assert(out@.to_multiset().add(input@.to_multiset()) =~= orig.to_multiset()) by {
                broadcast use vstd::multiset::group_multiset_axioms;

            }
        }
    }
    proof {
        assert(input@.to_multiset() =~= Multiset::<String>::empty());
        assert(out@.to_multiset().add(Multiset::<String>::empty()) =~= out@.to_multiset()) by {
            broadcast use vstd::multiset::group_multiset_axioms;

        }
    }
    out
}

/// The decimal rendering of a natural number, most significant digit
/// first, with no leading zeroes (a single `'0'` for zero).
pub open spec fn dec_digits(n: nat) -> Seq<char>
    decreases n,
{
    if n < 10 {
        seq![digit_char(n)]
    } else {
        dec_digits(n / 10) + seq![digit_char(n % 10)]
    }
}

/// The character for a single decimal digit.
pub open spec fn digit_char(d: nat) -> char {
    if d == 0 {
        '0'
    } else if d == 1 {
        '1'
    } else if d == 2 {
        '2'
    } else if d == 3 {
        '3'
    } else if d == 4 {
        '4'
    } else if d == 5 {
        '5'
    } else if d == 6 {
        '6'
    } else if d == 7 {
        '7'
    } else if d == 8 {
        '8'
    } else {
        '9'
    }
}

pub proof fn lemma_dec_digits_are_digits(n: nat)
    ensures
        all_digits(dec_digits(n)),
        dec_digits(n).len() >= 1,
    decreases n,
{
    if n < 10 {
    } else {
        lemma_dec_digits_are_digits(n / 10);
    }
}

/// Render a `u64` in decimal.
pub fn u64_to_dec(n: u64) -> (s: String)
    ensures
        s@ == dec_digits(n as nat),
    decreases n,
{
    if n < 10 {
        let s = match n {
            0 => "0",
            1 => "1",
            2 => "2",
            3 => "3",
            4 => "4",
            5 => "5",
            6 => "6",
            7 => "7",
            8 => "8",
            _ => "9",
        };
        proof {
            reveal_strlit("0");
            reveal_strlit("1");
            reveal_strlit("2");
            reveal_strlit("3");
            reveal_strlit("4");
            reveal_strlit("5");
            reveal_strlit("6");
            reveal_strlit("7");
            reveal_strlit("8");
            reveal_strlit("9");
            assert(s@ =~= dec_digits(n as nat));
        }
        String::from_str(s)
    } else {
        assert(n / 10 < n) by (nonlinear_arith)
            requires
                n >= 10,
        ;
        let mut s = u64_to_dec(n / 10);
        let d = match n % 10 {
            0 => "0",
            1 => "1",
            2 => "2",
            3 => "3",
            4 => "4",
            5 => "5",
            6 => "6",
            7 => "7",
            8 => "8",
            _ => "9",
        };
        proof {
            reveal_strlit("0");
            reveal_strlit("1");
            reveal_strlit("2");
            reveal_strlit("3");
            reveal_strlit("4");
            reveal_strlit("5");
            reveal_strlit("6");
            reveal_strlit("7");
            reveal_strlit("8");
            reveal_strlit("9");
            assert(d@ =~= seq![digit_char((n % 10) as nat)]);
            assert(dec_digits(n as nat) == dec_digits((n as nat) / 10) + seq![
                digit_char((n as nat) % 10),
            ]);
        }
        s.append(d);
        proof {
            assert(s@ =~= dec_digits(n as nat));
        }
        s
    }
}

} // verus!
