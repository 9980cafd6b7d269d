//! Verified character-level string utilities.
//!
//! Every executable function here carries an exact contract over the
//! `Seq<char>` views of its arguments; the recursive executable functions
//! mirror their spec functions step by step.

use vstd::prelude::*;
use vstd::string::StrSliceExecFns;
use vstd::string::StringExecFns;

verus! {

/// Appends `b` to `a`.
pub fn concat_str(a: &str, b: &str) -> (r: String)
    ensures
        r@ == a@ + b@,
{
    let mut s = a.to_owned();
    s.append(b);
    s
}

/// Character-wise string equality.
pub fn str_eq(a: &str, b: &str) -> (r: bool)
    ensures
        r == (a@ == b@),
{
    let n = a.unicode_len();
    if n != b.unicode_len() {
        return false;
    }
    let mut i: usize = 0;
    while i < n
        invariant
            n == a@.len(),
            n == b@.len(),
            i <= n,
            forall|j: int| 0 <= j < i ==> a@[j] == b@[j],
        decreases n - i,
    {
        if a.get_char(i) != b.get_char(i) {
            return false;
        }
        i += 1;
    }
    proof {
        assert(a@ =~= b@);
    }
    true
}

/// Whether `pre` is a prefix of `s`.
pub fn str_starts_with(s: &str, pre: &str) -> (r: bool)
    ensures
        r == pre@.is_prefix_of(s@),
{
    let n = s.unicode_len();
    let m = pre.unicode_len();
    if m > n {
        return false;
    }
    let mut i: usize = 0;
    while i < m
        invariant
            n == s@.len(),
            m == pre@.len(),
            m <= n,
            i <= m,
            forall|j: int| 0 <= j < i ==> pre@[j] == s@[j],
        decreases m - i,
    {
        if pre.get_char(i) != s.get_char(i) {
            return false;
        }
        i += 1;
    }
    proof {
        assert(pre@ =~= s@.subrange(0, m as int));
    }
    true
}

/// Whether `suf` is a suffix of `s`.
pub fn str_ends_with(s: &str, suf: &str) -> (r: bool)
    ensures
        r == suf@.is_suffix_of(s@),
{
    let n = s.unicode_len();
    let m = suf.unicode_len();
    if m > n {
        return false;
    }
    let mut i: usize = 0;
    while i < m
        invariant
            n == s@.len(),
            m == suf@.len(),
            m <= n,
            i <= m,
            forall|j: int| 0 <= j < i ==> suf@[j] == s@[n - m + j],
        decreases m - i,
    {
        if suf.get_char(i) != s.get_char(n - m + i) {
            return false;
        }
        i += 1;
    }
    proof {
        assert(suf@ =~= s@.subrange(n - m, n as int));
    }
    true
}

/// `String::replace` on character sequences: every non-overlapping occurrence
/// of `pat`, scanned left to right, is replaced by `rep`.
pub open spec fn replace_all_spec(s: Seq<char>, pat: Seq<char>, rep: Seq<char>) -> Seq<char>
    recommends
        pat.len() > 0,
    decreases s.len(),
    when pat.len() > 0
{
    if s.len() < pat.len() {
        s
    } else if pat.is_prefix_of(s) {
        rep + replace_all_spec(s.skip(pat.len() as int), pat, rep)
    } else {
        seq![s[0]] + replace_all_spec(s.skip(1), pat, rep)
    }
}

/// Replaces every occurrence of `pat` in `s` by `rep`.
pub fn replace_all(s: &str, pat: &str, rep: &str) -> (r: String)
    requires
        pat@.len() >= 1,
    ensures
        r@ == replace_all_spec(s@, pat@, rep@),
    decreases s@.len(),
{
    let n = s.unicode_len();
    let m = pat.unicode_len();
    if n < m {
        s.to_owned()
    } else if str_starts_with(s, pat) {
        let tail = s.substring_char(m, n);
        proof {
            assert(tail@ =~= s@.skip(pat@.len() as int));
        }
        let rest = replace_all(tail, pat, rep);
        let mut out = rep.to_owned();
        out.append(rest.as_str());
        out
    } else {
        let head = s.substring_char(0, 1);
        let tail = s.substring_char(1, n);
        proof {
            assert(head@ =~= seq![s@[0]]);
            assert(tail@ =~= s@.skip(1));
        }
        let rest = replace_all(tail, pat, rep);
        let mut out = head.to_owned();
        out.append(rest.as_str());
        out
    }
}

/// Index of the first occurrence of `c` in `s`.
pub open spec fn find_char_spec(s: Seq<char>, c: char) -> Option<int>
    decreases s.len(),
{
    if s.len() == 0 {
        None
    } else if s[0] == c {
        Some(0int)
    } else {
        match find_char_spec(s.skip(1), c) {
            None => None,
            Some(j) => Some(j + 1),
        }
    }
}

/// A found index is always inside the sequence.
pub proof fn lemma_find_char_in_range(s: Seq<char>, c: char)
    ensures
        match find_char_spec(s, c) {
            None => true,
            Some(i) => 0 <= i < s.len() && s[i] == c,
        },
    decreases s.len(),
{
    if s.len() > 0 && s[0] != c {
        lemma_find_char_in_range(s.skip(1), c);
    }
}

/// Finds the first occurrence of `c` in `s`.
pub fn find_char(s: &str, c: char) -> (r: Option<usize>)
    ensures
        match r {
            None => find_char_spec(s@, c) is None,
            Some(i) => find_char_spec(s@, c) == Some(i as int),
        },
    decreases s@.len(),
{
    let n = s.unicode_len();
    if n == 0 {
        None
    } else if s.get_char(0) == c {
        Some(0)
    } else {
        let tail = s.substring_char(1, n);
        proof {
            assert(tail@ =~= s@.skip(1));
            lemma_find_char_in_range(tail@, c);
        }
        match find_char(tail, c) {
            None => None,
            Some(j) => Some(j + 1),
        }
    }
}

/// Number of occurrences of `c` in `s`.
pub open spec fn count_char_spec(s: Seq<char>, c: char) -> nat
    decreases s.len(),
{
    if s.len() == 0 {
        0
    } else {
        count_char_spec(s.skip(1), c) + if s[0] == c {
            1nat
        } else {
            0nat
        }
    }
}

/// Counts the occurrences of `c` in `s`.
pub fn count_char(s: &str, c: char) -> (r: usize)
    ensures
        r == count_char_spec(s@, c),
    decreases s@.len(),
{
    let n = s.unicode_len();
    if n == 0 {
        0
    } else {
        let tail = s.substring_char(1, n);
        proof {
            assert(tail@ =~= s@.skip(1));
            assert(count_char_spec(tail@, c) <= tail@.len()) by {
                lemma_count_char_le_len(tail@, c);
            }
        }
        let rest = count_char(tail, c);
        if s.get_char(0) == c {
            rest + 1
        } else {
            rest
        }
    }
}

/// The number of occurrences of a character never exceeds the length.
pub proof fn lemma_count_char_le_len(s: Seq<char>, c: char)
    ensures
        count_char_spec(s, c) <= s.len(),
    decreases s.len(),
{
    if s.len() > 0 {
        lemma_count_char_le_len(s.skip(1), c);
    }
}

/// Index of the last occurrence of `c` in `s`.
pub open spec fn last_index_spec(s: Seq<char>, c: char) -> Option<int>
    decreases s.len(),
{
    if s.len() == 0 {
        None
    } else if s[s.len() - 1] == c {
        Some(s.len() - 1)
    } else {
        last_index_spec(s.drop_last(), c)
    }
}

/// A found last index is always inside the sequence.
pub proof fn lemma_last_index_in_range(s: Seq<char>, c: char)
    ensures
        match last_index_spec(s, c) {
            None => true,
            Some(i) => 0 <= i < s.len() && s[i] == c,
        },
    decreases s.len(),
{
    if s.len() > 0 && s[s.len() - 1] != c {
        lemma_last_index_in_range(s.drop_last(), c);
    }
}

/// Finds the last occurrence of `c` in `s`.
pub fn last_index_of(s: &str, c: char) -> (r: Option<usize>)
    ensures
        match r {
            None => last_index_spec(s@, c) is None,
            Some(i) => last_index_spec(s@, c) == Some(i as int),
        },
    decreases s@.len(),
{
    let n = s.unicode_len();
    if n == 0 {
        None
    } else if s.get_char(n - 1) == c {
        Some(n - 1)
    } else {
        let head = s.substring_char(0, n - 1);
        proof {
            assert(head@ =~= s@.drop_last());
        }
        last_index_of(head, c)
    }
}

/// The whitespace characters recognized when splitting annotation lines.
pub open spec fn is_space(c: char) -> bool {
    c == ' ' || c == '\t' || c == '\n' || c == '\r'
}

/// Tests `is_space`.
pub fn is_space_exec(c: char) -> (r: bool)
    ensures
        r == is_space(c),
{
    c == ' ' || c == '\t' || c == '\n' || c == '\r'
}

/// `s` without its leading whitespace.
pub open spec fn skip_spaces_spec(s: Seq<char>) -> Seq<char>
    decreases s.len(),
{
    if s.len() > 0 && is_space(s[0]) {
        skip_spaces_spec(s.skip(1))
    } else {
        s
    }
}

pub proof fn lemma_skip_spaces_len(s: Seq<char>)
    ensures
        skip_spaces_spec(s).len() <= s.len(),
        skip_spaces_spec(s).len() > 0 ==> !is_space(skip_spaces_spec(s)[0]),
    decreases s.len(),
{
    if s.len() > 0 && is_space(s[0]) {
        lemma_skip_spaces_len(s.skip(1));
    }
}

/// The maximal run of non-whitespace characters at the start of `s`.
pub open spec fn take_token_spec(s: Seq<char>) -> Seq<char>
    decreases s.len(),
{
    if s.len() > 0 && !is_space(s[0]) {
        seq![s[0]] + take_token_spec(s.skip(1))
    } else {
        Seq::<char>::empty()
    }
}

pub proof fn lemma_take_token_len(s: Seq<char>)
    ensures
        take_token_spec(s).len() <= s.len(),
        s.len() > 0 && !is_space(s[0]) ==> take_token_spec(s).len() >= 1,
    decreases s.len(),
{
    if s.len() > 0 && !is_space(s[0]) {
        lemma_take_token_len(s.skip(1));
    }
}

/// The whitespace-separated tokens of `s`, as `str::split_whitespace` yields
/// them.
pub open spec fn tokens_spec(s: Seq<char>) -> Seq<Seq<char>>
    decreases s.len(),
{
    let t = skip_spaces_spec(s);
    if t.len() == 0 {
        Seq::<Seq<char>>::empty()
    } else {
        proof {
            lemma_skip_spaces_len(s);
            lemma_take_token_len(t);
            assert(take_token_spec(t).len() >= 1);
        }
        seq![take_token_spec(t)] + tokens_spec(t.skip(take_token_spec(t).len() as int))
    }
}

/// `s` without its leading whitespace.
pub fn skip_spaces(s: &str) -> (r: String)
    ensures
        r@ == skip_spaces_spec(s@),
    decreases s@.len(),
{
    let n = s.unicode_len();
    if n > 0 && is_space_exec(s.get_char(0)) {
        let tail = s.substring_char(1, n);
        proof {
            assert(tail@ =~= s@.skip(1));
        }
        skip_spaces(tail)
    } else {
        s.to_owned()
    }
}

/// The maximal run of non-whitespace characters at the start of `s`.
pub fn take_token(s: &str) -> (r: String)
    ensures
        r@ == take_token_spec(s@),
    decreases s@.len(),
{
    let n = s.unicode_len();
    if n > 0 && !is_space_exec(s.get_char(0)) {
        let head = s.substring_char(0, 1);
        let tail = s.substring_char(1, n);
        proof {
            assert(head@ =~= seq![s@[0]]);
            assert(tail@ =~= s@.skip(1));
        }
        let rest = take_token(tail);
        let mut out = head.to_owned();
        out.append(rest.as_str());
        out
    } else {
        String::new()
    }
}

/// Splits `s` into its whitespace-separated tokens.
pub fn split_tokens(s: &str) -> (r: Vec<String>)
    ensures
        r.deep_view() == tokens_spec(s@),
    decreases s@.len(),
{
    let t = skip_spaces(s);
    proof {
        lemma_skip_spaces_len(s@);
    }
    let tn = t.as_str().unicode_len();
    if tn == 0 {
        let out: Vec<String> = Vec::new();
        proof {
            assert(out.deep_view() =~= tokens_spec(s@));
        }
        out
    } else {
        let tok = take_token(t.as_str());
        proof {
            lemma_take_token_len(t@);
        }
        let tokn = tok.as_str().unicode_len();
        let rest_str = t.as_str().substring_char(tokn, tn);
        proof {
            assert(rest_str@ =~= t@.skip(take_token_spec(t@).len() as int));
        }
        let mut out = split_tokens(rest_str);
        out.insert(0, tok);
        proof {
            assert(out.deep_view() =~= tokens_spec(s@));
        }
        out
    }
}

/// The tokens joined back with a single space between each pair.
pub open spec fn join_spaces_spec(ts: Seq<Seq<char>>) -> Seq<char>
    decreases ts.len(),
{
    if ts.len() == 0 {
        Seq::<char>::empty()
    } else if ts.len() == 1 {
        ts[0]
    } else {
        ts[0] + seq![' '] + join_spaces_spec(ts.skip(1))
    }
}

/// Joins `ts` with a single space between each pair.
pub fn join_spaces(ts: &Vec<String>) -> (r: String)
    ensures
        r@ == join_spaces_spec(ts.deep_view()),
{
    let n = ts.len();
    if n == 0 {
        return String::new();
    }
    let mut i: usize = n;
    let mut acc: String = String::new();
    // build from the back so the spec unfolds directly
    while i > 0
        invariant
            i <= n,
            n == ts.len(),
            acc@ == join_spaces_spec(ts.deep_view().skip(i as int)),
        decreases i,
    {
        i = i - 1;
        let ghost pre = acc@;
        if i == n - 1 {
            acc = ts[i].clone();
        } else {
            let mut next = ts[i].clone();
            next.append(" ");
            next.append(acc.as_str());
            acc = next;
        }
        proof {
            reveal_strlit(" ");
            assert(" "@ =~= seq![' ']);
            let ts_v = ts.deep_view();
            assert(ts_v.skip(i as int).len() == n - i);
            assert(ts_v.skip(i as int)[0] == ts_v[i as int]);
            if i < n - 1 {
                assert(ts_v.skip(i as int).skip(1) =~= ts_v.skip(i as int + 1));
                assert(acc@ =~= ts_v[i as int] + seq![' '] + join_spaces_spec(
                    ts_v.skip(i as int + 1),
                ));
            }
        }
    }
    proof {
        assert(ts.deep_view().skip(0) =~= ts.deep_view());
    }
    acc
}

/// `s` without its trailing whitespace.
pub open spec fn drop_trailing_spaces_spec(s: Seq<char>) -> Seq<char>
    decreases s.len(),
{
    if s.len() > 0 && is_space(s[s.len() - 1]) {
        drop_trailing_spaces_spec(s.drop_last())
    } else {
        s
    }
}

/// `str::trim` restricted to the whitespace set of `is_space`.
pub open spec fn trim_spec(s: Seq<char>) -> Seq<char> {
    drop_trailing_spaces_spec(skip_spaces_spec(s))
}

/// `s` without its trailing whitespace.
pub fn drop_trailing_spaces(s: &str) -> (r: String)
    ensures
        r@ == drop_trailing_spaces_spec(s@),
    decreases s@.len(),
{
    let n = s.unicode_len();
    if n > 0 && is_space_exec(s.get_char(n - 1)) {
        let head = s.substring_char(0, n - 1);
        proof {
            assert(head@ =~= s@.drop_last());
        }
        drop_trailing_spaces(head)
    } else {
        s.to_owned()
    }
}

/// `s` without leading or trailing whitespace.
pub fn trim(s: &str) -> (r: String)
    ensures
        r@ == trim_spec(s@),
{
    let lead = skip_spaces(s);
    drop_trailing_spaces(lead.as_str())
}

} // verus!
