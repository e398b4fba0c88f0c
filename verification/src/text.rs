use vstd::prelude::*;

verus! {

/// The whitespace characters stripped from command output.
pub open spec fn is_ws(c: char) -> bool {
    c == ' ' || c == '\n' || c == '\t' || c == '\r'
}

/// Number of leading whitespace characters of `s`.
pub open spec fn lead_ws(s: Seq<char>) -> int
    decreases s.len(),
{
    if s.len() == 0 {
        0
    } else if is_ws(s[0]) {
        1 + lead_ws(s.subrange(1, s.len() as int))
    } else {
        0
    }
}

/// Number of trailing whitespace characters of `s`.
pub open spec fn trail_ws(s: Seq<char>) -> int
    decreases s.len(),
{
    if s.len() == 0 {
        0
    } else if is_ws(s[s.len() - 1]) {
        1 + trail_ws(s.subrange(0, s.len() - 1))
    } else {
        0
    }
}

/// `s` with leading and trailing whitespace removed.
pub open spec fn trim_spec(s: Seq<char>) -> Seq<char> {
    if lead_ws(s) == s.len() {
        Seq::empty()
    } else {
        s.subrange(lead_ws(s), s.len() - trail_ws(s))
    }
}

/// `lead_ws` is the unique cut between a whitespace prefix and a
/// non-whitespace character (or the end).
proof fn lemma_lead_ws_is(s: Seq<char>, i: int)
    requires
        0 <= i <= s.len(),
        forall|k: int| 0 <= k < i ==> is_ws(s[k]),
        i < s.len() ==> !is_ws(s[i]),
    ensures
        lead_ws(s) == i,
    decreases i,
{
    if i == 0 {
    } else {
        let t = s.subrange(1, s.len() as int);
        assert(forall|k: int| 0 <= k < i - 1 ==> is_ws(t[k]));
        lemma_lead_ws_is(t, i - 1);
    }
}

/// `trail_ws` is the unique cut between a non-whitespace character (or the
/// start) and a whitespace suffix.
proof fn lemma_trail_ws_is(s: Seq<char>, i: int)
    requires
        0 <= i <= s.len(),
        forall|k: int| s.len() - i <= k < s.len() ==> is_ws(s[k]),
        i < s.len() ==> !is_ws(s[s.len() - 1 - i]),
    ensures
        trail_ws(s) == i,
    decreases i,
{
    if i == 0 {
    } else {
        let t = s.subrange(0, s.len() - 1);
        assert(forall|k: int| t.len() - (i - 1) <= k < t.len() ==> is_ws(t[k]));
        lemma_trail_ws_is(t, i - 1);
    }
}

/// Tests a character for the whitespace set of [`trim_spec`].
fn is_ws_char(c: char) -> (r: bool)
    ensures
        r == is_ws(c),
{
    c == ' ' || c == '\n' || c == '\t' || c == '\r'
}

/// `s` with leading and trailing whitespace removed.
pub fn trim(s: &str) -> (r: String)
    ensures
        r@ == trim_spec(s@),
{
    let len = s.unicode_len();
    let mut i: usize = 0;
    while i < len && is_ws_char(s.get_char(i))
        invariant
            0 <= i <= len,
            len == s@.len(),
            forall|k: int| 0 <= k < i ==> is_ws(s@[k]),
        decreases len - i,
    {
        i = i + 1;
    }
    proof {
        lemma_lead_ws_is(s@, i as int);
    }
    if i == len {
        return String::new();
    }
    let mut j: usize = len;
    while j > i && is_ws_char(s.get_char(j - 1))
        invariant
            i <= j <= len,
            len == s@.len(),
            i < len && !is_ws(s@[i as int]),
            forall|k: int| j <= k < len ==> is_ws(s@[k]),
        decreases j,
    {
        j = j - 1;
    }
    // the loop cannot have passed the non-whitespace character at i
    assert(!is_ws(s@[j - 1]) || j - 1 == i);
    assert(j > i);
    proof {
        lemma_trail_ws_is(s@, len - j);
    }
    String::from_str(s.substring_char(i, j))
}

/// Index of the first newline of `s`, or `s.len()` when there is none.
pub open spec fn first_nl(s: Seq<char>) -> int
    decreases s.len(),
{
    if s.len() == 0 {
        0
    } else if s[0] == '\n' {
        0
    } else {
        1 + first_nl(s.subrange(1, s.len() as int))
    }
}

/// `first_nl` is the unique index of a first newline.
proof fn lemma_first_nl_is(s: Seq<char>, i: int)
    requires
        0 <= i <= s.len(),
        forall|k: int| 0 <= k < i ==> s[k] != '\n',
        i < s.len() ==> s[i] == '\n',
    ensures
        first_nl(s) == i,
    decreases i,
{
    if i == 0 {
    } else {
        let t = s.subrange(1, s.len() as int);
        assert(forall|k: int| 0 <= k < i - 1 ==> t[k] != '\n');
        lemma_first_nl_is(t, i - 1);
    }
}

/// The part of `s` before its first newline.
pub open spec fn line0(s: Seq<char>) -> Seq<char> {
    s.subrange(0, first_nl(s))
}

/// The part of `s` between its first and second newline; empty when `s`
/// has no first newline.
pub open spec fn line1(s: Seq<char>) -> Seq<char> {
    if first_nl(s) == s.len() {
        Seq::empty()
    } else {
        line0(s.subrange(first_nl(s) + 1, s.len() as int))
    }
}

/// Index of the first newline of `s`, or its length.
fn find_nl(s: &str) -> (i: usize)
    ensures
        i as int == first_nl(s@),
        i <= s@.len(),
{
    let len = s.unicode_len();
    let mut i: usize = 0;
    while i < len && s.get_char(i) != '\n'
        invariant
            0 <= i <= len,
            len == s@.len(),
            forall|k: int| 0 <= k < i ==> s@[k] != '\n',
        decreases len - i,
    {
        i = i + 1;
    }
    proof {
        lemma_first_nl_is(s@, i as int);
    }
    i
}

/// The first two lines of `s`: what stands before the first newline, and
/// what stands between the first and the second.  A missing line is empty.
pub fn first_two_lines(s: &str) -> (r: (String, String))
    ensures
        r.0@ == line0(s@),
        r.1@ == line1(s@),
{
    let len = s.unicode_len();
    let i = find_nl(s);
    let first = String::from_str(s.substring_char(0, i));
    if i == len {
        (first, String::new())
    } else {
        let rest = s.substring_char(i + 1, len);
        let j = find_nl(rest);
        let second = String::from_str(rest.substring_char(0, j));
        (first, second)
    }
}

/// `a` and `b` joined by a single path separator.
pub open spec fn path_join_spec(a: Seq<char>, b: Seq<char>) -> Seq<char> {
    a + "/"@ + b
}

/// Joins a directory and an entry name with a path separator.
pub fn path_join(a: &str, b: &str) -> (r: String)
    ensures
        r@ == path_join_spec(a@, b@),
{
    let mut r = String::from_str(a);
    r.append("/");
    r.append(b);
    r
}

/// `s` with every newline followed by a four-space indent.
pub open spec fn indented(s: Seq<char>) -> Seq<char>
    decreases s.len(),
{
    if s.len() == 0 {
        Seq::empty()
    } else if s[0] == '\n' {
        "\n    "@ + indented(s.subrange(1, s.len() as int))
    } else {
        seq![s[0]] + indented(s.subrange(1, s.len() as int))
    }
}

/// `indented` distributes over concatenation.
proof fn lemma_indented_concat(a: Seq<char>, b: Seq<char>)
    ensures
        indented(a + b) == indented(a) + indented(b),
    decreases a.len(),
{
    if a.len() == 0 {
        assert(a + b =~= b);
        assert(indented(a) + indented(b) =~= indented(b));
    } else {
        let t = a.subrange(1, a.len() as int);
        lemma_indented_concat(t, b);
        assert((a + b).subrange(1, (a + b).len() as int) =~= t + b);
        if a[0] == '\n' {
            assert(indented(a + b) =~= indented(a) + indented(b));
        } else {
            assert(indented(a + b) =~= indented(a) + indented(b));
        }
    }
}

/// A string without newlines is unchanged by `indented`.
proof fn lemma_indented_id(s: Seq<char>)
    requires
        forall|k: int| 0 <= k < s.len() ==> s[k] != '\n',
    ensures
        indented(s) == s,
    decreases s.len(),
{
    if s.len() == 0 {
        assert(indented(s) =~= s);
    } else {
        let t = s.subrange(1, s.len() as int);
        lemma_indented_id(t);
        assert(indented(s) =~= s);
    }
}

/// `s` with every newline followed by a four-space indent.
pub fn indent_newlines(s: &str) -> (r: String)
    ensures
        r@ == indented(s@),
{
    let len = s.unicode_len();
    let mut acc = String::new();
    let mut j: usize = 0;
    let mut i: usize = 0;
    while i < len
        invariant
            0 <= j <= i <= len,
            len == s@.len(),
            acc@ == indented(s@.subrange(0, j as int)),
            forall|k: int| j <= k < i ==> s@[k] != '\n',
        decreases len - i,
    {
        if s.get_char(i) == '\n' {
            let chunk = s.substring_char(j, i);
            acc.append(chunk);
            acc.append("\n    ");
            proof {
                let pre = s@.subrange(0, j as int);
                let mid = s@.subrange(j as int, i as int);
                let nl = s@.subrange(i as int, i + 1 as int);
                lemma_indented_id(mid);
                lemma_indented_concat(pre, mid);
                assert(pre + mid =~= s@.subrange(0, i as int));
                lemma_indented_concat(s@.subrange(0, i as int), nl);
                assert(s@.subrange(0, i as int) + nl =~= s@.subrange(0, i + 1 as int));
                assert(nl =~= seq![s@[i as int]]);
                assert(indented(nl) =~= "\n    "@ + indented(nl.subrange(1, nl.len() as int)));
                assert(indented(nl) =~= "\n    "@);
                assert(acc@ =~= indented(s@.subrange(0, i + 1 as int)));
            }
            j = i + 1;
        }
        i = i + 1;
    }
    let chunk = s.substring_char(j, len);
    acc.append(chunk);
    proof {
        let pre = s@.subrange(0, j as int);
        let mid = s@.subrange(j as int, len as int);
        lemma_indented_id(mid);
        lemma_indented_concat(pre, mid);
        assert(pre + mid =~= s@);
        assert(acc@ =~= indented(s@));
    }
    acc
}

} // verus!
