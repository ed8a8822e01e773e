//! Plain character-sequence operations used by the engine and the rules.
use vstd::prelude::*;

verus! {

/// The buffer the rules see: CR LF and lone CR become LF, form feeds are
/// dropped, and each tab becomes four spaces.
pub open spec fn preprocessed(s: Seq<char>) -> Seq<char>
    decreases s.len(),
{
    if s.len() == 0 {
        Seq::empty()
    } else if s[0] == '\r' && s.len() >= 2 && s[1] == '\n' {
        seq!['\n'] + preprocessed(s.subrange(2, s.len() as int))
    } else if s[0] == '\r' {
        seq!['\n'] + preprocessed(s.drop_first())
    } else if s[0] == '\x0C' {
        preprocessed(s.drop_first())
    } else if s[0] == '\t' {
        seq![' ', ' ', ' ', ' '] + preprocessed(s.drop_first())
    } else {
        seq![s[0]] + preprocessed(s.drop_first())
    }
}

/// Normalises line endings, form feeds and tabs (see `preprocessed`).
pub fn preprocess(source: &str) -> (r: String)
    ensures
        r@ == preprocessed(source@),
{
    let chars = crate::pattern::chars_of(source);
    let n = chars.len();
    let mut out: Vec<char> = Vec::new();
    let mut i: usize = 0;
    assert(chars@.subrange(0, n as int) =~= chars@);
    assert(out@ + chars@ =~= chars@);
    while i < n
        invariant
            chars@ == source@,
            n == chars@.len(),
            i <= n,
            preprocessed(source@) == out@ + preprocessed(chars@.subrange(i as int, n as int)),
        decreases n - i,
    {
        let rest = Ghost(chars@.subrange(i as int, n as int));
        let c = chars[i];
        if c == '\r' && i + 1 < n && chars[i + 1] == '\n' {
            assert(rest@.subrange(2, rest@.len() as int) =~= chars@.subrange(i + 2, n as int));
            out.push('\n');
            i = i + 2;
        } else {
            assert(rest@.drop_first() =~= chars@.subrange(i + 1, n as int));
            if c == '\r' {
                out.push('\n');
            } else if c == '\x0C' {
            } else if c == '\t' {
                out.push(' ');
                out.push(' ');
                out.push(' ');
                out.push(' ');
            } else {
                out.push(c);
            }
            i = i + 1;
        }
        assert(preprocessed(source@) == out@ + preprocessed(chars@.subrange(i as int, n as int)));
    }
    assert(chars@.subrange(n as int, n as int) =~= Seq::<char>::empty());
    assert(out@ + Seq::<char>::empty() =~= out@);
    crate::pattern::string_of(&out)
}

/// `s` without the run of copies of `c` at its end.
pub open spec fn without_trailing(s: Seq<char>, c: char) -> Seq<char>
    decreases s.len(),
{
    if s.len() > 0 && s.last() == c {
        without_trailing(s.drop_last(), c)
    } else {
        s
    }
}

/// Drops every copy of `c` at the end of `s`.
pub fn trim_trailing(s: &str, c: char) -> (r: String)
    ensures
        r@ == without_trailing(s@, c),
{
    let chars = crate::pattern::chars_of(s);
    let mut k: usize = chars.len();
    assert(chars@.subrange(0, k as int) =~= chars@);
    while k > 0 && chars[k - 1] == c
        invariant
            k <= chars@.len(),
            chars@ == s@,
            without_trailing(s@, c) == without_trailing(chars@.subrange(0, k as int), c),
        decreases k,
    {
        assert(chars@.subrange(0, k as int).drop_last() =~= chars@.subrange(0, k - 1));
        k = k - 1;
    }
    let mut out: Vec<char> = Vec::new();
    let mut j: usize = 0;
    while j < k
        invariant
            j <= k,
            k <= chars@.len(),
            out@ =~= chars@.subrange(0, j as int),
        decreases k - j,
    {
        out.push(chars[j]);
        j = j + 1;
    }
    crate::pattern::string_of(&out)
}

/// The decimal digit for `d`, where `d < 10`.
pub open spec fn digit(d: nat) -> char {
    if d == 0 { '0' }
    else if d == 1 { '1' }
    else if d == 2 { '2' }
    else if d == 3 { '3' }
    else if d == 4 { '4' }
    else if d == 5 { '5' }
    else if d == 6 { '6' }
    else if d == 7 { '7' }
    else if d == 8 { '8' }
    else { '9' }
}

/// The decimal numeral of `n`, without leading zeros.
pub open spec fn decimal(n: nat) -> Seq<char>
    decreases n,
{
    if n < 10 {
        seq![digit(n)]
    } else {
        decimal(n / 10) + seq![digit(n % 10)]
    }
}

fn push_decimal(n: usize, out: &mut Vec<char>)
    ensures
        final(out)@ == old(out)@ + decimal(n as nat),
    decreases n,
{
    if n >= 10 {
        push_decimal(n / 10, out);
    }
    let d = n % 10;
    let c = if d == 0 { '0' }
        else if d == 1 { '1' }
        else if d == 2 { '2' }
        else if d == 3 { '3' }
        else if d == 4 { '4' }
        else if d == 5 { '5' }
        else if d == 6 { '6' }
        else if d == 7 { '7' }
        else if d == 8 { '8' }
        else { '9' };
    out.push(c);
}

/// The decimal numeral of `n`.
pub fn decimal_string(n: usize) -> (r: String)
    ensures
        r@ == decimal(n as nat),
{
    let mut out: Vec<char> = Vec::new();
    push_decimal(n, &mut out);
    crate::pattern::string_of(&out)
}

/// The last line of `s` (what follows its last line feed, or all of it) when
/// that line holds only spaces; `None` otherwise.
pub open spec fn trailing_blank_line(s: Seq<char>) -> Option<Seq<char>>
    decreases s.len(),
{
    if s.len() == 0 || s.last() == '\n' {
        Some(Seq::empty())
    } else if s.last() == ' ' {
        match trailing_blank_line(s.drop_last()) {
            Some(t) => Some(t.push(' ')),
            None => None,
        }
    } else {
        None
    }
}

/// Finds the trailing run of spaces that stands alone on the last line of `s`.
pub fn blank_line_suffix(s: &str) -> (r: Option<String>)
    ensures
        r.deep_view() == trailing_blank_line(s@),
{
    let chars = crate::pattern::chars_of(s);
    let mut k: usize = chars.len();
    while k > 0 && chars[k - 1] == ' '
        invariant
            k <= chars@.len(),
            chars@ == s@,
            forall|j: int| k <= j < chars@.len() ==> chars@[j] == ' ',
        decreases k,
    {
        k = k - 1;
    }
    proof { lemma_blank_suffix(chars@, k as int); }
    if k == 0 || chars[k - 1] == '\n' {
        let mut out: Vec<char> = Vec::new();
        let mut j: usize = k;
        while j < chars.len()
            invariant
                k <= j <= chars@.len(),
                out@ =~= chars@.subrange(k as int, j as int),
            decreases chars@.len() - j,
        {
            out.push(chars[j]);
            j = j + 1;
        }
        Some(crate::pattern::string_of(&out))
    } else {
        None
    }
}

proof fn lemma_blank_suffix(s: Seq<char>, k: int)
    requires
        0 <= k <= s.len(),
        forall|j: int| k <= j < s.len() ==> s[j] == ' ',
        k == 0 || s[k - 1] != ' ',
    ensures
        trailing_blank_line(s) == (if k == 0 || s[k - 1] == '\n' {
            Some(s.subrange(k, s.len() as int))
        } else {
            None::<Seq<char>>
        }),
    decreases s.len() - k,
{
    if s.len() > k {
        let t = s.drop_last();
        assert forall|j: int| k <= j < t.len() implies t[j] == ' ' by {}
        lemma_blank_suffix(t, k);
        if k == 0 || s[k - 1] == '\n' {
            assert(s.subrange(k, s.len() as int) =~= t.subrange(k, t.len() as int).push(' '));
        }
    } else {
        assert(s.subrange(k, s.len() as int) =~= Seq::<char>::empty());
    }
}

} // verus!

verus! {

/// The characters `from..to` of `v` as a string.
pub fn slice_string(v: &Vec<char>, from: usize, to: usize) -> (r: String)
    requires
        from <= to <= v@.len(),
    ensures
        r@ == v@.subrange(from as int, to as int),
{
    let mut out: Vec<char> = Vec::new();
    let mut j: usize = from;
    while j < to
        invariant
            from <= j <= to,
            to <= v@.len(),
            out@ =~= v@.subrange(from as int, j as int),
        decreases to - j,
    {
        out.push(v[j]);
        j = j + 1;
    }
    crate::pattern::string_of(&out)
}

} // verus!
