//! Splitting of the text commands that clients send (`/find?Xs`,
//! `/action?1:move:0,0`).
use vstd::prelude::*;
use vstd::string::StrSliceExecFns;

verus! {

/// Why a command is not of the form `<command>?<attributes>`.
#[derive(Debug, Clone, Copy, PartialEq, Eq, Structural)]
pub enum ParseQueryError {
    InvalidFormat,
    EmptyQuery,
    EmptyAttrs,
}

/// Why a list of attributes could not be split into the wanted number of parts.
#[derive(Debug, Clone, Copy, PartialEq, Eq, Structural)]
pub enum ParseAttrsErr {
    InvalidFormat,
    TooLittle,
}

/// Index of the first `c` in `s` at or after `from`; `s.len()` when there is none.
pub open spec fn find_from(s: Seq<char>, c: char, from: int) -> int
    decreases s.len() - from,
{
    if from < 0 || from >= s.len() {
        s.len() as int
    } else if s[from] == c {
        from
    } else {
        find_from(s, c, from + 1)
    }
}

/// Index of the first `c` in `s`; `s.len()` when there is none.
pub open spec fn first_index(s: Seq<char>, c: char) -> int {
    find_from(s, c, 0)
}

/// The pieces of `s` cut at `c`, at most `n` of them, the last one holding
/// the rest of the text (what `str::splitn` yields).
pub open spec fn split_n(s: Seq<char>, c: char, n: nat) -> Seq<Seq<char>>
    decreases n,
{
    if n == 0 {
        Seq::empty()
    } else if n == 1 || first_index(s, c) >= s.len() {
        seq![s]
    } else {
        let i = first_index(s, c);
        seq![s.subrange(0, i)] + split_n(s.subrange(i + 1, s.len() as int), c, (n - 1) as nat)
    }
}

/// What `parse_attrs` returns: the `need` pieces of `s` cut at `c`.
pub open spec fn attrs_of(s: Seq<char>, c: char, need: nat) -> Result<Seq<Seq<char>>, ParseAttrsErr> {
    if !s.contains(c) {
        Err(ParseAttrsErr::InvalidFormat)
    } else if split_n(s, c, need).len() < need {
        Err(ParseAttrsErr::TooLittle)
    } else {
        Ok(split_n(s, c, need))
    }
}

/// What `parse_query` returns: the text before and after the first `?`.
pub open spec fn query_of(s: Seq<char>) -> Result<(Seq<char>, Seq<char>), ParseQueryError> {
    let i = first_index(s, '?');
    if !s.contains('?') {
        Err(ParseQueryError::InvalidFormat)
    } else if i == 0 {
        Err(ParseQueryError::EmptyQuery)
    } else if i + 1 == s.len() {
        Err(ParseQueryError::EmptyAttrs)
    } else {
        Ok((s.subrange(0, i), s.subrange(i + 1, s.len() as int)))
    }
}

/// The texts that a list of string slices holds.
pub open spec fn texts(v: Seq<&str>) -> Seq<Seq<char>> {
    v.map_values(|p: &str| p@)
}

proof fn lemma_find_from(s: Seq<char>, c: char, from: int)
    requires
        0 <= from <= s.len(),
    ensures
        from <= find_from(s, c, from) <= s.len(),
        find_from(s, c, from) < s.len() ==> s[find_from(s, c, from)] == c,
        forall|j: int| from <= j < find_from(s, c, from) ==> s[j] != c,
    decreases s.len() - from,
{
    if from < s.len() && s[from] != c {
        lemma_find_from(s, c, from + 1);
    }
}

proof fn lemma_first_index(s: Seq<char>, c: char)
    ensures
        0 <= first_index(s, c) <= s.len(),
        first_index(s, c) < s.len() <==> s.contains(c),
        first_index(s, c) < s.len() ==> s[first_index(s, c)] == c,
        forall|j: int| 0 <= j < first_index(s, c) ==> s[j] != c,
{
    lemma_find_from(s, c, 0);
    if s.contains(c) {
        let k = choose|k: int| 0 <= k < s.len() && s[k] == c;
        assert(!(k < first_index(s, c)));
    }
    if first_index(s, c) < s.len() {
        assert(s[first_index(s, c)] == c);
    }
}

proof fn lemma_split_n_len(s: Seq<char>, c: char, n: nat)
    ensures
        split_n(s, c, n).len() <= n,
    decreases n,
{
    if n > 1 && first_index(s, c) < s.len() {
        lemma_first_index(s, c);
        lemma_split_n_len(s.subrange(first_index(s, c) + 1, s.len() as int), c, (n - 1) as nat);
    }
}

/// A successful split has exactly the number of pieces asked for.
pub proof fn lemma_attrs_len(s: Seq<char>, c: char, need: nat)
    ensures
        attrs_of(s, c, need) is Ok ==> attrs_of(s, c, need)->Ok_0.len() == need,
{
    lemma_split_n_len(s, c, need);
}

/// Position of the first `c` in `s`, or the length of `s` in characters.
fn position_of(s: &str, c: char) -> (r: usize)
    ensures
        r == first_index(s@, c),
        r <= s@.len(),
{
    let n = s.unicode_len();
    let mut i: usize = 0;
    while i < n
        invariant
            n == s@.len(),
            i <= n,
            find_from(s@, c, 0) == find_from(s@, c, i as int),
        decreases n - i,
    {
        if s.get_char(i) == c {
            return i;
        }
        i = i + 1;
    }
    i
}

/// Cuts `src` at `pattern` into exactly `need` pieces, the last one holding
/// the rest of the text.
pub fn parse_attrs<'a>(src: &'a str, pattern: char, need: usize) -> (r: Result<
    Vec<&'a str>,
    ParseAttrsErr,
>)
    ensures
        match r {
            Ok(parts) => attrs_of(src@, pattern, need as nat) == Ok::<Seq<Seq<char>>, ParseAttrsErr>(texts(parts@)),
            Err(e) => attrs_of(src@, pattern, need as nat) == Err::<Seq<Seq<char>>, ParseAttrsErr>(e),
        },
{
    let mut parts: Vec<&'a str> = Vec::new();
    let mut rest: &'a str = src;
    let mut left: usize = need;
    while left > 0
        invariant
            texts(parts@) + split_n(rest@, pattern, left as nat) == split_n(src@, pattern, need as nat),
            parts@.len() + left <= need,
        decreases left,
    {
        let i = position_of(rest, pattern);
        let n = rest.unicode_len();
        proof {
            lemma_first_index(rest@, pattern);
        }
        if left == 1 || i >= n {
            let ghost before = parts@;
            parts.push(rest);
            assert(texts(parts@) =~= texts(before) + seq![rest@]);
            left = 0;
            assert(split_n(rest@, pattern, 0) =~= Seq::<Seq<char>>::empty());
        } else {
            let ghost before = parts@;
            let ghost old_rest = rest@;
            let head = rest.substring_char(0, i);
            parts.push(head);
            rest = rest.substring_char(i + 1, n);
            assert(texts(parts@) =~= texts(before) + seq![head@]);
            assert(split_n(old_rest, pattern, left as nat) == seq![head@] + split_n(
                rest@,
                pattern,
                (left - 1) as nat,
            ));
            assert(texts(parts@) + split_n(rest@, pattern, (left - 1) as nat) =~= texts(before)
                + split_n(old_rest, pattern, left as nat));
            left = left - 1;
        }
    }
    assert(split_n(rest@, pattern, 0) =~= Seq::<Seq<char>>::empty());
    assert(texts(parts@) =~= split_n(src@, pattern, need as nat));
    proof {
        lemma_first_index(src@, pattern);
        lemma_split_n_len(src@, pattern, need as nat);
    }
    if position_of(src, pattern) >= src.unicode_len() {
        return Err(ParseAttrsErr::InvalidFormat);
    }
    if parts.len() < need {
        Err(ParseAttrsErr::TooLittle)
    } else {
        Ok(parts)
    }
}

/// Splits a command `<command>?<attributes>` at its first `?`.
pub fn parse_query<'a>(src: &'a str) -> (r: Result<(&'a str, &'a str), ParseQueryError>)
    ensures
        match r {
            Ok((cmd, attrs)) => query_of(src@) == Ok::<(Seq<char>, Seq<char>), ParseQueryError>(
                (cmd@, attrs@),
            ),
            Err(e) => query_of(src@) == Err::<(Seq<char>, Seq<char>), ParseQueryError>(e),
        },
{
    let i = position_of(src, '?');
    let n = src.unicode_len();
    proof {
        lemma_first_index(src@, '?');
    }
    if i >= n {
        Err(ParseQueryError::InvalidFormat)
    } else if i == 0 {
        Err(ParseQueryError::EmptyQuery)
    } else if i + 1 == n {
        Err(ParseQueryError::EmptyAttrs)
    } else {
        Ok((src.substring_char(0, i), src.substring_char(i + 1, n)))
    }
}

} // verus!
