//! Small verified helpers over strings: locating a character, rendering a
//! decimal number, and comparing against the character set of bare
//! identifiers.

use vstd::prelude::*;

verus! {

/// Index of the first occurrence of `c` in `s` at or after `from`;
/// `s.len()` when there is none.
pub open spec fn find_char_from(s: Seq<char>, c: char, from: int) -> int
    decreases s.len() - from,
{
    if from < 0 || from >= s.len() {
        s.len() as int
    } else if s[from] == c {
        from
    } else {
        find_char_from(s, c, from + 1)
    }
}

pub proof fn lemma_find_char_from_bounds(s: Seq<char>, c: char, from: int)
    requires
        0 <= from <= s.len(),
    ensures
        from <= find_char_from(s, c, from) <= s.len(),
        find_char_from(s, c, from) < s.len() ==> s[find_char_from(s, c, from)] == c,
        forall|j: int| from <= j < find_char_from(s, c, from) ==> s[j] != c,
    decreases s.len() - from,
{
    if from < s.len() && s[from] != c {
        lemma_find_char_from_bounds(s, c, from + 1);
    }
}

/// `find_char_from` is pinned down by its characteristic properties: it
/// returns `pos` exactly when no earlier position holds `c` and `pos`
/// either holds `c` or is the end.
pub proof fn lemma_find_char_from_is(s: Seq<char>, c: char, from: int, pos: int)
    requires
        0 <= from <= pos <= s.len(),
        forall|j: int| from <= j < pos ==> s[j] != c,
        pos < s.len() ==> s[pos] == c,
    ensures
        find_char_from(s, c, from) == pos,
    decreases pos - from,
{
    if from < pos {
        lemma_find_char_from_is(s, c, from + 1, pos);
    }
}

/// First occurrence of `c` in `s` at or after `from`, as a character index.
pub fn find_char(s: &str, c: char, from: usize) -> (i: usize)
    requires
        from <= s@.len(),
    ensures
        i == find_char_from(s@, c, from as int),
{
    let n = s.unicode_len();
    let mut i = from;
    while i < n
        invariant
            from <= i <= n,
            n == s@.len(),
            find_char_from(s@, c, from as int) == find_char_from(s@, c, i as int),
        decreases n - i,
    {
        if s.get_char(i) == c {
            return i;
        }
        i = i + 1;
    }
    i
}

/// Character-by-character string equality.
pub fn str_eq(a: &str, b: &str) -> (r: bool)
    ensures
        r == (a@ == b@),
{
    let na = a.unicode_len();
    let nb = b.unicode_len();
    if na != nb {
        return false;
    }
    let mut i: usize = 0;
    while i < na
        invariant
            i <= na,
            na == a@.len(),
            na == b@.len(),
            forall|j: int| 0 <= j < i ==> a@[j] == b@[j],
        decreases na - i,
    {
        if a.get_char(i) != b.get_char(i) {
            return false;
        }
        i = i + 1;
    }
    proof {
        assert(a@ =~= b@);
    }
    true
}

/// The views of a sequence of strings.
pub open spec fn strs_view(v: Seq<String>) -> Seq<Seq<char>> {
    v.map_values(|s: String| s@)
}

pub proof fn lemma_strs_view_push(v: Seq<String>, s: String)
    ensures
        strs_view(v.push(s)) =~= strs_view(v).push(s@),
{
    assert forall|i: int| 0 <= i < v.len() + 1 implies strs_view(v.push(s))[i] == strs_view(
        v,
    ).push(s@)[i] by {
        if i < v.len() {
            assert(v.push(s)[i] == v[i]);
        } else {
            assert(v.push(s)[i] == s);
        }
    }
}

/// `s` split at every occurrence of `c`; empty pieces are kept, and the
/// result always holds one piece more than `s` holds separators.
pub open spec fn split_char_spec(s: Seq<char>, c: char) -> Seq<Seq<char>>
    decreases s.len(),
{
    if s.len() == 0 {
        seq![Seq::<char>::empty()]
    } else if s[s.len() - 1] == c {
        split_char_spec(s.drop_last(), c).push(Seq::<char>::empty())
    } else {
        let r = split_char_spec(s.drop_last(), c);
        r.update(r.len() - 1, r.last().push(s[s.len() - 1]))
    }
}

pub proof fn lemma_split_char_nonempty(s: Seq<char>, c: char)
    ensures
        split_char_spec(s, c).len() >= 1,
    decreases s.len(),
{
    if s.len() > 0 {
        lemma_split_char_nonempty(s.drop_last(), c);
    }
}

/// Splits `s` at every occurrence of `c`.
pub fn split_char(s: &str, c: char) -> (r: Vec<String>)
    ensures
        strs_view(r@) == split_char_spec(s@, c),
{
    let n = s.unicode_len();
    let mut r: Vec<String> = Vec::new();
    let mut start: usize = 0;
    let mut i: usize = 0;
    proof {
        assert(s@.subrange(0, 0) =~= Seq::<char>::empty());
        assert(strs_view(r@) + seq![s@.subrange(0, 0)] =~= split_char_spec(s@.subrange(0, 0), c));
    }
    while i < n
        invariant
            start <= i <= n,
            n == s@.len(),
            strs_view(r@) + seq![s@.subrange(start as int, i as int)] == split_char_spec(
                s@.subrange(0, i as int),
                c,
            ),
        decreases n - i,
    {
        proof {
            assert(s@.subrange(0, i as int + 1).drop_last() =~= s@.subrange(0, i as int));
            lemma_split_char_nonempty(s@.subrange(0, i as int), c);
        }
        if s.get_char(i) == c {
            r.push(String::from_str(s.substring_char(start, i)));
            start = i + 1;
            proof {
                assert(s@.subrange(start as int, i as int + 1) =~= Seq::<char>::empty());
                assert(strs_view(r@) + seq![s@.subrange(start as int, i as int + 1)]
                    =~= split_char_spec(s@.subrange(0, i as int + 1), c));
            }
        } else {
            proof {
                let prev = split_char_spec(s@.subrange(0, i as int), c);
                assert(prev.last() == s@.subrange(start as int, i as int));
                assert(s@.subrange(start as int, i as int).push(s@[i as int]) =~= s@.subrange(
                    start as int,
                    i as int + 1,
                ));
                assert(strs_view(r@) + seq![s@.subrange(start as int, i as int + 1)]
                    =~= split_char_spec(s@.subrange(0, i as int + 1), c));
            }
        }
        i = i + 1;
    }
    r.push(String::from_str(s.substring_char(start, n)));
    proof {
        assert(s@.subrange(0, n as int) =~= s@);
        assert(strs_view(r@) =~= split_char_spec(s@, c));
    }
    r
}

/// The decimal digit character for `d`.
pub open spec fn digit_char(d: int) -> char {
    if d == 0 {
        '0'
    } else if d == 1 {
        '1'
    } else if d == 2 {
        '2'
    } else if d == 3 {
        '3'
    } else if d == 4 {
        '4'
    } else if d == 5 {
        '5'
    } else if d == 6 {
        '6'
    } else if d == 7 {
        '7'
    } else if d == 8 {
        '8'
    } else {
        '9'
    }
}

/// The decimal rendering of `n`, most significant digit first.
pub open spec fn dec_seq(n: nat) -> Seq<char>
    decreases n,
{
    if n < 10 {
        seq![digit_char(n as int)]
    } else {
        dec_seq(n / 10) + seq![digit_char((n % 10) as int)]
    }
}

fn digit_str(d: u64) -> (r: &'static str)
    requires
        d < 10,
    ensures
        r@ == seq![digit_char(d as int)],
{
    proof {
        reveal_strlit("0");
        reveal_strlit("1");
        reveal_strlit("2");
        reveal_strlit("3");
        reveal_strlit("4");
        reveal_strlit("5");
        reveal_strlit("6");
        reveal_strlit("7");
        reveal_strlit("8");
        reveal_strlit("9");
    }
    let r = if d == 0 {
        "0"
    } else if d == 1 {
        "1"
    } else if d == 2 {
        "2"
    } else if d == 3 {
        "3"
    } else if d == 4 {
        "4"
    } else if d == 5 {
        "5"
    } else if d == 6 {
        "6"
    } else if d == 7 {
        "7"
    } else if d == 8 {
        "8"
    } else {
        "9"
    };
    proof {
        assert(r@ =~= seq![digit_char(d as int)]);
    }
    r
}

/// Renders `n` in decimal.
pub fn u64_to_dec(n: u64) -> (r: String)
    ensures
        r@ == dec_seq(n as nat),
    decreases n,
{
    if n < 10 {
        String::from_str(digit_str(n))
    } else {
        let prefix = u64_to_dec(n / 10);
        let r = prefix.concat(digit_str(n % 10));
        proof {
            assert(r@ =~= dec_seq(n as nat));
        }
        r
    }
}

} // verus!
