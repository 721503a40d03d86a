use vstd::prelude::*;

verus! {

/// The character of a decimal digit.
pub open spec fn digit_char(d: nat) -> char
    recommends
        d < 10,
{
    seq!['0', '1', '2', '3', '4', '5', '6', '7', '8', '9'][d as int]
}

/// The decimal notation of `n`, without leading zeros.
pub open spec fn decimal(n: nat) -> Seq<char>
    decreases n,
{
    if n < 10 {
        seq![digit_char(n)]
    } else {
        decimal(n / 10).push(digit_char(n % 10))
    }
}

/// `rel` appended to the directory `base`, with one separator between them.
pub open spec fn path_join(base: Seq<char>, rel: Seq<char>) -> Seq<char> {
    if base.len() == 0 || base.last() == '/' {
        base + rel
    } else {
        base + seq!['/'] + rel
    }
}

/// `s` without the separators it starts with: an absolute path made
/// relative.
pub open spec fn strip_leading_slashes(s: Seq<char>) -> Seq<char>
    decreases s.len(),
{
    if s.len() > 0 && s[0] == '/' {
        strip_leading_slashes(s.drop_first())
    } else {
        s
    }
}

fn digit(d: u32) -> (r: &'static str)
    requires
        d < 10,
    ensures
        r@ == seq![digit_char(d as nat)],
{
    proof {
        reveal_strlit("0");
        reveal_strlit("1");
        reveal_strlit("2");
        reveal_strlit("3");
        reveal_strlit("4");
        reveal_strlit("5");
        reveal_strlit("6");
        reveal_strlit("7");
        reveal_strlit("8");
        reveal_strlit("9");
    }
    let r = if d == 0 {
        "0"
    } else if d == 1 {
        "1"
    } else if d == 2 {
        "2"
    } else if d == 3 {
        "3"
    } else if d == 4 {
        "4"
    } else if d == 5 {
        "5"
    } else if d == 6 {
        "6"
    } else if d == 7 {
        "7"
    } else if d == 8 {
        "8"
    } else {
        "9"
    };
    assert(r@ =~= seq![digit_char(d as nat)]);
    r
}

/// Writes `n` in decimal.
pub fn decimal_string(n: u32) -> (r: String)
    ensures
        r@ == decimal(n as nat),
    decreases n,
{
    if n < 10 {
        String::from_str(digit(n))
    } else {
        let mut s = decimal_string(n / 10);
        s.append(digit(n % 10));
        s
    }
}

/// Joins the relative path `rel` onto the directory `base`.
pub fn join_path(base: &str, rel: &str) -> (r: String)
    ensures
        r@ == path_join(base@, rel@),
{
    proof {
        reveal_strlit("/");
    }
    let n = base.unicode_len();
    let mut s = String::from_str(base);
    if n > 0 && base.get_char(n - 1) != '/' {
        s.append("/");
    }
    s.append(rel);
    s
}

/// The path `s` with its leading separators removed.
pub fn strip_root(s: &str) -> (r: &str)
    ensures
        r@ == strip_leading_slashes(s@),
{
    let n = s.unicode_len();
    let mut i: usize = 0;
    assert(s@.subrange(0, n as int) =~= s@);
    while i < n && s.get_char(i) == '/'
        invariant
            i <= n,
            n == s@.len(),
            strip_leading_slashes(s@) == strip_leading_slashes(s@.subrange(i as int, n as int)),
        decreases n - i,
    {
        assert(s@.subrange(i as int, n as int).drop_first() =~= s@.subrange(i + 1, n as int));
        i += 1;
    }
    s.substring_char(i, n)
}

/// Whether the character `c` occurs in `s`.
pub fn contains_char(s: &str, c: char) -> (r: bool)
    ensures
        r == s@.contains(c),
{
    let n = s.unicode_len();
    let mut i: usize = 0;
    while i < n
        invariant
            i <= n,
            n == s@.len(),
            forall|j: int| 0 <= j < i ==> s@[j] != c,
        decreases n - i,
    {
        if s.get_char(i) == c {
            return true;
        }
        i += 1;
    }
    false
}

} // verus!
