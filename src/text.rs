//! Character-level helpers on strings: substring search, line splitting in the
//! manner of `str::lines`, and decimal rendering.
use vstd::prelude::*;

verus! {

/// `needle` occurs in `hay` starting at index `i`.
pub open spec fn occurs_at(hay: Seq<char>, needle: Seq<char>, i: int) -> bool {
    0 <= i && i + needle.len() <= hay.len() && hay.subrange(i, i + needle.len()) == needle
}

/// `needle` occurs somewhere in `hay`.
pub open spec fn contains_seq(hay: Seq<char>, needle: Seq<char>) -> bool {
    exists|i: int| occurs_at(hay, needle, i)
}

/// Whether `needle` is a substring of `hay`.
pub fn contains(hay: &str, needle: &str) -> (r: bool)
    ensures
        r == contains_seq(hay@, needle@),
{
    let h = hay.unicode_len();
    let n = needle.unicode_len();
    if n > h {
        assert forall|i: int| !occurs_at(hay@, needle@, i) by {}
        return false;
    }
    let mut i: usize = 0;
    while i <= h - n
        invariant
            h == hay@.len(),
            n == needle@.len(),
            n <= h,
            forall|k: int| 0 <= k < i ==> !occurs_at(hay@, needle@, k),
        decreases h - n + 1 - i,
    {
        let mut j: usize = 0;
        let mut same = true;
        while j < n
            invariant
                h == hay@.len(),
                n == needle@.len(),
                i + n <= h,
                j <= n,
                same == (forall|m: int| 0 <= m < j ==> hay@[i + m] == needle@[m]),
            decreases n - j,
        {
            if hay.get_char(i + j) != needle.get_char(j) {
                same = false;
            }
            j = j + 1;
        }
        if same {
            assert(hay@.subrange(i as int, i + n) =~= needle@);
            assert(occurs_at(hay@, needle@, i as int));
            return true;
        }
        assert(!occurs_at(hay@, needle@, i as int)) by {
            if hay@.subrange(i as int, i + n) == needle@ {
                assert forall|m: int| 0 <= m < n implies hay@[i + m] == needle@[m] by {
                    assert(hay@.subrange(i as int, i + n)[m] == hay@[i + m]);
                }
            }
        }
        i = i + 1;
    }
    false
}

/// Index of the first newline at or after `i`, or the length of `s`.
pub open spec fn line_end(s: Seq<char>, i: int) -> int
    decreases s.len() - i,
{
    if i >= s.len() || i < 0 {
        s.len() as int
    } else if s[i] == '\n' {
        i
    } else {
        line_end(s, i + 1)
    }
}

/// A line of `s` begins at `k`: the first character, or one after a newline.
pub open spec fn is_line_start(s: Seq<char>, k: int) -> bool {
    0 <= k < s.len() && (k == 0 || s[k - 1] == '\n')
}

/// The text of the line that begins at `k`: without its newline, and without
/// the carriage return that precedes that newline.
pub open spec fn line_text(s: Seq<char>, k: int) -> Seq<char> {
    let e = line_end(s, k);
    if e < s.len() && e > k && s[e - 1] == '\r' {
        s.subrange(k, e - 1)
    } else {
        s.subrange(k, e)
    }
}

/// The line that begins at `k` holds `needle`.
pub open spec fn line_holds(s: Seq<char>, needle: Seq<char>, k: int) -> bool {
    is_line_start(s, k) && contains_seq(line_text(s, k), needle)
}

/// `k` is the start of the first line of `s` that holds `needle`.
pub open spec fn first_line_holding(s: Seq<char>, needle: Seq<char>, k: int) -> bool {
    line_holds(s, needle, k) && forall|j: int| 0 <= j < k ==> !line_holds(s, needle, j)
}

proof fn lemma_line_end(s: Seq<char>, i: int, e: int)
    requires
        0 <= i <= e <= s.len(),
        forall|j: int| i <= j < e ==> s[j] != '\n',
        e == s.len() || s[e] == '\n',
    ensures
        line_end(s, i) == e,
    decreases e - i,
{
    if i < e {
        lemma_line_end(s, i + 1, e);
    }
}

/// The first line of `s` that holds `needle`, lines being split as
/// `str::lines` splits them.
pub fn first_line_with(s: &str, needle: &str) -> (r: Option<String>)
    ensures
        match r {
            Some(line) => exists|k: int|
                first_line_holding(s@, needle@, k) && line@ == line_text(s@, k),
            None => forall|k: int| !line_holds(s@, needle@, k),
        },
{
    let n = s.unicode_len();
    let mut start: usize = 0;
    while start < n
        invariant
            n == s@.len(),
            start <= n,
            start < n ==> (start == 0 || s@[start - 1] == '\n'),
            forall|k: int| 0 <= k < start ==> !line_holds(s@, needle@, k),
        decreases n - start,
    {
        let mut e: usize = start;
        while e < n && s.get_char(e) != '\n'
            invariant
                n == s@.len(),
                start <= e <= n,
                forall|j: int| start <= j < e ==> s@[j] != '\n',
            decreases n - e,
        {
            e = e + 1;
        }
        proof {
            lemma_line_end(s@, start as int, e as int);
        }
        let b: usize = if e < n && e > start && s.get_char(e - 1) == '\r' {
            e - 1
        } else {
            e
        };
        let line = s.substring_char(start, b);
        assert(line@ == line_text(s@, start as int));
        if contains(line, needle) {
            let owned = line.to_string();
            assert(first_line_holding(s@, needle@, start as int));
            return Some(owned);
        }
        assert forall|k: int| 0 <= k < e + 1 && k <= n implies !line_holds(s@, needle@, k) by {
            if start < k <= e {
                assert(s@[k - 1] != '\n');
            }
        }
        start = if e < n {
            e + 1
        } else {
            n
        };
    }
    None
}

/// The character of a decimal digit.
pub open spec fn digit_char(d: nat) -> char {
    if d == 0 { '0' } else if d == 1 { '1' } else if d == 2 { '2' } else if d == 3 { '3' }
    else if d == 4 { '4' } else if d == 5 { '5' } else if d == 6 { '6' } else if d == 7 { '7' }
    else if d == 8 { '8' } else { '9' }
}

/// The decimal rendering of `n`, without leading zeros.
pub open spec fn decimal_of(n: nat) -> Seq<char>
    decreases n,
{
    if n < 10 {
        seq![digit_char(n)]
    } else {
        decimal_of(n / 10) + seq![digit_char(n % 10)]
    }
}

fn digit(d: u32) -> (r: &'static str)
    requires
        d < 10,
    ensures
        r@ == seq![digit_char(d as nat)],
{
    proof {
        reveal_strlit("0");
        reveal_strlit("1");
        reveal_strlit("2");
        reveal_strlit("3");
        reveal_strlit("4");
        reveal_strlit("5");
        reveal_strlit("6");
        reveal_strlit("7");
        reveal_strlit("8");
        reveal_strlit("9");
    }
    let r = if d == 0 { "0" } else if d == 1 { "1" } else if d == 2 { "2" } else if d == 3 { "3" }
    else if d == 4 { "4" } else if d == 5 { "5" } else if d == 6 { "6" } else if d == 7 { "7" }
    else if d == 8 { "8" } else { "9" };
    assert(r@ =~= seq![digit_char(d as nat)]);
    r
}

/// The decimal rendering of `n`.
pub fn decimal(n: u32) -> (r: String)
    ensures
        r@ == decimal_of(n as nat),
    decreases n,
{
    if n < 10 {
        String::from_str(digit(n))
    } else {
        let mut s = decimal(n / 10);
        s.append(digit(n % 10));
        s
    }
}

} // verus!
