//! Character-level helpers: white space, trimming, prefixes and decimal
//! numerals, each with its meaning over `Seq<char>`.

use vstd::prelude::*;
use vstd::string::*;

verus! {

/// The characters that carry the Unicode property `White_Space`.
pub open spec fn is_space(c: char) -> bool {
    let n = c as u32;
    ||| 0x09 <= n <= 0x0D
    ||| n == 0x20
    ||| n == 0x85
    ||| n == 0xA0
    ||| n == 0x1680
    ||| 0x2000 <= n <= 0x200A
    ||| n == 0x2028
    ||| n == 0x2029
    ||| n == 0x202F
    ||| n == 0x205F
    ||| n == 0x3000
}

/// `s` without the white space it starts with.
pub open spec fn skip_leading_space(s: Seq<char>) -> Seq<char>
    decreases s.len(),
{
    if s.len() > 0 && is_space(s[0]) {
        skip_leading_space(s.drop_first())
    } else {
        s
    }
}

/// `s` without the white space it ends with.
pub open spec fn skip_trailing_space(s: Seq<char>) -> Seq<char>
    decreases s.len(),
{
    if s.len() > 0 && is_space(s.last()) {
        skip_trailing_space(s.drop_last())
    } else {
        s
    }
}

/// `s` without white space at either end.
pub open spec fn trimmed(s: Seq<char>) -> Seq<char> {
    skip_trailing_space(skip_leading_space(s))
}

/// `s` without the run of `c` it ends with.
pub open spec fn strip_trailing(s: Seq<char>, c: char) -> Seq<char>
    decreases s.len(),
{
    if s.len() > 0 && s.last() == c {
        strip_trailing(s.drop_last(), c)
    } else {
        s
    }
}

/// The decimal digit for `d`, which is below ten.
pub open spec fn digit(d: nat) -> char {
    if d == 0 {
        '0'
    } else if d == 1 {
        '1'
    } else if d == 2 {
        '2'
    } else if d == 3 {
        '3'
    } else if d == 4 {
        '4'
    } else if d == 5 {
        '5'
    } else if d == 6 {
        '6'
    } else if d == 7 {
        '7'
    } else if d == 8 {
        '8'
    } else {
        '9'
    }
}

/// The decimal numeral of `n`, without leading zeros.
pub open spec fn decimal(n: nat) -> Seq<char>
    decreases n,
{
    if n < 10 {
        seq![digit(n)]
    } else {
        decimal(n / 10).push(digit(n % 10))
    }
}

/// Whether `c` is white space.
pub fn is_whitespace(c: char) -> (r: bool)
    ensures
        r == is_space(c),
{
    let n: u32 = c as u32;
    (0x09 <= n && n <= 0x0D) || n == 0x20 || n == 0x85 || n == 0xA0 || n == 0x1680 || (0x2000 <= n
        && n <= 0x200A) || n == 0x2028 || n == 0x2029 || n == 0x202F || n == 0x205F || n == 0x3000
}

/// The characters of `s`, in order.
pub fn chars_of(s: &str) -> (v: Vec<char>)
    ensures
        v@ == s@,
{
    let mut v: Vec<char> = Vec::new();
    for c in it: s.chars()
        invariant
            it.seq() == s@,
            v@ == s@.take(it.index()),
    {
        v.push(c);
    }
    v
}

/// The index of the first character of `chars` that is not white space, or
/// its length where there is none.
pub fn leading_space_end(chars: &Vec<char>) -> (start: usize)
    ensures
        start <= chars.len(),
        skip_leading_space(chars@) == chars@.subrange(start as int, chars.len() as int),
{
    let n = chars.len();
    let mut start: usize = 0;
    proof {
        assert(chars@.subrange(0, n as int) =~= chars@);
    }
    while start < n && is_whitespace(chars[start])
        invariant
            n == chars.len(),
            start <= n,
            skip_leading_space(chars@) == skip_leading_space(
                chars@.subrange(start as int, n as int),
            ),
        decreases n - start,
    {
        proof {
            assert(chars@.subrange(start as int, n as int).drop_first() =~= chars@.subrange(
                start + 1,
                n as int,
            ));
        }
        start += 1;
    }
    start
}

/// The index just behind the last character of `chars[from..to]` that is not
/// white space, or `from` where there is none.
pub fn trailing_space_start(chars: &Vec<char>, from: usize, to: usize) -> (end: usize)
    requires
        from <= to <= chars.len(),
    ensures
        from <= end <= to,
        skip_trailing_space(chars@.subrange(from as int, to as int)) == chars@.subrange(
            from as int,
            end as int,
        ),
{
    let mut end: usize = to;
    while end > from && is_whitespace(chars[end - 1])
        invariant
            from <= end <= to <= chars.len(),
            skip_trailing_space(chars@.subrange(from as int, to as int)) == skip_trailing_space(
                chars@.subrange(from as int, end as int),
            ),
        decreases end - from,
    {
        proof {
            assert(chars@.subrange(from as int, end as int).drop_last() =~= chars@.subrange(
                from as int,
                end - 1,
            ));
        }
        end -= 1;
    }
    end
}

/// The index just behind the last character of `chars[from..to]` that is not
/// `c`, or `from` where there is none.
pub fn trailing_run_start(chars: &Vec<char>, from: usize, to: usize, c: char) -> (end: usize)
    requires
        from <= to <= chars.len(),
    ensures
        from <= end <= to,
        strip_trailing(chars@.subrange(from as int, to as int), c) == chars@.subrange(
            from as int,
            end as int,
        ),
{
    let mut end: usize = to;
    while end > from && chars[end - 1] == c
        invariant
            from <= end <= to <= chars.len(),
            strip_trailing(chars@.subrange(from as int, to as int), c) == strip_trailing(
                chars@.subrange(from as int, end as int),
                c,
            ),
        decreases end - from,
    {
        proof {
            assert(chars@.subrange(from as int, end as int).drop_last() =~= chars@.subrange(
                from as int,
                end - 1,
            ));
        }
        end -= 1;
    }
    end
}

/// Whether `chars[from..to]` starts with `prefix`.
pub fn starts_with(chars: &Vec<char>, from: usize, to: usize, prefix: &Vec<char>) -> (r: bool)
    requires
        from <= to <= chars.len(),
    ensures
        r == prefix@.is_prefix_of(chars@.subrange(from as int, to as int)),
{
    let m = prefix.len();
    if m > to - from {
        return false;
    }
    let ghost window = chars@.subrange(from as int, to as int);
    let mut i: usize = 0;
    while i < m
        invariant
            i <= m == prefix.len(),
            from <= to <= chars.len(),
            m <= to - from,
            window == chars@.subrange(from as int, to as int),
            forall|j: int| 0 <= j < i ==> prefix@[j] == window[j],
        decreases m - i,
    {
        if prefix[i] != chars[from + i] {
            proof {
                assert(window[i as int] == chars@[from + i]);
                if prefix@.is_prefix_of(window) {
                    assert(window.subrange(0, m as int)[i as int] == prefix@[i as int]);
                }
            }
            return false;
        }
        i += 1;
    }
    proof {
        assert(window.subrange(0, m as int) =~= prefix@);
    }
    true
}

/// Whether two strings hold the same characters.
pub fn same_text(a: &str, b: &str) -> (r: bool)
    ensures
        r == (a@ == b@),
{
    let x = chars_of(a);
    let y = chars_of(b);
    if x.len() != y.len() {
        return false;
    }
    let r = starts_with(&x, 0, x.len(), &y);
    proof {
        assert(x@.subrange(0, x.len() as int) =~= x@);
        if r {
            assert(y@ =~= x@.subrange(0, y.len() as int));
        }
    }
    r
}

/// The one-character string that shows the digit `d`.
fn digit_text(d: u16) -> (s: &'static str)
    requires
        d < 10,
    ensures
        s@ == seq![digit(d as nat)],
{
    proof {
        reveal_strlit("0");
        reveal_strlit("1");
        reveal_strlit("2");
        reveal_strlit("3");
        reveal_strlit("4");
        reveal_strlit("5");
        reveal_strlit("6");
        reveal_strlit("7");
        reveal_strlit("8");
        reveal_strlit("9");
    }
    let s = if d == 0 {
        "0"
    } else if d == 1 {
        "1"
    } else if d == 2 {
        "2"
    } else if d == 3 {
        "3"
    } else if d == 4 {
        "4"
    } else if d == 5 {
        "5"
    } else if d == 6 {
        "6"
    } else if d == 7 {
        "7"
    } else if d == 8 {
        "8"
    } else {
        "9"
    };
    assert(s@ =~= seq![digit(d as nat)]);
    s
}

/// `n` written in decimal.
pub fn decimal_string(n: u16) -> (s: String)
    ensures
        s@ == decimal(n as nat),
    decreases n,
{
    if n < 10 {
        String::from_str(digit_text(n))
    } else {
        let head = decimal_string(n / 10);
        let s = head.concat(digit_text(n % 10));
        proof {
            assert(s@ =~= decimal((n / 10) as nat).push(digit((n % 10) as nat)));
        }
        s
    }
}

/// Where something is left of `s` without its leading white space, it ends
/// as `s` does; and something is left where `s` ends in no white space.
pub proof fn lemma_leading_keeps_end(s: Seq<char>)
    ensures
        skip_leading_space(s).len() > 0 ==> s.len() > 0 && skip_leading_space(s).last()
            == s.last(),
        s.len() > 0 && !is_space(s.last()) ==> skip_leading_space(s).len() > 0,
    decreases s.len(),
{
    if s.len() > 0 && is_space(s[0]) {
        lemma_leading_keeps_end(s.drop_first());
        if s.len() > 1 {
            assert(s.drop_first().last() == s.last());
        }
    }
}

/// Where something is left of `s` without its leading white space, a
/// character put behind `s` stays behind it.
pub proof fn lemma_leading_before_push(s: Seq<char>, c: char)
    requires
        skip_leading_space(s).len() > 0,
    ensures
        skip_leading_space(s.push(c)) == skip_leading_space(s).push(c),
    decreases s.len(),
{
    if s.len() > 0 && is_space(s[0]) {
        assert(s.push(c).drop_first() =~= s.drop_first().push(c));
        lemma_leading_before_push(s.drop_first(), c);
    }
}

/// Stripping a trailing run a second time changes nothing.
pub proof fn lemma_strip_trailing_twice(s: Seq<char>, c: char)
    ensures
        strip_trailing(strip_trailing(s, c), c) == strip_trailing(s, c),
    decreases s.len(),
{
    if s.len() > 0 && s.last() == c {
        lemma_strip_trailing_twice(s.drop_last(), c);
    }
}

} // verus!
