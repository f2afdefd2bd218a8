//! Stable local names: the file a segment is persisted under, and the file an
//! output artifact is written to.

use vstd::prelude::*;
use crate::text::chars_of;

verus! {

/// Width of the zero-padded position in a fallback segment name.
pub const POSITION_WIDTH: usize = 6;

/// The character of the decimal digit `d` (below ten).
pub open spec fn digit_char(d: nat) -> char {
    if d == 0 {
        '0'
    } else if d == 1 {
        '1'
    } else if d == 2 {
        '2'
    } else if d == 3 {
        '3'
    } else if d == 4 {
        '4'
    } else if d == 5 {
        '5'
    } else if d == 6 {
        '6'
    } else if d == 7 {
        '7'
    } else if d == 8 {
        '8'
    } else {
        '9'
    }
}

/// Decimal notation of `n`, without leading zeros.
pub open spec fn decimal(n: nat) -> Seq<char>
    decreases n,
{
    if n < 10 {
        seq![digit_char(n)]
    } else {
        decimal(n / 10).push(digit_char(n % 10))
    }
}

/// Decimal notation of `n`, left-padded with zeros to at least `width` characters.
pub open spec fn zero_padded(n: nat, width: nat) -> Seq<char> {
    let d = decimal(n);
    if d.len() >= width {
        d
    } else {
        Seq::new((width - d.len()) as nat, |i: int| '0') + d
    }
}

/// Name used for the segment at `position` when its URI yields no file name:
/// `segment_` followed by the position padded to six digits, then `.ts`.
pub open spec fn fallback_segment_name(position: nat) -> Seq<char> {
    seq!['s', 'e', 'g', 'm', 'e', 'n', 't', '_'] + zero_padded(position, 6) + seq!['.', 't', 's']
}

/// Scans `s` backwards for its last path component. `s[k..j]` is the part of
/// the component seen so far; empty components and `.` components are skipped.
pub open spec fn name_scan(s: Seq<char>, j: int, k: int) -> Option<Seq<char>>
    decreases k,
{
    if k <= 0 && j <= 0 {
        None
    } else if k > 0 && s[k - 1] != '/' {
        name_scan(s, j, k - 1)
    } else if k == j {
        if k <= 0 {
            None
        } else {
            name_scan(s, k - 1, k - 1)
        }
    } else if s.subrange(k, j) == seq!['.'] {
        if k <= 0 {
            None
        } else {
            name_scan(s, k - 1, k - 1)
        }
    } else if s.subrange(k, j) == seq!['.', '.'] {
        None
    } else {
        Some(s.subrange(k, j))
    }
}

/// The final component of the `/`-separated path `s`, the way a path's file
/// name is read: trailing separators and `.` components are ignored, and a
/// path that ends in `..`, or has no component left, has none.
pub open spec fn path_file_name(s: Seq<char>) -> Option<Seq<char>> {
    name_scan(s, s.len() as int, s.len() as int)
}

/// The local file name of the segment at `position` whose URI is `uri`.
pub open spec fn segment_file_name(uri: Seq<char>, position: nat) -> Seq<char> {
    match path_file_name(uri) {
        Some(n) => n,
        None => fallback_segment_name(position),
    }
}

/// The final path component of `uri`, if it has one.
pub fn uri_file_name(uri: &str) -> (r: Option<String>)
    ensures
        r matches Some(n) ==> path_file_name(uri@) == Some(n@),
        r is None ==> path_file_name(uri@) is None,
{
    let cs = chars_of(uri);
    let mut j: usize = cs.len();
    let mut k: usize = cs.len();
    while k > 0 || j > 0
        invariant
            k <= j <= cs@.len(),
            cs@ == uri@,
            name_scan(cs@, j as int, k as int) == path_file_name(uri@),
        decreases k,
    {
        if k > 0 && cs[k - 1] != '/' {
            k = k - 1;
        } else if k == j {
            if k == 0 {
                return None;
            }
            k = k - 1;
            j = k;
        } else if j - k == 1 && cs[k] == '.' {
            assert(cs@.subrange(k as int, j as int) =~= seq!['.']);
            if k == 0 {
                return None;
            }
            k = k - 1;
            j = k;
        } else if j - k == 2 && cs[k] == '.' && cs[k + 1] == '.' {
            assert(cs@.subrange(k as int, j as int) =~= seq!['.', '.']);
            return None;
        } else {
            let ghost sub = cs@.subrange(k as int, j as int);
            assert(sub != seq!['.']) by {
                if sub == seq!['.'] {
                    assert(sub.len() == 1);
                    assert(sub[0] == cs@[k as int]);
                }
            }
            assert(sub != seq!['.', '.']) by {
                if sub == seq!['.', '.'] {
                    assert(sub.len() == 2);
                    assert(sub[0] == cs@[k as int]);
                    assert(sub[1] == cs@[k + 1]);
                }
            }
            let name = uri.substring_char(k, j);
            return Some(name.to_owned());
        }
    }
    None
}

/// The one-character string of the decimal digit `d`.
fn digit_str(d: usize) -> (r: &'static str)
    requires
        d < 10,
    ensures
        r@ == seq![digit_char(d as nat)],
{
    proof {
        reveal_strlit("0");
        reveal_strlit("1");
        reveal_strlit("2");
        reveal_strlit("3");
        reveal_strlit("4");
        reveal_strlit("5");
        reveal_strlit("6");
        reveal_strlit("7");
        reveal_strlit("8");
        reveal_strlit("9");
    }
    let r = if d == 0 {
        "0"
    } else if d == 1 {
        "1"
    } else if d == 2 {
        "2"
    } else if d == 3 {
        "3"
    } else if d == 4 {
        "4"
    } else if d == 5 {
        "5"
    } else if d == 6 {
        "6"
    } else if d == 7 {
        "7"
    } else if d == 8 {
        "8"
    } else {
        "9"
    };
    assert(r@ =~= seq![digit_char(d as nat)]);
    r
}

/// Appends the decimal notation of `n` to `s`.
pub fn push_decimal(s: &mut String, n: usize)
    ensures
        final(s)@ == old(s)@ + decimal(n as nat),
    decreases n,
{
    if n >= 10 {
        push_decimal(s, n / 10);
    }
    s.append(digit_str(n % 10));
    proof {
        if n >= 10 {
            assert(decimal(n as nat) == decimal((n / 10) as nat).push(digit_char((n % 10) as nat)));
        }
        assert(final(s)@ =~= old(s)@ + decimal(n as nat));
    }
}

/// Number of digits in the decimal notation of `n`.
pub fn decimal_len(n: usize) -> (r: usize)
    ensures
        r == decimal(n as nat).len(),
    decreases n,
{
    if n < 10 {
        1
    } else {
        let r = decimal_len(n / 10);
        assert(r <= n / 10 + 1) by {
            lemma_decimal_len_bound((n / 10) as nat);
        }
        r + 1
    }
}

proof fn lemma_decimal_len_bound(n: nat)
    ensures
        decimal(n).len() <= n + 1,
    decreases n,
{
    if n >= 10 {
        lemma_decimal_len_bound(n / 10);
    }
}

/// Appends `n` in decimal, left-padded with zeros to `width` characters.
pub fn push_zero_padded(s: &mut String, n: usize, width: usize)
    ensures
        final(s)@ == old(s)@ + zero_padded(n as nat, width as nat),
{
    let len = decimal_len(n);
    let ghost start = s@;
    if len < width {
        let mut i: usize = len;
        while i < width
            invariant
                len <= i <= width,
                s@ == start + Seq::new((i - len) as nat, |x: int| '0'),
            decreases width - i,
        {
            s.append("0");
            proof {
                reveal_strlit("0");
            }
            assert(s@ =~= start + Seq::new((i + 1 - len) as nat, |x: int| '0'));
            i = i + 1;
        }
    }
    push_decimal(s, n);
    assert(s@ =~= start + zero_padded(n as nat, width as nat));
}

/// The file name a segment is persisted under: the last component of its URI,
/// or `segment_{position:06}.ts` when the URI has none. The same URI and
/// position always give the same name.
pub fn get_segment_filename(segment_uri: &str, index: usize) -> (r: String)
    ensures
        r@ == segment_file_name(segment_uri@, index as nat),
{
    match uri_file_name(segment_uri) {
        Some(n) => n,
        None => {
            let mut s = String::from_str("segment_");
            push_zero_padded(&mut s, index, POSITION_WIDTH);
            s.append(".ts");
            proof {
                reveal_strlit("segment_");
                reveal_strlit(".ts");
            }
            assert(s@ =~= fallback_segment_name(index as nat));
            s
        }
    }
}

} // verus!
