//! Verified text helpers: decimal rendering of integers, ASCII
//! case-insensitive comparison, and file-name extensions.

use vstd::prelude::*;
use vstd::string::StrSliceExecFns;
use vstd::string::StringExecFns;

verus! {

/// The decimal digit character for `d` (0 through 9).
pub open spec fn spec_digit_char(d: nat) -> char {
    if d == 0 {
        '0'
    } else if d == 1 {
        '1'
    } else if d == 2 {
        '2'
    } else if d == 3 {
        '3'
    } else if d == 4 {
        '4'
    } else if d == 5 {
        '5'
    } else if d == 6 {
        '6'
    } else if d == 7 {
        '7'
    } else if d == 8 {
        '8'
    } else {
        '9'
    }
}

/// The decimal rendering of `n`, most significant digit first, with no
/// leading zeros (except for `n == 0`, rendered "0").
pub open spec fn spec_decimal(n: nat) -> Seq<char>
    decreases n,
{
    if n < 10 {
        seq![spec_digit_char(n)]
    } else {
        spec_decimal(n / 10) + seq![spec_digit_char(n % 10)]
    }
}

/// The decimal rendering of a signed value: a minus sign before the
/// magnitude when negative.
pub open spec fn spec_decimal_i64(n: int) -> Seq<char> {
    if n >= 0 {
        spec_decimal(n as nat)
    } else {
        seq!['-'] + spec_decimal((-n) as nat)
    }
}

/// The single-character string for digit `d`.
fn digit_str(d: u64) -> (r: &'static str)
    requires
        d < 10,
    ensures
        r@ == seq![spec_digit_char(d as nat)],
{
    proof {
        reveal_strlit("0");
        reveal_strlit("1");
        reveal_strlit("2");
        reveal_strlit("3");
        reveal_strlit("4");
        reveal_strlit("5");
        reveal_strlit("6");
        reveal_strlit("7");
        reveal_strlit("8");
        reveal_strlit("9");
    }
    let r = if d == 0 {
        "0"
    } else if d == 1 {
        "1"
    } else if d == 2 {
        "2"
    } else if d == 3 {
        "3"
    } else if d == 4 {
        "4"
    } else if d == 5 {
        "5"
    } else if d == 6 {
        "6"
    } else if d == 7 {
        "7"
    } else if d == 8 {
        "8"
    } else {
        "9"
    };
    proof {
        assert(r@ =~= seq![spec_digit_char(d as nat)]);
    }
    r
}

/// Render `n` in decimal.
pub fn u64_string(n: u64) -> (r: String)
    ensures
        r@ == spec_decimal(n as nat),
    decreases n,
{
    if n < 10 {
        digit_str(n).to_owned()
    } else {
        let mut s = u64_string(n / 10);
        s.append(digit_str(n % 10));
        s
    }
}

/// Render a signed value in decimal, minus sign included.
pub fn i64_string(n: i64) -> (r: String)
    ensures
        r@ == spec_decimal_i64(n as int),
{
    if n >= 0 {
        u64_string(n as u64)
    } else {
        // Magnitude without overflowing on the smallest value.
        let mag: u64 = ((-(n + 1)) as u64) + 1;
        proof {
            assert(mag == -(n as int));
        }
        let mut s = "-".to_owned();
        let d = u64_string(mag);
        s.append(d.as_str());
        proof {
            reveal_strlit("-");
            assert(s@ =~= spec_decimal_i64(n as int));
        }
        s
    }
}

/// ASCII lowercase of one character; other characters are unchanged.
pub open spec fn lower_char(c: char) -> char {
    if 'A' <= c && c <= 'Z' {
        ((c as u32) + 32) as char
    } else {
        c
    }
}

/// ASCII lowercase of a character sequence.
pub open spec fn lower_seq(s: Seq<char>) -> Seq<char> {
    s.map_values(|c: char| lower_char(c))
}

/// ASCII lowercase of one character, as executable code.
fn lower_char_exec(c: char) -> (r: char)
    ensures
        r == lower_char(c),
{
    if 'A' <= c && c <= 'Z' {
        let u = c as u32;
        ((u + 32) as u8) as char
    } else {
        c
    }
}

/// Compare two strings ignoring ASCII case.
pub fn eq_ignore_ascii_case(a: &str, b: &str) -> (r: bool)
    ensures
        r == (lower_seq(a@) == lower_seq(b@)),
{
    let an = a.unicode_len();
    let bn = b.unicode_len();
    if an != bn {
        proof {
            assert(lower_seq(a@).len() == a@.len());
            assert(lower_seq(b@).len() == b@.len());
        }
        return false;
    }
    let mut i: usize = 0;
    while i < an
        invariant
            an == a@.len(),
            an == b@.len(),
            i <= an,
            forall|j: int| 0 <= j < i ==> lower_char(a@[j]) == lower_char(b@[j]),
        decreases an - i,
    {
        let ca = a.get_char(i);
        let cb = b.get_char(i);
        if lower_char_exec(ca) != lower_char_exec(cb) {
            proof {
                assert(lower_seq(a@)[i as int] != lower_seq(b@)[i as int]);
            }
            return false;
        }
        i += 1;
    }
    proof {
        assert(lower_seq(a@) =~= lower_seq(b@));
    }
    true
}

/// The extension of a file name: what follows the last dot, provided the
/// dot is neither the first character nor absent.
pub open spec fn spec_extension(name: Seq<char>) -> Option<Seq<char>> {
    if exists|i: int| 1 <= i < name.len() && name[i] == '.' {
        let i = last_dot(name);
        Some(name.subrange(i + 1, name.len() as int))
    } else {
        None
    }
}

/// The largest index (at least 1) holding a dot.
pub open spec fn last_dot(name: Seq<char>) -> int {
    choose|i: int|
        1 <= i < name.len() && name[i] == '.' && (forall|j: int|
            i < j < name.len() ==> name[j] != '.')
}

/// There is a largest dot index whenever there is a dot index.
proof fn lemma_last_dot_exists(name: Seq<char>, k: int)
    requires
        1 <= k < name.len(),
        name[k] == '.',
    ensures
        exists|i: int|
            1 <= i < name.len() && name[i] == '.' && (forall|j: int|
                i < j < name.len() ==> name[j] != '.'),
    decreases name.len() - k,
{
    if exists|j: int| k < j < name.len() && name[j] == '.' {
        let j = choose|j: int| k < j < name.len() && name[j] == '.';
        lemma_last_dot_exists(name, j);
    } else {
        assert(1 <= k < name.len() && name[k] == '.' && (forall|j: int|
            k < j < name.len() ==> name[j] != '.'));
    }
}

/// Extract the extension of `name`, as `spec_extension` defines it.
pub fn extension_of(name: &str) -> (r: Option<String>)
    ensures
        match r {
            Some(e) => spec_extension(name@) == Some(e@),
            None => spec_extension(name@) is None,
        },
{
    let n = name.unicode_len();
    let mut dot: usize = 0;
    let mut found = false;
    let mut i: usize = 0;
    while i < n
        invariant
            n == name@.len(),
            i <= n,
            found ==> 1 <= dot < i && name@[dot as int] == '.' && (forall|j: int|
                dot < j < i ==> name@[j] != '.'),
            !found ==> forall|j: int| 1 <= j < i ==> name@[j] != '.',
        decreases n - i,
    {
        if i >= 1 && name.get_char(i) == '.' {
            dot = i;
            found = true;
        }
        i += 1;
    }
    if found {
        proof {
            lemma_last_dot_exists(name@, dot as int);
            let c = last_dot(name@);
            assert(c == dot) by {
                if c < dot as int {
                    assert(name@[dot as int] == '.');
                } else if c > dot as int {
                    assert(name@[c] != '.');
                }
            }
        }
        Some(name.substring_char(dot + 1, n).to_owned())
    } else {
        proof {
            assert(forall|j: int| 1 <= j < n ==> name@[j] != '.');
        }
        None
    }
}

} // verus!
