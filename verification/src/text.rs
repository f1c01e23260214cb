//! Text helpers over `str` and `String`, each stated over the character
//! sequence that a string views as.

use vstd::prelude::*;

verus! {

/// The decimal digit character for `d` (meant for `0 <= d < 10`).
pub open spec fn digit_char(d: int) -> char {
    if d == 0 {
        '0'
    } else if d == 1 {
        '1'
    } else if d == 2 {
        '2'
    } else if d == 3 {
        '3'
    } else if d == 4 {
        '4'
    } else if d == 5 {
        '5'
    } else if d == 6 {
        '6'
    } else if d == 7 {
        '7'
    } else if d == 8 {
        '8'
    } else {
        '9'
    }
}

/// The decimal notation of `n`: no sign, no leading zero.
pub open spec fn decimal(n: nat) -> Seq<char>
    decreases n,
{
    if n < 10 {
        seq![digit_char(n as int)]
    } else {
        decimal(n / 10).push(digit_char((n % 10) as int))
    }
}

/// The parts joined in order, with `sep` between each two neighbours.
pub open spec fn joined(parts: Seq<Seq<char>>, sep: Seq<char>) -> Seq<char>
    decreases parts.len(),
{
    if parts.len() == 0 {
        Seq::empty()
    } else if parts.len() == 1 {
        parts[0]
    } else {
        joined(parts.drop_last(), sep) + sep + parts.last()
    }
}

/// The character sequences of a list of strings.
pub open spec fn string_views(parts: Seq<String>) -> Seq<Seq<char>> {
    parts.map_values(|p: String| p@)
}

/// The character sequences of a list of string slices.
pub open spec fn str_views(parts: Seq<&str>) -> Seq<Seq<char>> {
    parts.map_values(|p: &str| p@)
}

/// The characters of an optional string.
pub open spec fn opt_view(o: Option<&str>) -> Option<Seq<char>> {
    match o {
        Some(s) => Some(s@),
        None => None,
    }
}

/// `t` without one leading `'v'`, where it has one.
pub open spec fn strip_v(t: Seq<char>) -> Seq<char> {
    if t.len() > 0 && t[0] == 'v' {
        t.skip(1)
    } else {
        t
    }
}

fn digit_str(d: u32) -> (s: &'static str)
    requires
        d < 10,
    ensures
        s@ == seq![digit_char(d as int)],
{
    proof {
        reveal_strlit("0");
        reveal_strlit("1");
        reveal_strlit("2");
        reveal_strlit("3");
        reveal_strlit("4");
        reveal_strlit("5");
        reveal_strlit("6");
        reveal_strlit("7");
        reveal_strlit("8");
        reveal_strlit("9");
    }
    if d == 0 {
        "0"
    } else if d == 1 {
        "1"
    } else if d == 2 {
        "2"
    } else if d == 3 {
        "3"
    } else if d == 4 {
        "4"
    } else if d == 5 {
        "5"
    } else if d == 6 {
        "6"
    } else if d == 7 {
        "7"
    } else if d == 8 {
        "8"
    } else {
        "9"
    }
}

/// The decimal notation of `n`, as `n.to_string()` writes it.
pub fn decimal_string(n: u32) -> (s: String)
    ensures
        s@ == decimal(n as nat),
    decreases n,
{
    if n < 10 {
        String::from_str(digit_str(n))
    } else {
        let mut s = decimal_string(n / 10);
        s.append(digit_str(n % 10));
        s
    }
}

/// Whether two strings hold the same characters.
pub fn str_eq(a: &str, b: &str) -> (r: bool)
    ensures
        r == (a@ == b@),
{
    let la = a.unicode_len();
    let lb = b.unicode_len();
    if la != lb {
        return false;
    }
    let mut i: usize = 0;
    while i < la
        invariant
            la == a@.len(),
            lb == b@.len(),
            la == lb,
            i <= la,
            forall|j: int| 0 <= j < i ==> a@[j] == b@[j],
        decreases la - i,
    {
        if a.get_char(i) != b.get_char(i) {
            return false;
        }
        i = i + 1;
    }
    assert(a@ =~= b@);
    true
}

/// `t` without one leading `'v'`, where it has one, as `strip_prefix('v')` with
/// `unwrap_or(t)` gives it.
pub fn strip_v_prefix(t: &str) -> (s: &str)
    ensures
        s@ == strip_v(t@),
{
    let n = t.unicode_len();
    if n > 0 && t.get_char(0) == 'v' {
        t.substring_char(1, n)
    } else {
        t
    }
}

/// The strings joined in order with a single space between neighbours.
pub fn join_with_spaces(parts: &Vec<String>) -> (s: String)
    ensures
        s@ == joined(string_views(parts@), seq![' ']),
{
    proof {
        reveal_strlit(" ");
    }
    let mut s = String::new();
    let n = parts.len();
    let ghost views = string_views(parts@);
    let mut i: usize = 0;
    while i < n
        invariant
            n == parts@.len(),
            views == string_views(parts@),
            i <= n,
            " "@ == seq![' '],
            s@ == joined(views.take(i as int), seq![' ']),
        decreases n - i,
    {
        if i > 0 {
            s.append(" ");
        }
        s.append(parts[i].as_str());
        proof {
            assert(views[i as int] == parts@[i as int]@);
            assert(views.take(i + 1).drop_last() =~= views.take(i as int));
            assert(views.take(i + 1).last() == parts@[i as int]@);
            if i == 0 {
                assert(s@ =~= joined(views.take(1), seq![' ']));
            }
        }
        i = i + 1;
    }
    assert(views.take(n as int) =~= views);
    s
}

/// Owned copies of the given strings, in order.
pub fn owned_strings(parts: &[&str]) -> (v: Vec<String>)
    ensures
        string_views(v@) == str_views(parts@),
{
    let mut v: Vec<String> = Vec::new();
    let mut i: usize = 0;
    while i < parts.len()
        invariant
            i <= parts@.len(),
            string_views(v@) =~= str_views(parts@.take(i as int)),
        decreases parts@.len() - i,
    {
        let ghost before = v@;
        v.push(String::from_str(parts[i]));
        proof {
            assert(string_views(v@) =~= string_views(before).push(parts@[i as int]@));
            assert(str_views(parts@.take(i + 1)) =~= str_views(parts@.take(i as int)).push(
                parts@[i as int]@,
            ));
        }
        i = i + 1;
    }
    assert(parts@.take(i as int) =~= parts@);
    v
}

} // verus!
