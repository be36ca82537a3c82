//! Reading a travel destination out of the clipboard: either a ready
//! `/travel x,y` command, or the first `x,y` pair of signed integers in
//! the text.

use vstd::prelude::*;
use vstd::string::*;

verus! {

pub open spec fn is_digit(c: char) -> bool {
    '0' <= c <= '9'
}

/// The length of the run of digits that starts at `i`.
pub open spec fn digit_run(s: Seq<char>, i: int) -> int
    decreases s.len() - i,
{
    if 0 <= i < s.len() && is_digit(s[i]) {
        1 + digit_run(s, i + 1)
    } else {
        0
    }
}

/// Where the integer (an optional minus sign, then digits) that starts at
/// `i` ends, or -1 when none starts there.
pub open spec fn number_end(s: Seq<char>, i: int) -> int {
    let j = if 0 <= i < s.len() && s[i] == '-' {
        i + 1
    } else {
        i
    };
    if digit_run(s, j) > 0 {
        j + digit_run(s, j)
    } else {
        -1
    }
}

/// Whether a pair `x,y` of integers starts at `i`.
pub open spec fn pair_at(s: Seq<char>, i: int) -> bool {
    let e = number_end(s, i);
    e >= 0 && e < s.len() && s[e] == ',' && number_end(s, e + 1) >= 0
}

/// Whether `i` is the first position where a pair starts.
pub open spec fn is_first_pair(s: Seq<char>, i: int) -> bool {
    &&& 0 <= i < s.len()
    &&& pair_at(s, i)
    &&& forall|j: int| 0 <= j < i ==> !#[trigger] pair_at(s, j)
}

/// The two integers, as text, of the first pair in `s`.
pub open spec fn first_pair(s: Seq<char>) -> Option<(Seq<char>, Seq<char>)> {
    if exists|i: int| 0 <= i < s.len() && #[trigger] pair_at(s, i) {
        let i = choose|i: int| is_first_pair(s, i);
        let e = number_end(s, i);
        Some((s.subrange(i, e), s.subrange(e + 1, number_end(s, e + 1))))
    } else {
        None
    }
}

/// The text that starts a travel command.
pub open spec fn travel_prefix() -> Seq<char> {
    seq!['/', 't', 'r', 'a', 'v', 'e', 'l', ' ']
}

pub open spec fn is_travel_command(s: Seq<char>) -> bool {
    s.len() >= 8 && s.take(8) == travel_prefix()
}

/// The travel command that a clipboard text gives: the text itself when it
/// is one already, else one built from its first pair of integers.
pub open spec fn travel_command_spec(s: Seq<char>) -> Option<Seq<char>> {
    if is_travel_command(s) {
        Some(s)
    } else {
        match first_pair(s) {
            Some((x, y)) => Some(travel_prefix() + x + seq![','] + y),
            None => None,
        }
    }
}

/// The characters of `s`.
pub(crate) fn chars_of(s: &str) -> (r: Vec<char>)
    ensures
        r@ == s@,
{
    let mut r: Vec<char> = Vec::new();
    for c in it: s.chars()
        invariant
            r@ == it.seq().take(it.index() as int),
    {
        r.push(c);
    }
    r
}

pub fn starts_with_travel(cs: &Vec<char>) -> (r: bool)
    ensures
        r == is_travel_command(cs@),
{
    let r = cs.len() >= 8 && cs[0] == '/' && cs[1] == 't' && cs[2] == 'r' && cs[3] == 'a'
        && cs[4] == 'v' && cs[5] == 'e' && cs[6] == 'l' && cs[7] == ' ';
    proof {
        if cs@.len() >= 8 {
            if r {
                assert(cs@.take(8) =~= travel_prefix());
            } else {
                let p = travel_prefix();
                assert(cs@.take(8) != p) by {
                    if cs@.take(8) == p {
                        assert(cs@.take(8)[0] == p[0]);
                        assert(cs@.take(8)[1] == p[1]);
                        assert(cs@.take(8)[2] == p[2]);
                        assert(cs@.take(8)[3] == p[3]);
                        assert(cs@.take(8)[4] == p[4]);
                        assert(cs@.take(8)[5] == p[5]);
                        assert(cs@.take(8)[6] == p[6]);
                        assert(cs@.take(8)[7] == p[7]);
                    }
                }
            }
        }
    }
    r
}

fn digits_from(cs: &Vec<char>, i: usize) -> (end: usize)
    requires
        i <= cs@.len(),
    ensures
        end as int == i + digit_run(cs@, i as int),
        end <= cs@.len(),
    decreases cs@.len() - i,
{
    if i < cs.len() && '0' <= cs[i] && cs[i] <= '9' {
        digits_from(cs, i + 1)
    } else {
        i
    }
}

/// Where the integer that starts at `i` ends, if one starts there.
fn number_from(cs: &Vec<char>, i: usize) -> (r: Option<usize>)
    requires
        i <= cs@.len(),
    ensures
        match r {
            Some(e) => e as int == number_end(cs@, i as int) && i < e <= cs@.len(),
            None => number_end(cs@, i as int) == -1,
        },
{
    let j = if i < cs.len() && cs[i] == '-' {
        i + 1
    } else {
        i
    };
    let e = digits_from(cs, j);
    if e > j {
        Some(e)
    } else {
        None
    }
}

/// Whether `s` is a travel command already.
pub fn is_travel_text(s: &str) -> (r: bool)
    ensures
        r == is_travel_command(s@),
{
    starts_with_travel(&chars_of(s))
}

/// The bounds of the two integers of the first pair in `cs`.
fn find_pair(cs: &Vec<char>) -> (r: Option<(usize, usize, usize)>)
    ensures
        match r {
            Some((i, e, f)) => is_first_pair(cs@, i as int) && e as int == number_end(cs@, i as int)
                && f as int == number_end(cs@, e + 1) && i < e < f <= cs@.len(),
            None => forall|j: int| 0 <= j < cs@.len() ==> !#[trigger] pair_at(cs@, j),
        },
{
    let mut i: usize = 0;
    while i < cs.len()
        invariant
            i <= cs@.len(),
            forall|j: int| 0 <= j < i ==> !#[trigger] pair_at(cs@, j),
        decreases cs@.len() - i,
    {
        match number_from(cs, i) {
            Some(e) => {
                if e < cs.len() && cs[e] == ',' {
                    match number_from(cs, e + 1) {
                        Some(f) => {
                            return Some((i, e, f));
                        },
                        None => {},
                    }
                }
            },
            None => {},
        }
        i = i + 1;
    }
    None
}

/// The travel command to paste for a clipboard text; `None` when the text
/// is no travel command and holds no pair of integers.
pub fn travel_command(clipboard: &str) -> (r: Option<String>)
    ensures
        r is Some <==> travel_command_spec(clipboard@) is Some,
        r is Some ==> r->0@ == travel_command_spec(clipboard@)->0,
{
    let cs = chars_of(clipboard);
    if starts_with_travel(&cs) {
        return Some(clipboard.to_owned());
    }
    match find_pair(&cs) {
        Some((i, e, f)) => {
            proof {
                let k = choose|k: int| is_first_pair(cs@, k);
                if k < i {
                    assert(!pair_at(cs@, k));
                }
                if i < k {
                    assert(!pair_at(cs@, i as int));
                }
            }
            let x = clipboard.substring_char(i, e);
            let y = clipboard.substring_char(e + 1, f);
            let mut out = String::from_str("/travel ");
            out.append(x);
            out.append(",");
            out.append(y);
            proof {
                reveal_strlit("/travel ");
                reveal_strlit(",");
                assert("/travel "@ =~= travel_prefix());
                assert(","@ =~= seq![',']);
            }
            Some(out)
        },
        None => None,
    }
}

} // verus!
