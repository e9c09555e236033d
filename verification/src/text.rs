//! Text helpers for building requests: decimal rendering of numbers and removal
//! of a base origin from a link.

use vstd::prelude::*;
use vstd::string::*;

verus! {

/// The character that writes the digit `d`, for `0 <= d <= 9`.
pub open spec fn digit_char(d: nat) -> char {
    if d == 0 {
        '0'
    } else if d == 1 {
        '1'
    } else if d == 2 {
        '2'
    } else if d == 3 {
        '3'
    } else if d == 4 {
        '4'
    } else if d == 5 {
        '5'
    } else if d == 6 {
        '6'
    } else if d == 7 {
        '7'
    } else if d == 8 {
        '8'
    } else {
        '9'
    }
}

/// The decimal numeral of `n`: most significant digit first, no leading zero
/// except for zero itself.
pub open spec fn decimal(n: nat) -> Seq<char>
    decreases n,
{
    if n < 10 {
        seq![digit_char(n)]
    } else {
        decimal(n / 10).push(digit_char(n % 10))
    }
}

/// The text that writes the digit `d`.
fn digit_text(d: u32) -> (text: &'static str)
    requires
        d < 10,
    ensures
        text@ == seq![digit_char(d as nat)],
{
    proof {
        reveal_strlit("0");
        reveal_strlit("1");
        reveal_strlit("2");
        reveal_strlit("3");
        reveal_strlit("4");
        reveal_strlit("5");
        reveal_strlit("6");
        reveal_strlit("7");
        reveal_strlit("8");
        reveal_strlit("9");
    }
    if d == 0 {
        "0"
    } else if d == 1 {
        "1"
    } else if d == 2 {
        "2"
    } else if d == 3 {
        "3"
    } else if d == 4 {
        "4"
    } else if d == 5 {
        "5"
    } else if d == 6 {
        "6"
    } else if d == 7 {
        "7"
    } else if d == 8 {
        "8"
    } else {
        "9"
    }
}

/// The decimal numeral of `n` as a string.
pub fn to_decimal(n: u32) -> (text: String)
    ensures
        text@ == decimal(n as nat),
    decreases n,
{
    if n < 10 {
        digit_text(n).to_owned()
    } else {
        to_decimal(n / 10).concat(digit_text(n % 10))
    }
}

/// The characters of `s`, one entry per character.
fn chars_of(s: &str) -> (chars: Vec<char>)
    ensures
        chars@ == s@,
{
    let mut chars: Vec<char> = Vec::new();
    for c in it: s.chars()
        invariant
            chars@ == it.seq().take(it.index() as int),
            it.seq() == s@,
    {
        chars.push(c);
    }
    chars
}

/// `text` with every occurrence of `pattern` taken out, scanning from the left:
/// an occurrence that starts at the scan position is skipped whole, any other
/// character is kept. An empty `pattern` takes nothing out.
pub open spec fn without(text: Seq<char>, pattern: Seq<char>) -> Seq<char>
    decreases text.len(),
{
    if pattern.len() == 0 || text.len() < pattern.len() {
        text
    } else if pattern.is_prefix_of(text) {
        without(text.skip(pattern.len() as int), pattern)
    } else {
        seq![text[0]] + without(text.skip(1), pattern)
    }
}

/// Whether `pattern` stands in `text` at position `at`.
fn occurs_at(text: &Vec<char>, at: usize, pattern: &Vec<char>) -> (hit: bool)
    requires
        at + pattern.len() <= text.len(),
    ensures
        hit == pattern@.is_prefix_of(text@.skip(at as int)),
{
    let mut k: usize = 0;
    while k < pattern.len()
        invariant
            k <= pattern.len(),
            at + pattern.len() <= text.len(),
            forall|j: int| 0 <= j < k ==> text@[at + j] == pattern@[j],
        decreases pattern.len() - k,
    {
        if text[at + k] != pattern[k] {
            return false;
        }
        k = k + 1;
    }
    true
}

/// Removes every occurrence of `origin` from `url`, scanning from the left.
/// A client puts its base origin in front of every path it is given, so a
/// link that holds the origin already has to lose it first.
pub fn strip_origin(url: &str, origin: &str) -> (path: String)
    ensures
        path@ == without(url@, origin@),
{
    let text = chars_of(url);
    let pattern = chars_of(origin);
    let n: usize = text.len();
    let m: usize = pattern.len();
    if m == 0 || n < m {
        return url.to_owned();
    }
    let mut path = String::new();
    let mut kept_from: usize = 0;
    let mut at: usize = 0;
    assert(url@.skip(0) =~= url@);
    while at <= n - m
        invariant
            0 < m <= n,
            kept_from <= at <= n,
            text@ == url@,
            pattern@ == origin@,
            n == text.len(),
            m == pattern.len(),
            without(url@, origin@) == path@ + url@.subrange(kept_from as int, at as int) + without(
                url@.skip(at as int),
                origin@,
            ),
        decreases n - at,
    {
        let ghost rest = url@.skip(at as int);
        if occurs_at(&text, at, &pattern) {
            path.append(url.substring_char(kept_from, at));
            at = at + m;
            kept_from = at;
            assert(rest.skip(m as int) =~= url@.skip(at as int));
        } else {
            assert(rest.skip(1) =~= url@.skip(at + 1));
            at = at + 1;
        }
    }
    path.append(url.substring_char(kept_from, n));
    path
}

/// Whether `pattern` stands somewhere in `text`.
pub open spec fn occurs_in(pattern: Seq<char>, text: Seq<char>) -> bool {
    exists|at: int|
        0 <= at <= text.len() - pattern.len() && pattern.is_prefix_of(#[trigger] text.skip(at))
}

/// Text in which the pattern does not occur stays as it is.
pub proof fn lemma_without_absent(text: Seq<char>, pattern: Seq<char>)
    requires
        !occurs_in(pattern, text),
    ensures
        without(text, pattern) == text,
    decreases text.len(),
{
    if pattern.len() > 0 && text.len() >= pattern.len() {
        assert(text.skip(0) =~= text);
        let rest = text.skip(1);
        assert forall|at: int| 0 <= at <= rest.len() - pattern.len() implies !pattern.is_prefix_of(
            #[trigger] rest.skip(at),
        ) by {
            assert(rest.skip(at) =~= text.skip(at + 1));
        }
        lemma_without_absent(rest, pattern);
    }
}

/// A link that begins with the origin loses it, and nothing else, where the
/// origin does not occur again behind it.
pub proof fn lemma_leading_origin_is_stripped(origin: Seq<char>, rest: Seq<char>)
    requires
        !occurs_in(origin, rest),
    ensures
        without(origin + rest, origin) == rest,
{
    if origin.len() > 0 {
        assert((origin + rest).skip(origin.len() as int) =~= rest);
        lemma_without_absent(rest, origin);
    }
}

} // verus!
