//! Trimming of the text that a user typed.

use vstd::prelude::*;
use vstd::string::*;

verus! {

/// The characters with the Unicode property `White_Space`.
pub open spec fn is_white_space(c: char) -> bool {
    let n = c as u32;
    ||| 0x09 <= n <= 0x0D
    ||| n == 0x20
    ||| n == 0x85
    ||| n == 0xA0
    ||| n == 0x1680
    ||| 0x2000 <= n <= 0x200A
    ||| n == 0x2028
    ||| n == 0x2029
    ||| n == 0x202F
    ||| n == 0x205F
    ||| n == 0x3000
}

/// Number of white-space characters at the start of `s`.
pub open spec fn leading_space(s: Seq<char>) -> nat
    decreases s.len(),
{
    if s.len() > 0 && is_white_space(s[0]) {
        1 + leading_space(s.drop_first())
    } else {
        0
    }
}

/// Number of white-space characters at the end of `s`.
pub open spec fn trailing_space(s: Seq<char>) -> nat
    decreases s.len(),
{
    if s.len() > 0 && is_white_space(s.last()) {
        1 + trailing_space(s.drop_last())
    } else {
        0
    }
}

/// `s` without the white space at its start and at its end.
pub open spec fn trimmed(s: Seq<char>) -> Seq<char> {
    let front = s.skip(leading_space(s) as int);
    front.take(front.len() - trailing_space(front))
}

/// The white space counted at the start of `s` is white space, and what
/// follows it, if anything does, is not.
pub proof fn lemma_leading_space(s: Seq<char>)
    ensures
        leading_space(s) <= s.len(),
        forall|i: int| 0 <= i < leading_space(s) ==> is_white_space(#[trigger] s[i]),
        leading_space(s) < s.len() ==> !is_white_space(s[leading_space(s) as int]),
    decreases s.len(),
{
    if s.len() > 0 && is_white_space(s[0]) {
        let rest = s.drop_first();
        lemma_leading_space(rest);
        assert forall|i: int| 0 <= i < leading_space(s) implies is_white_space(
            #[trigger] s[i],
        ) by {
            if i > 0 {
                assert(s[i] == rest[i - 1]);
            }
        }
        if leading_space(s) < s.len() {
            assert(s[leading_space(s) as int] == rest[leading_space(rest) as int]);
        }
    }
}

/// The white space counted at the end of `s` is white space, and what comes
/// before it, if anything does, is not.
pub proof fn lemma_trailing_space(s: Seq<char>)
    ensures
        trailing_space(s) <= s.len(),
        forall|i: int| s.len() - trailing_space(s) <= i < s.len() ==> is_white_space(#[trigger] s[i]),
        trailing_space(s) < s.len() ==> !is_white_space(s[s.len() - trailing_space(s) - 1]),
    decreases s.len(),
{
    if s.len() > 0 && is_white_space(s.last()) {
        let rest = s.drop_last();
        lemma_trailing_space(rest);
        assert forall|i: int| s.len() - trailing_space(s) <= i < s.len() implies is_white_space(
            #[trigger] s[i],
        ) by {
            if i < s.len() - 1 {
                assert(s[i] == rest[i]);
            }
        }
        if trailing_space(s) < s.len() {
            assert(s[s.len() - trailing_space(s) - 1] == rest[rest.len() - trailing_space(rest)
                - 1]);
        }
    }
}

/// What trimming gives: the piece of `s` between two cuts, with nothing but
/// white space outside the cuts and none just inside them. The piece is empty
/// exactly when `s` is white space throughout.
pub proof fn law_trimmed_is_the_middle(s: Seq<char>) -> (cut: (int, int))
    ensures
        0 <= cut.0 <= cut.1 <= s.len(),
        trimmed(s) == s.subrange(cut.0, cut.1),
        forall|i: int| 0 <= i < cut.0 ==> is_white_space(#[trigger] s[i]),
        forall|i: int| cut.1 <= i < s.len() ==> is_white_space(#[trigger] s[i]),
        cut.0 < cut.1 ==> !is_white_space(s[cut.0]) && !is_white_space(s[cut.1 - 1]),
        trimmed(s).len() == 0 <==> forall|i: int| 0 <= i < s.len() ==> is_white_space(#[trigger] s[i]),
{
    lemma_leading_space(s);
    let start = leading_space(s) as int;
    let front = s.skip(start);
    lemma_trailing_space(front);
    let end = s.len() - trailing_space(front);
    assert(front.take(front.len() - trailing_space(front)) == s.subrange(start, end));
    assert forall|i: int| end <= i < s.len() implies is_white_space(#[trigger] s[i]) by {
        assert(s[i] == front[i - start]);
    }
    if start < end {
        assert(front[front.len() - trailing_space(front) - 1] == s[end - 1]);
    } else {
        assert(trailing_space(front) == front.len());
    }
    if start < s.len() {
        assert(front[0] == s[start]);
        assert(!is_white_space(front[0]));
        assert(trailing_space(front) < front.len()) by {
            if trailing_space(front) == front.len() {
                assert(is_white_space(front[0]));
            }
        }
    }
    (start, end)
}

/// Trimming what is trimmed changes nothing.
pub proof fn law_trimmed_twice(s: Seq<char>)
    ensures
        trimmed(trimmed(s)) == trimmed(s),
{
    let cut = law_trimmed_is_the_middle(s);
    let t = trimmed(s);
    if t.len() > 0 {
        assert(t[0] == s[cut.0]);
        assert(t.last() == s[cut.1 - 1]);
        assert(leading_space(t) == 0);
        assert(t.skip(0) == t);
        assert(trailing_space(t) == 0);
        assert(t.take(t.len() as int) == t);
    } else {
        assert(leading_space(t) == 0);
        assert(t.skip(0) == t);
        assert(trailing_space(t) == 0);
        assert(t.take(0) == t);
    }
}

/// Whether `c` is white space, as `char::is_whitespace` has it.
pub fn is_whitespace(c: char) -> (b: bool)
    ensures
        b == is_white_space(c),
{
    let n: u32 = c as u32;
    (0x09 <= n && n <= 0x0D) || n == 0x20 || n == 0x85 || n == 0xA0 || n == 0x1680 || (0x2000 <= n
        && n <= 0x200A) || n == 0x2028 || n == 0x2029 || n == 0x202F || n == 0x205F || n == 0x3000
}

/// The characters of `s`, in order.
fn chars_of(s: &str) -> (v: Vec<char>)
    ensures
        v@ == s@,
{
    let mut v: Vec<char> = Vec::new();
    for c in it: s.chars()
        invariant
            it.seq() == s@,
            v@ == it.seq().take(it.index()),
    {
        v.push(c);
    }
    v
}

/// Trims `s` as `str::trim` does: the white space at both ends goes, the rest stays.
pub fn trim(s: &str) -> (r: String)
    ensures
        r@ == trimmed(s@),
{
    let chars = chars_of(s);
    let n: usize = chars.len();
    let mut start: usize = 0;
    assert(chars@.skip(0) == chars@);
    while start < n && is_whitespace(chars[start])
        invariant
            n == chars.len(),
            start <= n,
            leading_space(chars@) == start + leading_space(chars@.skip(start as int)),
        decreases n - start,
    {
        proof {
            let rest = chars@.skip(start as int);
            assert(rest[0] == chars@[start as int]);
            assert(rest.drop_first() == chars@.skip(start + 1));
        }
        start += 1;
    }
    let ghost front = chars@.skip(start as int);
    let mut end: usize = n;
    assert(front.take(n - start) == front);
    while end > start && is_whitespace(chars[end - 1])
        invariant
            n == chars.len(),
            start <= end <= n,
            front == chars@.skip(start as int),
            trailing_space(front) == (n - end) + trailing_space(front.take(end - start)),
        decreases end - start,
    {
        proof {
            let kept = front.take(end - start);
            assert(kept.last() == chars@[end - 1]);
            assert(kept.drop_last() == front.take(end - start - 1));
        }
        end -= 1;
    }
    proof {
        assert(leading_space(chars@) == start);
        assert(trailing_space(front) == n - end);
        assert(s@.subrange(start as int, end as int) == trimmed(s@));
    }
    s.substring_char(start, end).to_owned()
}

} // verus!
