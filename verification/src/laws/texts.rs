//! What holds of the texts, numbers and times that the library works with.
use vstd::prelude::*;

use crate::number;
use crate::text;
use crate::time::Instant;

verus! {

/// Whether all characters of a text from one place to another are of a kind.
pub open spec fn all_of(s: Seq<char>, from: int, to: int, p: spec_fn(char) -> bool) -> bool {
    forall|j: int| from <= j < to ==> p(#[trigger] s[j])
}

/// Whether a text is another one without the characters of a kind at its beginning.
pub open spec fn is_cut_before(r: Seq<char>, s: Seq<char>, p: spec_fn(char) -> bool, n: int) -> bool {
    &&& 0 <= n <= s.len()
    &&& r == s.skip(n)
    &&& all_of(s, 0, n, p)
    &&& n < s.len() ==> !p(s[n])
}

/// Whether a text is another one without the characters of a kind at its end.
pub open spec fn is_cut_after(r: Seq<char>, s: Seq<char>, p: spec_fn(char) -> bool, n: int) -> bool {
    &&& 0 <= n <= s.len()
    &&& r == s.take(n)
    &&& all_of(s, n, s.len() as int, p)
    &&& n > 0 ==> !p(s[n - 1])
}

proof fn lemma_cut_before(s: Seq<char>, p: spec_fn(char) -> bool) -> (n: int)
    ensures
        is_cut_before(text::strip_start(s, p), s, p, n),
    decreases s.len(),
{
    if s.len() > 0 && p(s[0]) {
        let rest = s.skip(1);
        let n = lemma_cut_before(rest, p);
        assert(rest.skip(n) =~= s.skip(n + 1));
        assert forall|j: int| 0 <= j < n + 1 implies p(#[trigger] s[j]) by {
            if j > 0 {
                assert(rest[j - 1] == s[j]);
            }
        }
        if n < rest.len() {
            assert(rest[n] == s[n + 1]);
        }
        n + 1
    } else {
        assert(s.skip(0) =~= s);
        0
    }
}

proof fn lemma_cut_after(s: Seq<char>, p: spec_fn(char) -> bool) -> (n: int)
    ensures
        is_cut_after(text::strip_end(s, p), s, p, n),
    decreases s.len(),
{
    if s.len() > 0 && p(s.last()) {
        let rest = s.drop_last();
        let n = lemma_cut_after(rest, p);
        assert(rest.take(n) =~= s.take(n));
        assert forall|j: int| n <= j < s.len() implies p(#[trigger] s[j]) by {
            if j < rest.len() {
                assert(rest[j] == s[j]);
            }
        }
        n
    } else {
        assert(s.take(s.len() as int) =~= s);
        s.len() as int
    }
}

/// What counts as white space: blanks, tabs and line ends do; no printing character of ASCII does.
pub proof fn law_white_space(c: char)
    ensures
        c == ' ' || c == '\t' || c == '\n' || c == '\r' || c == '\u{b}' || c == '\u{c}' || c
            == '\u{a0}' || c == '\u{3000}' ==> text::is_space(c),
        '!' <= c <= '~' ==> !text::is_space(c),
        c < '\t' ==> !text::is_space(c),
{
}

/// Whether a text is the middle of another one, with nothing but white space on either side, and none at
/// its own ends.
pub open spec fn is_core(r: Seq<char>, s: Seq<char>, from: int, to: int) -> bool {
    &&& 0 <= from <= to <= s.len()
    &&& r == s.subrange(from, to)
    &&& forall|j: int| 0 <= j < from || to <= j < s.len() ==> text::is_space(#[trigger] s[j])
    &&& r.len() > 0 ==> !text::is_space(r[0]) && !text::is_space(r.last())
}

/// A trimmed text is what stands between the white space at both ends.
pub proof fn law_trimming_takes_the_middle(s: Seq<char>)
    ensures
        exists|from: int, to: int| #[trigger] is_core(text::trimmed(s), s, from, to),
{
    let p = |c: char| text::is_space(c);
    let from = lemma_cut_before(s, p);
    let rest = text::strip_start(s, p);
    let n = lemma_cut_after(rest, p);
    let r = text::trimmed(s);
    assert(r =~= s.subrange(from, from + n));
    assert forall|j: int| 0 <= j < from || from + n <= j < s.len() implies text::is_space(
        #[trigger] s[j],
    ) by {
        if j < from {
            assert(p(s[j]));
        } else {
            assert(rest[j - from] == s[j]);
            assert(p(rest[j - from]));
        }
    }
    if r.len() > 0 {
        assert(rest[n - 1] == r.last());
        assert(!p(rest[n - 1]));
        assert(rest[0] == s[from]);
        assert(r[0] == s[from]);
        assert(!p(s[from]));
    }
    assert(is_core(r, s, from, from + n));
}

/// Whether a text is another one without the slashes at its end, and a third one without those at
/// its beginning.
pub open spec fn is_joined(url: Seq<char>, base: Seq<char>, path: Seq<char>, n: int, m: int) -> bool {
    &&& 0 <= n <= base.len() && 0 <= m <= path.len()
    &&& url == base.take(n) + seq!['/'] + path.skip(m)
    &&& forall|j: int| n <= j < base.len() ==> #[trigger] base[j] == '/'
    &&& forall|j: int| 0 <= j < m ==> #[trigger] path[j] == '/'
    &&& n > 0 ==> base[n - 1] != '/'
    &&& m < path.len() ==> path[m] != '/'
}

/// The address of a path is the address of the server, without slashes at its end, one slash, and the
/// path, without slashes at its beginning.
pub proof fn law_addresses_are_joined(base: Seq<char>, path: Seq<char>)
    ensures
        exists|n: int, m: int| #[trigger]
            is_joined(crate::client::remote_url(base, path), base, path, n, m),
{
    reveal_strlit("/");
    assert("/"@ =~= seq!['/']);
    let p = |c: char| c == '/';
    let n = lemma_cut_after(base, p);
    let m = lemma_cut_before(path, p);
    assert forall|j: int| n <= j < base.len() implies #[trigger] base[j] == '/' by {
        assert(p(base[j]));
    }
    assert forall|j: int| 0 <= j < m implies #[trigger] path[j] == '/' by {
        assert(p(path[j]));
    }
    assert(n > 0 ==> !p(base[n - 1]));
    assert(m < path.len() ==> !p(path[m]));
    assert(is_joined(crate::client::remote_url(base, path), base, path, n, m));
}

/// Whether a text is what follows the last slash of another one.
pub open spec fn is_last_part(r: Seq<char>, s: Seq<char>, n: int) -> bool {
    &&& 0 <= n <= s.len()
    &&& r == s.skip(n)
    &&& forall|j: int| n <= j < s.len() ==> #[trigger] s[j] != '/'
    &&& n > 0 ==> s[n - 1] == '/'
}

/// The last segment of a path is what follows its last slash, all of it where there is none.
pub proof fn law_the_last_segment_follows_the_last_slash(s: Seq<char>)
    ensures
        exists|n: int| #[trigger] is_last_part(text::last_segment(s), s, n),
    decreases s.len(),
{
    if s.len() == 0 || s.last() == '/' {
        assert(s.skip(s.len() as int) =~= Seq::<char>::empty());
        assert(is_last_part(text::last_segment(s), s, s.len() as int));
    } else {
        let rest = s.drop_last();
        law_the_last_segment_follows_the_last_slash(rest);
        let n = choose|n: int| #[trigger] is_last_part(text::last_segment(rest), rest, n);
        assert(rest.skip(n).push(s.last()) =~= s.skip(n));
        assert forall|j: int| n <= j < s.len() implies #[trigger] s[j] != '/' by {
            if j < rest.len() {
                assert(rest[j] == s[j]);
            }
        }
        if n > 0 {
            assert(rest[n - 1] == s[n - 1]);
        }
        assert(is_last_part(text::last_segment(s), s, n));
    }
}

/// The value of a numeral, digit by digit.
pub open spec fn spelled(s: Seq<char>) -> int
    decreases s.len(),
{
    if s.len() == 0 {
        0
    } else {
        spelled(s.drop_last()) * 10 + (s.last() as int - '0' as int)
    }
}

/// A number is written in decimal digits, without a zero before it, and they spell it.
pub proof fn law_numbers_are_spelled_out(n: nat)
    ensures
        ({
            let s = number::decimal(n);
            &&& s.len() > 0
            &&& forall|i: int| 0 <= i < s.len() ==> '0' <= #[trigger] s[i] <= '9'
            &&& s.len() > 1 ==> s[0] != '0'
            &&& spelled(s) == n
        }),
    decreases n,
{
    let s = number::decimal(n);
    if n < 10 {
        assert(s.drop_last() =~= Seq::<char>::empty());
        assert(spelled(s) == spelled(s.drop_last()) * 10 + (s.last() as int - '0' as int));
        assert(spelled(s.drop_last()) == 0);
    } else {
        let rest = number::decimal(n / 10);
        law_numbers_are_spelled_out(n / 10);
        assert(s.drop_last() =~= rest);
        assert forall|i: int| 0 <= i < s.len() implies '0' <= #[trigger] s[i] <= '9' by {
            if i < rest.len() {
                assert(s[i] == rest[i]);
            }
        }
        assert(s[0] == rest[0]);
        if n / 10 < 10 {
            assert(rest.len() == 1);
            assert(rest[0] == number::digit_char(n / 10));
        } else {
            assert(rest.len() > 1) by {
                law_numbers_are_spelled_out(n / 10 / 10);
            }
        }
    }
}

proof fn lemma_digits_of(s: Seq<char>)
    requires
        forall|i: int| 0 <= i < s.len() ==> '0' <= #[trigger] s[i] <= '9',
    ensures
        number::digits_value(s) matches Some(v) && v == spelled(s),
    decreases s.len(),
{
    if s.len() > 0 {
        let rest = s.drop_last();
        assert forall|i: int| 0 <= i < rest.len() implies '0' <= #[trigger] rest[i] <= '9' by {
            assert(rest[i] == s[i]);
        }
        assert('0' <= s[s.len() - 1] <= '9');
        lemma_digits_of(rest);
    }
}

proof fn lemma_not_digits(s: Seq<char>, i: int)
    requires
        0 <= i < s.len(),
        !('0' <= s[i] <= '9'),
    ensures
        number::digits_value(s) is None,
    decreases s.len(),
{
    if i < s.len() - 1 {
        lemma_not_digits(s.drop_last(), i);
    }
}

/// What was written as a number reads as that number, with a sign or without, if it is not too
/// large; a text with any other character in it is no number, and neither is one without digits.
pub proof fn law_numbers_are_read_back(n: nat, s: Seq<char>, i: int)
    ensures
        number::i64_value(number::decimal(n)) == if n <= i64::MAX {
            Some(n as i64)
        } else {
            None
        },
        number::i64_value(seq!['-'] + number::decimal(n)) == if -n >= i64::MIN {
            Some((-n) as i64)
        } else {
            None
        },
        number::i64_value(seq!['+'] + number::decimal(n)) == if n <= i64::MAX {
            Some(n as i64)
        } else {
            None
        },
        0 < i < s.len() && !('0' <= s[i] <= '9') ==> number::i64_value(s) is None,
        s.len() > 0 && !('0' <= s[0] <= '9') && s[0] != '-' && s[0] != '+' ==> number::i64_value(
            s,
        ) is None,
        s.len() == 0 || s.len() == 1 && (s[0] == '-' || s[0] == '+') ==> number::i64_value(
            s,
        ) is None,
{
    let d = number::decimal(n);
    law_numbers_are_spelled_out(n);
    lemma_digits_of(d);
    assert('0' <= d[0] <= '9');
    assert((seq!['-'] + d).skip(1) =~= d);
    assert((seq!['+'] + d).skip(1) =~= d);
    if 0 < i < s.len() && !('0' <= s[i] <= '9') {
        lemma_not_digits(s, i);
        assert(s.skip(1)[i - 1] == s[i]);
        lemma_not_digits(s.skip(1), i - 1);
    }
    if s.len() > 0 && !('0' <= s[0] <= '9') {
        lemma_not_digits(s, 0);
    }
}

/// An instant lies as many milliseconds after the epoch as its seconds and the milliseconds begun
/// in them make up, and the instant at so many milliseconds lies there.
pub proof fn law_milliseconds_count(at: Instant, ms: i64)
    ensures
        at.secs * 1_000_000_000 + at.nanos - 1_000_000 < at.millis() * 1_000_000 <= at.secs
            * 1_000_000_000 + at.nanos,
        Instant::at_millis(ms) matches Some(then) ==> {
            &&& then.secs * 1_000_000_000 + then.nanos == ms * 1_000_000
            &&& then.nanos < 1_000_000_000
            &&& then.millis() == ms
        },
{
}

/// Days are counted whole: so many days have gone by once so many times their nanoseconds have, and
/// backwards likewise.
pub proof fn law_days_are_whole(later: Instant, earlier: Instant, days: int)
    ensures
        days > 0 ==> (later.days_since(earlier) >= days <==> later.nanos_since(earlier) >= days
            * 86_400_000_000_000),
        days > 0 ==> (later.days_since(earlier) <= -days <==> later.nanos_since(earlier) <= -days
            * 86_400_000_000_000),
        later.nanos < 1_000_000_000 && earlier.nanos < 1_000_000_000 ==> later.nanos_since(earlier)
            == (later.secs * 1_000_000_000 + later.nanos) - (earlier.secs * 1_000_000_000
            + earlier.nanos),
{
}

} // verus!
