//! Character-sequence helpers shared by the textual address parsers:
//! collecting the characters of a string, trimming white space, splitting
//! on delimiters, and reading unsigned decimal numbers.

use vstd::prelude::*;
use vstd::string::StrSliceExecFns;

verus! {

/// An ASCII decimal digit.
pub open spec fn is_digit(c: char) -> bool {
    48 <= c as u32 <= 57
}

/// Numeric value of an ASCII decimal digit.
pub open spec fn digit_val(c: char) -> int {
    c as u32 - 48
}

/// The white-space characters carrying the Unicode `White_Space`
/// property, the set recognised by Rust's `char::is_whitespace`.
pub open spec fn is_space(c: char) -> bool {
    (0x09 <= c as u32 <= 0x0D) || c as u32 == 0x20 || c as u32 == 0x85 || c as u32 == 0xA0
        || c as u32 == 0x1680 || (0x2000 <= c as u32 <= 0x200A) || c as u32 == 0x2028 || c as u32
        == 0x2029 || c as u32 == 0x202F || c as u32 == 0x205F || c as u32 == 0x3000
}

fn char_is_space(c: char) -> (r: bool)
    ensures
        r == is_space(c),
{
    let u = c as u32;
    (0x09 <= u && u <= 0x0D) || u == 0x20 || u == 0x85 || u == 0xA0 || u == 0x1680 || (0x2000 <= u
        && u <= 0x200A) || u == 0x2028 || u == 0x2029 || u == 0x202F || u == 0x205F || u == 0x3000
}

/// Collects the characters of a string slice into a vector.
pub fn chars_of(s: &str) -> (r: Vec<char>)
    ensures
        r@ == s@,
{
    let n = s.unicode_len();
    let mut v: Vec<char> = Vec::new();
    let mut i: usize = 0;
    while i < n
        invariant
            i <= n,
            n == s@.len(),
            v@ == s@.take(i as int),
        decreases n - i,
    {
        let c = s.get_char(i);
        proof {
            assert(s@.take(i as int + 1) =~= s@.take(i as int).push(s@[i as int]));
        }
        v.push(c);
        i = i + 1;
    }
    proof {
        assert(s@.take(n as int) =~= s@);
    }
    v
}

/// `s` with leading and trailing white space removed.
pub open spec fn spec_trim(s: Seq<char>) -> Seq<char>
    decreases s.len(),
{
    if s.len() == 0 {
        s
    } else if is_space(s[0]) {
        spec_trim(s.skip(1))
    } else if is_space(s.last()) {
        spec_trim(s.drop_last())
    } else {
        s
    }
}

/// Removes leading and trailing white space.
pub fn trim_chars(v: &Vec<char>) -> (r: Vec<char>)
    ensures
        r@ == spec_trim(v@),
{
    proof {
        assert(v@.skip(0) =~= v@);
    }
    let mut lo: usize = 0;
    while lo < v.len() && char_is_space(v[lo])
        invariant
            lo <= v.len(),
            spec_trim(v@) == spec_trim(v@.skip(lo as int)),
        decreases v.len() - lo,
    {
        proof {
            assert(v@.skip(lo as int).skip(1) =~= v@.skip(lo as int + 1));
            assert(v@.skip(lo as int)[0] == v@[lo as int]);
        }
        lo = lo + 1;
    }
    if lo == v.len() {
        proof {
            assert(v@.skip(lo as int) =~= Seq::<char>::empty());
        }
        return Vec::new();
    }
    let ghost t = v@.skip(lo as int);
    let mut hi: usize = v.len() - lo;
    proof {
        assert(t.take(hi as int) =~= t);
    }
    while hi > 1
        invariant
            1 <= hi <= t.len(),
            t == v@.skip(lo as int),
            t.len() == v@.len() - lo,
            lo < v@.len(),
            v@.len() <= usize::MAX,
            !is_space(t[0]),
            spec_trim(v@) == spec_trim(t.take(hi as int)),
        ensures
            1 <= hi <= t.len(),
            hi > 1 ==> !is_space(t[hi as int - 1]),
            spec_trim(v@) == spec_trim(t.take(hi as int)),
        decreases hi,
    {
        proof {
            assert(lo + hi <= v@.len());
        }
        if !char_is_space(v[lo + hi - 1]) {
            proof {
                assert(t[hi as int - 1] == v@[lo as int + hi - 1]);
            }
            break;
        }
        proof {
            assert(t.take(hi as int).drop_last() =~= t.take(hi as int - 1));
            assert(t.take(hi as int).last() == t[hi as int - 1]);
            assert(t[hi as int - 1] == v@[lo as int + hi - 1]);
        }
        hi = hi - 1;
    }
    let ghost kept = t.take(hi as int);
    proof {
        assert(kept[0] == t[0]);
        if hi > 1 {
            assert(kept.last() == t[hi as int - 1]);
        }
        assert(spec_trim(kept) == kept);
    }
    let n = v.len();
    let mut r: Vec<char> = Vec::new();
    let mut i: usize = 0;
    while i < hi
        invariant
            i <= hi,
            hi <= t.len(),
            t == v@.skip(lo as int),
            t.len() == v@.len() - lo,
            lo < v@.len(),
            n == v@.len(),
            kept == t.take(hi as int),
            r@ == kept.take(i as int),
        decreases hi - i,
    {
        proof {
            assert(lo + i < v@.len());
            assert(kept.take(i as int + 1) =~= kept.take(i as int).push(t[i as int]));
            assert(t[i as int] == v@[lo as int + i]);
        }
        r.push(v[lo + i]);
        i = i + 1;
    }
    proof {
        assert(kept.take(hi as int) =~= kept);
    }
    r
}

/// The runs of `s` between occurrences of the separators, in order: what
/// `str::split` yields on the same separators. Splitting an empty
/// sequence gives one empty run; every separator occurrence ends a run.
pub open spec fn spec_split(s: Seq<char>, seps: Seq<char>) -> Seq<Seq<char>>
    decreases s.len(),
{
    if s.len() == 0 {
        seq![Seq::<char>::empty()]
    } else if seps.contains(s[0]) {
        seq![Seq::<char>::empty()] + spec_split(s.skip(1), seps)
    } else {
        prepend_first(spec_split(s.skip(1), seps), seq![s[0]])
    }
}

/// `parts` with `pre` prepended to its first run.
pub open spec fn prepend_first(parts: Seq<Seq<char>>, pre: Seq<char>) -> Seq<Seq<char>> {
    seq![pre + parts[0]] + parts.skip(1)
}

/// Splitting always yields at least one run.
pub proof fn lemma_split_len(s: Seq<char>, seps: Seq<char>)
    ensures
        spec_split(s, seps).len() >= 1,
    decreases s.len(),
{
    if s.len() == 0 {
    } else if seps.contains(s[0]) {
        lemma_split_len(s.skip(1), seps);
    } else {
        lemma_split_len(s.skip(1), seps);
    }
}

fn contains_char(seps: &Vec<char>, c: char) -> (r: bool)
    ensures
        r == seps@.contains(c),
{
    let mut i: usize = 0;
    while i < seps.len()
        invariant
            i <= seps.len(),
            forall|j: int| 0 <= j < i ==> seps@[j] != c,
        decreases seps.len() - i,
    {
        if seps[i] == c {
            return true;
        }
        i = i + 1;
    }
    false
}

/// Splits `v` into the runs between separator occurrences.
pub fn split_chars(v: &Vec<char>, seps: &Vec<char>) -> (r: Vec<Vec<char>>)
    ensures
        r@.len() == spec_split(v@, seps@).len(),
        forall|i: int| 0 <= i < r@.len() ==> r@[i]@ == spec_split(v@, seps@)[i],
{
    let mut done: Vec<Vec<char>> = Vec::new();
    let ghost mut gdone: Seq<Seq<char>> = Seq::empty();
    let mut cur: Vec<char> = Vec::new();
    let mut i: usize = 0;
    proof {
        assert(v@.skip(0) =~= v@);
        lemma_split_len(v@, seps@);
        assert(gdone + prepend_first(spec_split(v@, seps@), cur@) =~~= spec_split(v@, seps@));
    }
    while i < v.len()
        invariant
            i <= v.len(),
            done@.len() == gdone.len(),
            forall|k: int| 0 <= k < gdone.len() ==> done@[k]@ == gdone[k],
            spec_split(v@, seps@) == gdone + prepend_first(
                spec_split(v@.skip(i as int), seps@),
                cur@,
            ),
        decreases v.len() - i,
    {
        let c = v[i];
        proof {
            assert(v@.skip(i as int)[0] == v@[i as int]);
            assert(v@.skip(i as int).skip(1) =~= v@.skip(i as int + 1));
            lemma_split_len(v@.skip(i as int + 1), seps@);
        }
        if contains_char(seps, c) {
            proof {
                let rest = spec_split(v@.skip(i as int + 1), seps@);
                assert(spec_split(v@.skip(i as int), seps@) == seq![Seq::<char>::empty()] + rest);
                assert(prepend_first(seq![Seq::<char>::empty()] + rest, cur@) =~~= seq![cur@]
                    + rest);
                assert(prepend_first(rest, Seq::<char>::empty()) =~~= rest);
                assert(gdone + (seq![cur@] + rest) =~~= (gdone.push(cur@)) + prepend_first(
                    rest,
                    Seq::<char>::empty(),
                ));
            }
            done.push(cur);
            proof {
                gdone = gdone.push(cur@);
            }
            cur = Vec::new();
        } else {
            proof {
                let rest = spec_split(v@.skip(i as int + 1), seps@);
                assert(spec_split(v@.skip(i as int), seps@) == prepend_first(rest, seq![c]));
                assert(cur@ + (seq![c] + rest[0]) =~= (cur@.push(c)) + rest[0]);
                assert(prepend_first(prepend_first(rest, seq![c]), cur@) =~~= prepend_first(
                    rest,
                    cur@.push(c),
                ));
            }
            cur.push(c);
        }
        i = i + 1;
    }
    proof {
        assert(v@.skip(i as int) =~= Seq::<char>::empty());
        assert(spec_split(Seq::<char>::empty(), seps@) == seq![Seq::<char>::empty()]);
        assert(prepend_first(seq![Seq::<char>::empty()], cur@) =~~= seq![cur@]);
        assert(gdone + seq![cur@] =~= gdone.push(cur@));
    }
    done.push(cur);
    done
}

/// Whether every character of `s` is an ASCII decimal digit.
pub open spec fn seq_all_digits(s: Seq<char>) -> bool {
    forall|i: int| 0 <= i < s.len() ==> is_digit(s[i])
}

/// The value of a run of decimal digits, most significant first.
pub open spec fn seq_digits_val(s: Seq<char>) -> int
    decreases s.len(),
{
    if s.len() == 0 {
        0
    } else {
        seq_digits_val(s.drop_last()) * 10 + digit_val(s.last())
    }
}

proof fn lemma_digits_val_nonneg(s: Seq<char>)
    requires
        seq_all_digits(s),
    ensures
        seq_digits_val(s) >= 0,
    decreases s.len(),
{
    if s.len() > 0 {
        assert(seq_all_digits(s.drop_last()));
        lemma_digits_val_nonneg(s.drop_last());
    }
}

proof fn lemma_digits_val_prefix(s: Seq<char>, j: int)
    requires
        0 <= j <= s.len(),
        seq_all_digits(s),
    ensures
        seq_digits_val(s.take(j)) <= seq_digits_val(s),
    decreases s.len() - j,
{
    if j == s.len() {
        assert(s.take(j) =~= s);
    } else {
        assert(s.take(j + 1).drop_last() =~= s.take(j));
        assert(s.take(j + 1).last() == s[j]);
        assert(seq_all_digits(s.take(j)));
        lemma_digits_val_nonneg(s.take(j));
        assert(seq_digits_val(s.take(j + 1)) == seq_digits_val(s.take(j)) * 10 + digit_val(s[j]));
        lemma_digits_val_prefix(s, j + 1);
    }
}

/// What parsing an unsigned decimal integer out of `s` accepts and
/// returns: an optional leading plus sign, then at least one decimal
/// digit, denoting a value of at most `max` — the inputs on which Rust's
/// `str::parse` into an unsigned integer type with ceiling `max` succeeds.
pub open spec fn spec_parse_uint(s: Seq<char>, max: int) -> Option<int> {
    let digits = spec_uint_digits(s);
    if digits.len() > 0 && seq_all_digits(digits) && seq_digits_val(digits) <= max {
        Some(seq_digits_val(digits))
    } else {
        None
    }
}

/// The digit run of a decimal number: the input with an optional leading
/// plus sign removed.
pub open spec fn spec_uint_digits(s: Seq<char>) -> Seq<char> {
    if s.len() > 0 && s[0] == '+' {
        s.skip(1)
    } else {
        s
    }
}

/// Reads an unsigned decimal integer of value at most `max`.
pub fn parse_uint(v: &Vec<char>, max: u32) -> (r: Option<u32>)
    ensures
        r matches Some(x) ==> spec_parse_uint(v@, max as int) == Some(x as int),
        r is None ==> spec_parse_uint(v@, max as int) is None,
{
    let start: usize = if v.len() > 0 && v[0] == '+' {
        1
    } else {
        0
    };
    let ghost digits = spec_uint_digits(v@);
    proof {
        assert(digits.len() == v@.len() - start);
        assert(forall|k: int| 0 <= k < digits.len() ==> digits[k] == v@[k + start]);
    }
    if v.len() == start {
        return None;
    }
    let mut acc: u64 = 0;
    let mut i: usize = start;
    while i < v.len()
        invariant
            start <= i <= v@.len(),
            start <= 1,
            digits == spec_uint_digits(v@),
            digits.len() == v@.len() - start,
            forall|k: int| 0 <= k < digits.len() ==> digits[k] == v@[k + start],
            acc <= max,
            seq_all_digits(digits.take(i - start)),
            acc == seq_digits_val(digits.take(i - start)),
        decreases v.len() - i,
    {
        let c = v[i];
        let u = c as u32;
        if u < 48 || u > 57 {
            proof {
                assert(digits[i - start] == v@[i as int]);
                assert(!is_digit(digits[i - start]));
                assert(!seq_all_digits(digits));
            }
            return None;
        }
        proof {
            let j = i - start;
            assert(digits.take(j + 1).drop_last() =~= digits.take(j));
            assert(digits.take(j + 1).last() == digits[j]);
            assert(digits[j] == v@[i as int]);
        }
        let d = (u - 48) as u64;
        acc = acc * 10 + d;
        if acc > max as u64 {
            proof {
                let j = i - start;
                if seq_all_digits(digits) {
                    lemma_digits_val_prefix(digits, j + 1);
                    assert(seq_digits_val(digits) >= acc > max);
                }
            }
            return None;
        }
        i = i + 1;
    }
    proof {
        assert(digits.take(i - start) =~= digits);
    }
    Some(acc as u32)
}

} // verus!
