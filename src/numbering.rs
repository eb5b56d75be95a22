//! Dotted section numbers ("1.2.3") read from headings.

use vstd::prelude::*;

verus! {

/// `s` cut at each `.`, as `str::split('.')` gives it (always at least one part).
pub open spec fn split_dots(s: Seq<char>) -> Seq<Seq<char>>
    decreases s.len(),
{
    if s.len() == 0 {
        seq![Seq::<char>::empty()]
    } else {
        let p = split_dots(s.drop_last());
        if s.last() == '.' {
            p.push(Seq::<char>::empty())
        } else {
            p.update(p.len() - 1, p.last().push(s.last()))
        }
    }
}

proof fn lemma_split_nonempty(s: Seq<char>)
    ensures
        split_dots(s).len() >= 1,
    decreases s.len(),
{
    if s.len() > 0 {
        lemma_split_nonempty(s.drop_last());
    }
}

pub open spec fn is_ascii_digit(c: char) -> bool {
    '0' <= c <= '9'
}

/// The value of a run of ASCII digits.
pub open spec fn digits_value(s: Seq<char>) -> nat
    decreases s.len(),
{
    if s.len() == 0 {
        0
    } else {
        digits_value(s.drop_last()) * 10 + (s.last() as nat - '0' as nat) as nat
    }
}

/// `u32::from_str` on `s`: an optional `+`, then one or more ASCII digits whose
/// value fits in a `u32`.
pub open spec fn parse_u32(s: Seq<char>) -> Option<u32> {
    if s.len() > 0 && s[0] == '+' {
        parse_digits(s.drop_first())
    } else {
        parse_digits(s)
    }
}

/// One or more ASCII digits whose value fits in a `u32`.
pub open spec fn parse_digits(d: Seq<char>) -> Option<u32> {
    if d.len() > 0 && (forall|i: int| 0 <= i < d.len() ==> is_ascii_digit(#[trigger] d[i]))
        && digits_value(d) <= u32::MAX {
        Some(digits_value(d) as u32)
    } else {
        None
    }
}

/// The parts that parse, in order; the others are dropped.
pub open spec fn parse_parts(parts: Seq<Seq<char>>) -> Seq<u32>
    decreases parts.len(),
{
    if parts.len() == 0 {
        Seq::<u32>::empty()
    } else {
        let rest = parse_parts(parts.drop_last());
        match parse_u32(parts.last()) {
            Some(n) => rest.push(n),
            None => rest,
        }
    }
}

/// The numbers of a dotted run such as `1.2.3`.
pub open spec fn dotted_numbers(s: Seq<char>) -> Seq<u32> {
    parse_parts(split_dots(s))
}

proof fn lemma_digits_value_grows(s: Seq<char>, i: int)
    requires
        0 <= i <= s.len(),
    ensures
        digits_value(s.take(i)) <= digits_value(s),
    decreases s.len() - i,
{
    if i < s.len() {
        lemma_digits_value_grows(s.drop_last(), i);
        assert(s.drop_last().take(i) == s.take(i));
    } else {
        assert(s.take(i) == s);
    }
}

/// Parses `s` as `u32::from_str` does.
pub fn parse_number(s: &[char]) -> (r: Option<u32>)
    ensures
        r == parse_u32(s@),
{
    let start: usize = if s.len() > 0 && s[0] == '+' {
        1
    } else {
        0
    };
    let ghost d = if s@.len() > 0 && s@[0] == '+' {
        s@.drop_first()
    } else {
        s@
    };
    assert(d == s@.subrange(start as int, s@.len() as int));
    assert(parse_u32(s@) == parse_digits(d));
    if start >= s.len() {
        return None;
    }
    let mut value: u64 = 0;
    let mut i: usize = start;
    while i < s.len()
        invariant
            start <= i <= s@.len(),
            d == s@.subrange(start as int, s@.len() as int),
            parse_u32(s@) == parse_digits(d),
            d.len() > 0,
            forall|k: int| 0 <= k < i - start ==> is_ascii_digit(#[trigger] d[k]),
            value == digits_value(d.take(i - start)),
            value <= u32::MAX,
        decreases s@.len() - i,
    {
        let c = s[i];
        if !('0' <= c && c <= '9') {
            assert(!is_ascii_digit(d[i - start]));
            assert(!(forall|k: int| 0 <= k < d.len() ==> is_ascii_digit(#[trigger] d[k])));
            assert(parse_digits(d) is None);
            return None;
        }
        let ghost t = d.take(i + 1 - start);
        assert(t.drop_last() == d.take(i - start));
        assert(t.last() == c);
        value = value * 10 + (c as u64 - '0' as u64);
        assert(value == digits_value(t));
        i = i + 1;
        if value > u32::MAX as u64 {
            proof {
                lemma_digits_value_grows(d, i - start);
                assert(digits_value(d) > u32::MAX);
                assert(parse_digits(d) is None);
            }
            return None;
        }
    }
    assert(d.take(d.len() as int) == d);
    Some(value as u32)
}

/// The numbers of the dotted run `s`: split at each `.`, keep the parts that parse.
pub fn parse_dotted(s: &[char]) -> (r: Vec<u32>)
    ensures
        r@ == dotted_numbers(s@),
{
    let mut done: Vec<u32> = Vec::new();
    let mut cur: Vec<char> = Vec::new();
    let ghost parts: Seq<Seq<char>> = Seq::empty();
    let mut i: usize = 0;
    while i < s.len()
        invariant
            i <= s@.len(),
            split_dots(s@.take(i as int)) == parts.push(cur@),
            done@ == parse_parts(parts),
        decreases s@.len() - i,
    {
        let c = s[i];
        let ghost prev = s@.take(i as int);
        assert(s@.take(i + 1).drop_last() == prev);
        assert(s@.take(i + 1).last() == c);
        if c == '.' {
            let n = parse_number(cur.as_slice());
            match n {
                Some(v) => done.push(v),
                None => {},
            }
            proof {
                assert(parts.push(cur@).drop_last() == parts);
                parts = parts.push(cur@);
            }
            cur = Vec::new();
        } else {
            cur.push(c);
            proof {
                lemma_split_nonempty(prev);
            }
        }
        i = i + 1;
    }
    let n = parse_number(cur.as_slice());
    match n {
        Some(v) => done.push(v),
        None => {},
    }
    assert(s@.take(s@.len() as int) == s@);
    assert(parts.push(cur@).drop_last() == parts);
    done
}

/// Numbering continues from `prev` to `curr`: same depth, the same leading
/// components, and a last component one higher.
pub open spec fn continues(prev: Seq<u32>, curr: Seq<u32>) -> bool {
    &&& prev.len() == curr.len()
    &&& prev.len() > 0
    &&& curr.last() as int == prev.last() as int + 1
    &&& prev.drop_last() == curr.drop_last()
}

} // verus!
