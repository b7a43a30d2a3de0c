//! Counts of classes, properties and individuals in a loaded ontology.

use vstd::prelude::*;
use crate::text::{to_chars, trim, trim_bounds};

verus! {

/// Statistics about the loaded ontology.
#[derive(Debug, Clone, Copy, PartialEq, Eq, Structural)]
pub struct OntologyStats {
    /// Number of classes in the ontology.
    pub class_count: u32,
    /// Number of properties in the ontology.
    pub property_count: u32,
    /// Number of individuals in the ontology.
    pub individual_count: u32,
}

/// The value of the decimal digits `s`.
pub open spec fn digits_value(s: Seq<char>) -> int
    decreases s.len(),
{
    if s.len() == 0 {
        0
    } else {
        digits_value(s.drop_last()) * 10 + (s.last() as int - '0' as int)
    }
}

pub open spec fn is_digit(c: char) -> bool {
    '0' <= c && c <= '9'
}

pub open spec fn all_digits(s: Seq<char>) -> bool {
    forall|i: int| 0 <= i < s.len() ==> is_digit(#[trigger] s[i])
}

/// What `str::parse::<u32>` gives: an optional `+`, then one or more
/// decimal digits whose value fits in `u32`.
pub open spec fn parse_u32(s: Seq<char>) -> Option<u32> {
    parse_digits(
        if s.len() > 0 && s[0] == '+' {
            s.drop_first()
        } else {
            s
        },
    )
}

/// One or more decimal digits whose value fits in `u32`.
pub open spec fn parse_digits(d: Seq<char>) -> Option<u32> {
    if d.len() > 0 && all_digits(d) && digits_value(d) <= u32::MAX {
        Some(digits_value(d) as u32)
    } else {
        None
    }
}

/// The count that a `?count` value gives: the value, trimmed, read as an
/// unsigned integer; zero where there is no value or it is no such integer.
pub open spec fn count_of_value(value: Option<Seq<char>>) -> u32 {
    match value {
        Some(t) => match parse_u32(trim(t)) {
            Some(n) => n,
            None => 0,
        },
        None => 0,
    }
}

/// The characters of an optional string.
pub open spec fn opt_text(v: Option<String>) -> Option<Seq<char>> {
    match v {
        Some(s) => Some(s@),
        None => None,
    }
}

proof fn lemma_digits_value_nonneg(s: Seq<char>)
    requires
        all_digits(s),
    ensures
        digits_value(s) >= 0,
    decreases s.len(),
{
    if s.len() > 0 {
        assert(all_digits(s.drop_last()));
        lemma_digits_value_nonneg(s.drop_last());
        assert(is_digit(s[s.len() - 1]));
    }
}

proof fn lemma_digits_value_prefix(s: Seq<char>, i: int)
    requires
        all_digits(s),
        0 <= i <= s.len(),
    ensures
        digits_value(s.take(i)) <= digits_value(s),
    decreases s.len(),
{
    if i < s.len() {
        assert(all_digits(s.drop_last()));
        assert(s.drop_last().take(i) =~= s.take(i));
        lemma_digits_value_prefix(s.drop_last(), i);
        lemma_digits_value_nonneg(s.drop_last());
        assert(is_digit(s[s.len() - 1]));
    } else {
        assert(s.take(i) =~= s);
    }
}

/// Reads `s[lo..hi]` as `str::parse::<u32>` does.
pub fn parse_u32_exec(s: &Vec<char>, lo: usize, hi: usize) -> (r: Option<u32>)
    requires
        lo <= hi <= s.len(),
    ensures
        r == parse_u32(s@.subrange(lo as int, hi as int)),
{
    let ghost t = s@.subrange(lo as int, hi as int);
    let mut start: usize = lo;
    if lo < hi && s[lo] == '+' {
        start = lo + 1;
    }
    let ghost d = s@.subrange(start as int, hi as int);
    assert(lo < hi && s[lo as int] == '+' ==> d =~= t.drop_first());
    assert(!(lo < hi && s[lo as int] == '+') ==> d =~= t);
    if start == hi {
        return None;
    }
    let mut acc: u64 = 0;
    let mut i: usize = start;
    while i < hi
        invariant
            start <= i <= hi <= s.len(),
            d == s@.subrange(start as int, hi as int),
            parse_u32(s@.subrange(lo as int, hi as int)) == parse_digits(d),
            all_digits(d.take(i - start)),
            acc == digits_value(d.take(i - start)),
            acc <= u32::MAX,
        decreases hi - i,
    {
        let c = s[i];
        if !('0' <= c && c <= '9') {
            assert(!is_digit(d[i - start]));
            return None;
        }
        assert(d.take(i - start + 1).drop_last() =~= d.take(i - start));
        assert(d.take(i - start + 1).last() == c);
        assert(all_digits(d.take(i - start + 1)));
        let digit = (c as u32 - '0' as u32) as u64;
        acc = acc * 10 + digit;
        i += 1;
        if acc > u32::MAX as u64 {
            proof {
                if all_digits(d) {
                    lemma_digits_value_prefix(d, i - start);
                }
            }
            return None;
        }
    }
    assert(d.take(i - start) =~= d);
    Some(acc as u32)
}

/// The count that a `?count` value gives.
pub fn count_from_value(value: &Option<String>) -> (r: u32)
    ensures
        r == count_of_value(opt_text(*value)),
{
    match value {
        Some(text) => {
            let c = to_chars(text.as_str());
            let (a, b) = trim_bounds(&c, 0, c.len());
            assert(c@.subrange(0, c.len() as int) =~= c@);
            match parse_u32_exec(&c, a, b) {
                Some(n) => n,
                None => 0,
            }
        },
        None => 0,
    }
}

impl Default for OntologyStats {
    fn default() -> (r: Self)
        ensures
            r.class_count == 0,
            r.property_count == 0,
            r.individual_count == 0,
    {
        OntologyStats::new()
    }
}

impl OntologyStats {
    /// All counts zero.
    pub fn new() -> (r: Self)
        ensures
            r.class_count == 0,
            r.property_count == 0,
            r.individual_count == 0,
    {
        OntologyStats { class_count: 0, property_count: 0, individual_count: 0 }
    }

    /// The statistics that the `?count` values of the class, property and
    /// individual count queries give, each read on its own.
    pub fn from_count_values(
        classes: &Option<String>,
        properties: &Option<String>,
        individuals: &Option<String>,
    ) -> (r: Self)
        ensures
            r.class_count == count_of_value(opt_text(*classes)),
            r.property_count == count_of_value(opt_text(*properties)),
            r.individual_count == count_of_value(opt_text(*individuals)),
    {
        let mut stats = OntologyStats::new();
        stats.class_count = count_from_value(classes);
        stats.property_count = count_from_value(properties);
        stats.individual_count = count_from_value(individuals);
        stats
    }

    /// The sum of the three counts.
    pub fn total_entities(&self) -> (r: u64)
        ensures
            r == self.class_count + self.property_count + self.individual_count,
    {
        self.class_count as u64 + self.property_count as u64 + self.individual_count as u64
    }
}

} // verus!
