//! Package identifiers.

use vstd::prelude::*;
use vstd::string::StringSliceAdditionalSpecFns;

verus! {

/// Primary key of the packages table.
#[derive(Clone, Copy, Debug, PartialEq, Eq, Structural, PartialOrd, Ord, Hash)]
pub struct CrateId(pub u32);

/// Whether every byte is an ASCII decimal digit, and there is at least one.
pub open spec fn all_digits(b: Seq<u8>) -> bool {
    b.len() > 0 && forall|i: int| 0 <= i < b.len() ==> 48 <= #[trigger] b[i] <= 57
}

/// The number that a run of decimal digits spells.
pub open spec fn digits_value(b: Seq<u8>) -> nat
    decreases b.len(),
{
    if b.len() == 0 {
        0
    } else {
        digits_value(b.drop_last()) * 10 + (b.last() - 48) as nat
    }
}

/// The digits of an identifier: the text without one optional leading `+`.
pub open spec fn unsigned_digits(b: Seq<u8>) -> Seq<u8> {
    if b.len() > 0 && b[0] == 43 {
        b.drop_first()
    } else {
        b
    }
}

/// The identifier that a text spells, if it is an unsigned decimal number that
/// fits in 32 bits.
pub open spec fn crate_id_spec(b: Seq<u8>) -> Option<CrateId> {
    let d = unsigned_digits(b);
    if all_digits(d) && digits_value(d) <= u32::MAX {
        Some(CrateId(digits_value(d) as u32))
    } else {
        None
    }
}

impl CrateId {
    /// Reads an identifier from its decimal text.
    pub fn parse(s: &str) -> (r: Option<CrateId>)
        ensures
            r == crate_id_spec(s.spec_bytes()),
    {
        let b = s.as_bytes();
        let ghost bs = b@;
        let start: usize = if b.len() > 0 && b[0] == 43 {
            1
        } else {
            0
        };
        let ghost d = unsigned_digits(bs);
        assert(d =~= bs.subrange(start as int, bs.len() as int));
        if start == b.len() {
            return None;
        }
        let cap: u64 = 0x1_0000_0000;
        let mut acc: u64 = 0;
        let mut i: usize = start;
        while i < b.len()
            invariant
                start <= i <= b.len(),
                b@ == bs,
                d == unsigned_digits(bs),
                bs == s.spec_bytes(),
                d =~= bs.subrange(start as int, bs.len() as int),
                forall|j: int| start <= j < i ==> 48 <= #[trigger] bs[j] <= 57,
                acc as int == if digits_value(bs.subrange(start as int, i as int)) < cap {
                    digits_value(bs.subrange(start as int, i as int)) as int
                } else {
                    cap as int
                },
                cap == 0x1_0000_0000,
            decreases b.len() - i,
        {
            let c = b[i];
            if c < 48 || c > 57 {
                assert(d[i - start] == c);
                return None;
            }
            let ghost prev = bs.subrange(start as int, i as int);
            let ghost next = bs.subrange(start as int, i + 1 as int);
            assert(next.drop_last() =~= prev);
            let digit: u64 = (c - 48) as u64;
            if acc >= cap {
                assert(digits_value(next) >= cap) by (nonlinear_arith)
                    requires
                        digits_value(next) == digits_value(prev) * 10 + digit,
                        digits_value(prev) >= cap,
                ;
                acc = cap;
            } else {
                let v = acc * 10 + digit;
                acc = if v < cap {
                    v
                } else {
                    cap
                };
            }
            i = i + 1;
        }
        assert(bs.subrange(start as int, i as int) =~= d);
        if acc < cap {
            Some(CrateId(acc as u32))
        } else {
            None
        }
    }
}

} // verus!
