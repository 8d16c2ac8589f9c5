//! Output-path template resolution. A template is a byte string holding
//! any number of `{n}` placeholders; resolving it against a frame index
//! replaces each placeholder with the index's decimal digits. A brace
//! that does not form a `{n}` placeholder makes the template malformed,
//! which is a fatal per-frame error.

use vstd::prelude::*;

verus! {

/// The byte `{`, opening a placeholder.
pub const OPEN_BRACE: u8 = 123;

/// The byte `n`, the one placeholder name: the frame index.
pub const INDEX_NAME: u8 = 110;

/// The byte `}`, closing a placeholder.
pub const CLOSE_BRACE: u8 = 125;

/// The byte `0`; decimal digits are `48..=57`.
pub const DIGIT_ZERO: u8 = 48;

/// A malformed template: a brace that does not form a `{n}` placeholder.
#[derive(Clone, Copy, PartialEq, Eq, Structural, Debug)]
pub struct TemplateError;

/// The decimal digits of `n`, most significant first, as ASCII bytes.
pub open spec fn decimal_digits(n: nat) -> Seq<u8>
    decreases n,
{
    if n < 10 {
        seq![(DIGIT_ZERO + n) as u8]
    } else {
        decimal_digits(n / 10).push((DIGIT_ZERO + n % 10) as u8)
    }
}

/// A well-formed decimal rendering: at least one byte, every byte an
/// ASCII digit, and no leading zero except for the number zero itself.
pub open spec fn digits_wf(s: Seq<u8>) -> bool {
    &&& s.len() > 0
    &&& forall|i: int| 0 <= i < s.len() ==> DIGIT_ZERO <= #[trigger] s[i] <= DIGIT_ZERO + 9
    &&& s.len() > 1 ==> s[0] != DIGIT_ZERO
}

/// The number a digit string denotes, read most significant first.
pub open spec fn digits_value(s: Seq<u8>) -> int
    decreases s.len(),
{
    if s.len() == 0 {
        0
    } else {
        10 * digits_value(s.drop_last()) + (s.last() - DIGIT_ZERO)
    }
}

/// `decimal_digits(n)` really renders `n` in decimal: it is a well-formed
/// digit string, and reading it back yields `n` — so distinct frame
/// indices always render to distinct placeholder substitutions.
pub proof fn lemma_decimal_digits_value(n: nat)
    ensures
        digits_wf(decimal_digits(n)),
        digits_value(decimal_digits(n)) == n,
    decreases n,
{
    if n < 10 {
        let s = decimal_digits(n);
        assert((DIGIT_ZERO + n) as u8 == DIGIT_ZERO + n);
        assert(s == seq![(DIGIT_ZERO + n) as u8]);
        assert(s.drop_last() =~= Seq::<u8>::empty());
        assert(digits_value(Seq::<u8>::empty()) == 0);
        assert(s[0] == DIGIT_ZERO + n);
    } else {
        lemma_decimal_digits_value(n / 10);
        let prefix = decimal_digits(n / 10);
        let s = decimal_digits(n);
        assert((DIGIT_ZERO + n % 10) as u8 == DIGIT_ZERO + n % 10);
        assert(s == prefix.push((DIGIT_ZERO + n % 10) as u8));
        assert(s.drop_last() =~= prefix);
        assert(s.last() == DIGIT_ZERO + n % 10);
        assert(n / 10 >= 1 && 10 * (n / 10) + n % 10 == n) by (nonlinear_arith)
            requires
                n >= 10,
        ;
        assert forall|i: int| 0 <= i < s.len() implies DIGIT_ZERO <= #[trigger] s[i] <= DIGIT_ZERO
            + 9 by {
            if i < prefix.len() {
                assert(DIGIT_ZERO <= prefix[i] <= DIGIT_ZERO + 9);
            }
        }
        assert(s[0] == prefix[0]);
        if prefix.len() == 1 {
            assert(prefix.drop_last() =~= Seq::<u8>::empty());
            assert(digits_value(Seq::<u8>::empty()) == 0);
            assert(prefix[0] - DIGIT_ZERO == digits_value(prefix));
        }
    }
}

/// The template resolved against frame index `n`: each `{n}` placeholder
/// replaced by the index's decimal digits, every other byte kept as it
/// stands. `None` when a brace does not form a `{n}` placeholder.
pub open spec fn substitute(t: Seq<u8>, n: nat) -> Option<Seq<u8>>
    decreases t.len(),
{
    if t.len() == 0 {
        Some(Seq::empty())
    } else if t[0] == OPEN_BRACE {
        if t.len() >= 3 && t[1] == INDEX_NAME && t[2] == CLOSE_BRACE {
            match substitute(t.skip(3), n) {
                Some(rest) => Some(decimal_digits(n) + rest),
                None => None,
            }
        } else {
            None
        }
    } else if t[0] == CLOSE_BRACE {
        None
    } else {
        match substitute(t.skip(1), n) {
            Some(rest) => Some(seq![t[0]] + rest),
            None => None,
        }
    }
}

/// A template that holds no brace at all resolves, for every frame
/// index, to exactly itself: with no placeholder the resolved path does
/// not vary with the index (so concurrent frames would then share one
/// output path — the caller's configuration choice, not guarded here).
pub proof fn lemma_static_template(t: Seq<u8>, n: nat)
    requires
        forall|i: int| 0 <= i < t.len() ==> t[i] != OPEN_BRACE && t[i] != CLOSE_BRACE,
    ensures
        substitute(t, n) == Some(t),
    decreases t.len(),
{
    if t.len() == 0 {
        assert(t =~= Seq::<u8>::empty());
    } else {
        assert forall|i: int| 0 <= i < t.skip(1).len() implies t.skip(1)[i] != OPEN_BRACE && t.skip(
            1,
        )[i] != CLOSE_BRACE by {
            assert(t.skip(1)[i] == t[i + 1]);
        }
        lemma_static_template(t.skip(1), n);
        assert(seq![t[0]] + t.skip(1) =~= t);
    }
}

/// The decimal digits of the frame index, most significant first.
pub fn decimal_bytes(n: u64) -> (out: Vec<u8>)
    ensures
        out@ == decimal_digits(n as nat),
{
    let mut digits: Vec<u8> = Vec::new();
    let mut m: u64 = n;
    while m >= 10
        invariant
            decimal_digits(n as nat) == decimal_digits(m as nat) + digits@,
        decreases m,
    {
        let ghost prev = digits@;
        let d: u8 = (m % 10) as u8;
        digits.insert(0, DIGIT_ZERO + d);
        proof {
            assert(digits@ =~= seq![(DIGIT_ZERO + d) as u8] + prev);
            assert(decimal_digits(m as nat) == decimal_digits((m as nat) / 10).push(
                (DIGIT_ZERO + (m as nat) % 10) as u8,
            ));
            assert(decimal_digits((m / 10) as nat) + digits@ =~= decimal_digits(n as nat));
        }
        m = m / 10;
    }
    let ghost prev = digits@;
    digits.insert(0, DIGIT_ZERO + (m as u8));
    proof {
        assert(decimal_digits(m as nat) == seq![(DIGIT_ZERO + m) as u8]);
        assert(digits@ =~= seq![(DIGIT_ZERO + m) as u8] + prev);
        assert(digits@ =~= decimal_digits(n as nat));
    }
    digits
}

/// Resolves the output-path template against frame index `n`: each `{n}`
/// placeholder becomes the index's decimal digits; a malformed template
/// is refused, never patched into a partial or default path.
pub fn resolve_template(template: &[u8], n: u64) -> (r: Result<Vec<u8>, TemplateError>)
    ensures
        r is Ok <==> substitute(template@, n as nat) is Some,
        r is Ok ==> r.unwrap()@ == substitute(template@, n as nat).unwrap(),
{
    let len: usize = template.len();
    let mut out: Vec<u8> = Vec::new();
    let mut i: usize = 0;
    proof {
        assert(template@.skip(0) =~= template@);
        if substitute(template@, n as nat) is Some {
            assert(substitute(template@, n as nat).unwrap() =~= out@ + substitute(
                template@.skip(0),
                n as nat,
            ).unwrap());
        }
    }
    while i < len
        invariant
            i <= len,
            len == template@.len(),
            substitute(template@, n as nat) is Some <==> substitute(
                template@.skip(i as int),
                n as nat,
            ) is Some,
            substitute(template@, n as nat) is Some ==> substitute(
                template@,
                n as nat,
            ).unwrap() == out@ + substitute(template@.skip(i as int), n as nat).unwrap(),
        decreases len - i,
    {
        let ghost whole = substitute(template@, n as nat);
        let ghost suffix = template@.skip(i as int);
        proof {
            assert(suffix[0] == template@[i as int]);
            assert(suffix.len() == len - i);
        }
        let c: u8 = template[i];
        if c == OPEN_BRACE {
            if len - i >= 3 && template[i + 1] == INDEX_NAME && template[i + 2] == CLOSE_BRACE {
                proof {
                    assert(suffix[1] == template@[i + 1] && suffix[2] == template@[i + 2]);
                    assert(suffix.skip(3) =~= template@.skip(i as int + 3));
                }
                let ghost prev = out@;
                let mut ds = decimal_bytes(n);
                out.append(&mut ds);
                proof {
                    if whole is Some {
                        assert(whole.unwrap() =~= out@ + substitute(
                            template@.skip(i as int + 3),
                            n as nat,
                        ).unwrap());
                    }
                }
                i = i + 3;
            } else {
                proof {
                    assert(substitute(suffix, n as nat) is None);
                }
                return Err(TemplateError);
            }
        } else if c == CLOSE_BRACE {
            proof {
                assert(substitute(suffix, n as nat) is None);
            }
            return Err(TemplateError);
        } else {
            proof {
                assert(suffix.skip(1) =~= template@.skip(i as int + 1));
            }
            out.push(c);
            proof {
                if whole is Some {
                    assert(whole.unwrap() =~= out@ + substitute(
                        template@.skip(i as int + 1),
                        n as nat,
                    ).unwrap());
                }
            }
            i = i + 1;
        }
    }
    proof {
        assert(template@.skip(len as int) =~= Seq::<u8>::empty());
        if substitute(template@, n as nat) is Some {
            assert(substitute(template@, n as nat).unwrap() =~= out@);
        }
    }
    Ok(out)
}

} // verus!
