//! Reading a bare version out of text, as a manifest or a command line gives it: two or three
//! components separated by dots, each a decimal number.
use vstd::prelude::*;
use vstd::string::StrSliceExecFns;
use crate::text::{decimal, digit_char};
use crate::version::{BareVersion, Version, bare_text, version_text};

verus! {

pub open spec fn is_digit(c: char) -> bool {
    '0' <= c && c <= '9'
}

/// The value of a decimal digit.
pub open spec fn digit_value(c: char) -> nat {
    (c as int - '0' as int) as nat
}

/// The number that a string of decimal digits stands for (leading zeros allowed).
pub open spec fn digits_value(s: Seq<char>) -> nat
    decreases s.len(),
{
    if s.len() == 0 {
        0
    } else {
        digits_value(s.drop_last()) * 10 + digit_value(s.last())
    }
}

pub open spec fn all_digits(s: Seq<char>) -> bool {
    forall|i: int| 0 <= i < s.len() ==> is_digit(#[trigger] s[i])
}

/// A component of a version: one or more decimal digits, naming a number that fits in 64 bits.
pub open spec fn is_number(s: Seq<char>) -> bool {
    s.len() > 0 && all_digits(s) && digits_value(s) <= u64::MAX
}

/// The pieces of `s` between dots, from left to right (one piece where there is no dot).
pub open spec fn components(s: Seq<char>) -> Seq<Seq<char>>
    decreases s.len(),
{
    if s.len() == 0 {
        seq![Seq::empty()]
    } else {
        let prev = components(s.drop_last());
        if s.last() == '.' {
            prev.push(Seq::empty())
        } else {
            prev.update(prev.len() - 1, prev.last().push(s.last()))
        }
    }
}

/// The bare version that `text` names: two or three components, each a number, separated by
/// dots; `None` for any other text.
pub open spec fn parse_bare(text: Seq<char>) -> Option<BareVersion> {
    let cs = components(text);
    if (cs.len() == 2 || cs.len() == 3) && forall|k: int|
        0 <= k < cs.len() ==> is_number(#[trigger] cs[k]) {
        if cs.len() == 2 {
            Some(BareVersion::TwoComponents(digits_value(cs[0]) as u64, digits_value(cs[1]) as u64))
        } else {
            Some(
                BareVersion::ThreeComponents(
                    digits_value(cs[0]) as u64,
                    digits_value(cs[1]) as u64,
                    digits_value(cs[2]) as u64,
                ),
            )
        }
    } else {
        None
    }
}

/// Whether the pieces read so far can still start a bare version: at most three, the finished
/// ones numbers, and the current one digits naming a number that fits in 64 bits.
pub open spec fn readable_so_far(cs: Seq<Seq<char>>) -> bool {
    &&& cs.len() <= 3
    &&& forall|k: int| 0 <= k < cs.len() - 1 ==> is_number(#[trigger] cs[k])
    &&& all_digits(cs.last())
    &&& digits_value(cs.last()) <= u64::MAX
}

proof fn lemma_components_nonempty(s: Seq<char>)
    ensures
        components(s).len() >= 1,
    decreases s.len(),
{
    if s.len() > 0 {
        lemma_components_nonempty(s.drop_last());
    }
}

/// One more character: a dot starts a new piece, anything else extends the last one.
proof fn lemma_components_push(s: Seq<char>, c: char)
    ensures
        components(s).len() >= 1,
        c == '.' ==> components(s.push(c)) == components(s).push(Seq::empty()),
        c != '.' ==> components(s.push(c)) == components(s).update(
            components(s).len() - 1,
            components(s).last().push(c),
        ),
{
    lemma_components_nonempty(s);
    assert(s.push(c).drop_last() =~= s);
}

proof fn lemma_digits_value_push(s: Seq<char>, c: char)
    ensures
        digits_value(s.push(c)) == digits_value(s) * 10 + digit_value(c),
{
    assert(s.push(c).drop_last() =~= s);
}

/// Reads a bare version out of `text`.
pub fn parse_bare_version(text: &str) -> (r: Option<BareVersion>)
    ensures
        r == parse_bare(text@),
{
    let n = text.unicode_len();
    let mut i: usize = 0;
    let mut ok = true;
    let mut count: usize = 1;
    let mut first: u64 = 0;
    let mut second: u64 = 0;
    let mut cur: u64 = 0;
    let mut cur_len: usize = 0;
    proof {
        assert(text@.take(0) =~= Seq::<char>::empty());
    }
    while i < n
        invariant
            n == text@.len(),
            0 <= i <= n,
            cur_len <= i,
            ok == readable_so_far(components(text@.take(i as int))),
            ok ==> ({
                let cs = components(text@.take(i as int));
                &&& cs.len() == count
                &&& cur_len == cs.last().len()
                &&& cur == digits_value(cs.last())
                &&& count >= 2 ==> first == digits_value(cs[0])
                &&& count >= 3 ==> second == digits_value(cs[1])
            }),
        decreases n - i,
    {
        let c = text.get_char(i);
        let ghost s = text@.take(i as int);
        proof {
            assert(text@.take(i + 1) =~= s.push(c));
            lemma_components_push(s, c);
            lemma_digits_value_push(components(s).last(), c);
        }
        let ghost cs = components(s);
        let ghost cs2 = components(s.push(c));
        if ok {
            if c == '.' {
                if cur_len == 0 || count == 3 {
                    ok = false;
                    assert(cs2.len() > 3 || !is_number(cs2[cs.len() - 1]));
                } else {
                    if count == 1 {
                        first = cur;
                    } else {
                        second = cur;
                    }
                    count = count + 1;
                    cur = 0;
                    cur_len = 0;
                    assert(cs2[cs.len() - 1] == cs.last());
                    assert(cs2.last() =~= Seq::<char>::empty());
                    assert(readable_so_far(cs2));
                }
            } else if '0' <= c && c <= '9' {
                let d: u64 = (c as u32 - '0' as u32) as u64;
                assert(d == digit_value(c));
                if cur > (u64::MAX - d) / 10 {
                    ok = false;
                    assert(digits_value(cs2.last()) > u64::MAX);
                } else {
                    cur = cur * 10 + d;
                    cur_len = cur_len + 1;
                    assert(cs2.last() == cs.last().push(c));
                    assert forall|j: int| 0 <= j < cs2.last().len() implies is_digit(
                        #[trigger] cs2.last()[j],
                    ) by {
                        if j < cs.last().len() {
                            assert(cs2.last()[j] == cs.last()[j]);
                        }
                    }
                    assert forall|k: int| 0 <= k < cs2.len() - 1 implies is_number(
                        #[trigger] cs2[k],
                    ) by {
                        assert(cs2[k] == cs[k]);
                    }
                    assert(readable_so_far(cs2));
                }
            } else {
                ok = false;
                assert(!is_digit(cs2.last()[cs2.last().len() - 1]));
            }
        } else {
            proof {
                if c == '.' {
                    if cs.len() <= 3 {
                        if exists|k: int| 0 <= k < cs.len() - 1 && !is_number(#[trigger] cs[k]) {
                            let k = choose|k: int| 0 <= k < cs.len() - 1 && !is_number(#[trigger] cs[k]);
                            assert(cs2[k] == cs[k]);
                        } else {
                            assert(cs2[cs.len() - 1] == cs.last());
                            assert(!is_number(cs2[cs.len() - 1]));
                        }
                    }
                } else {
                    if cs.len() <= 3 {
                        if exists|k: int| 0 <= k < cs.len() - 1 && !is_number(#[trigger] cs[k]) {
                            let k = choose|k: int| 0 <= k < cs.len() - 1 && !is_number(#[trigger] cs[k]);
                            assert(cs2[k] == cs[k]);
                        } else if !all_digits(cs.last()) {
                            let j = choose|j: int| 0 <= j < cs.last().len() && !is_digit(
                                #[trigger] cs.last()[j],
                            );
                            assert(cs2.last()[j] == cs.last()[j]);
                        } else {
                            assert(digits_value(cs2.last()) >= digits_value(cs.last()));
                        }
                    }
                }
            }
        }
        i = i + 1;
    }
    proof {
        assert(text@.take(n as int) =~= text@);
    }
    let ghost cs = components(text@);
    if ok && cur_len > 0 && count >= 2 {
        proof {
            assert forall|k: int| 0 <= k < cs.len() implies is_number(#[trigger] cs[k]) by {
                if k < cs.len() - 1 {
                    assert(is_number(cs[k]));
                }
            }
        }
        if count == 2 {
            Some(BareVersion::TwoComponents(first, cur))
        } else {
            Some(BareVersion::ThreeComponents(first, second, cur))
        }
    } else {
        proof {
            if ok {
                if cur_len == 0 {
                    assert(!is_number(cs[cs.len() - 1]));
                }
            } else if cs.len() <= 3 {
                if !(forall|k: int| 0 <= k < cs.len() - 1 ==> is_number(#[trigger] cs[k])) {
                } else {
                    assert(!is_number(cs[cs.len() - 1]));
                }
            }
        }
        None
    }
}


/// The decimal writing of a number is a string of digits standing for that number.
pub proof fn lemma_decimal_reads_back(n: nat)
    ensures
        decimal(n).len() > 0,
        all_digits(decimal(n)),
        digits_value(decimal(n)) == n,
    decreases n,
{
    if n < 10 {
        let d = decimal(n);
        assert(d.drop_last() =~= Seq::<char>::empty());
        assert(digit_value(digit_char(n)) == n);
        assert(digits_value(Seq::<char>::empty()) == 0);
        assert(digits_value(d) == digits_value(d.drop_last()) * 10 + digit_value(d.last()));
    } else {
        lemma_decimal_reads_back(n / 10);
        let p = decimal(n / 10);
        lemma_digits_value_push(p, digit_char(n % 10));
        assert(digit_value(digit_char(n % 10)) == n % 10);
        assert(decimal(n) == p.push(digit_char(n % 10)));
        assert((n / 10) * 10 + n % 10 == n);
        assert forall|i: int| 0 <= i < decimal(n).len() implies is_digit(#[trigger] decimal(n)[i]) by {
            if i < p.len() {
                assert(decimal(n)[i] == p[i]);
            }
        }
    }
}

/// Appending dot-free text extends the last piece.
proof fn lemma_components_append(p: Seq<char>, s: Seq<char>)
    requires
        forall|i: int| 0 <= i < s.len() ==> s[i] != '.',
    ensures
        components(p).len() >= 1,
        components(p + s) == components(p).update(
            components(p).len() - 1,
            components(p).last() + s,
        ),
    decreases s.len(),
{
    lemma_components_nonempty(p);
    if s.len() == 0 {
        assert(p + s =~= p);
        assert(components(p).last() + s =~= components(p).last());
        assert(components(p).update(components(p).len() - 1, components(p).last())
            =~= components(p));
    } else {
        let t = s.drop_last();
        let c = s.last();
        lemma_components_append(p, t);
        assert(p + s =~= (p + t).push(c));
        lemma_components_push(p + t, c);
        assert((components(p).last() + t).push(c) =~= components(p).last() + s);
        assert(components(p + s) =~= components(p).update(
            components(p).len() - 1,
            components(p).last() + s,
        ));
    }
}

proof fn lemma_decimal_has_no_dot(n: nat)
    ensures
        forall|i: int| 0 <= i < decimal(n).len() ==> decimal(n)[i] != '.',
{
    lemma_decimal_reads_back(n);
    assert forall|i: int| 0 <= i < decimal(n).len() implies decimal(n)[i] != '.' by {
        assert(is_digit(decimal(n)[i]));
    }
}

/// The pieces of `x.y` and of `x.y.z` written in decimal.
proof fn lemma_components_of_dotted(x: nat, y: nat, z: nat)
    ensures
        components(decimal(x) + seq!['.'] + decimal(y)) == seq![decimal(x), decimal(y)],
        components(decimal(x) + seq!['.'] + decimal(y) + seq!['.'] + decimal(z)) == seq![
            decimal(x),
            decimal(y),
            decimal(z),
        ],
{
    lemma_decimal_has_no_dot(x);
    lemma_decimal_has_no_dot(y);
    lemma_decimal_has_no_dot(z);
    let e = Seq::<char>::empty();
    lemma_components_append(e, decimal(x));
    assert(e + decimal(x) =~= decimal(x));
    assert(components(e) =~= seq![e]);
    assert(e + decimal(x) =~= decimal(x));
    assert(components(decimal(x)) =~= seq![decimal(x)]);
    let a = decimal(x) + seq!['.'];
    assert(a =~= decimal(x).push('.'));
    lemma_components_push(decimal(x), '.');
    assert(components(a) =~= seq![decimal(x), e]);
    lemma_components_append(a, decimal(y));
    assert(e + decimal(y) =~= decimal(y));
    let b = a + decimal(y);
    assert(components(b) =~= seq![decimal(x), decimal(y)]);
    let c = b + seq!['.'];
    assert(c =~= b.push('.'));
    lemma_components_push(b, '.');
    assert(components(c) =~= seq![decimal(x), decimal(y), e]);
    lemma_components_append(c, decimal(z));
    assert(e + decimal(z) =~= decimal(z));
    assert(components(c + decimal(z)) =~= seq![decimal(x), decimal(y), decimal(z)]);
}

/// Reading back the way a bare version is written gives that bare version.
pub proof fn lemma_parse_bare_text(b: BareVersion)
    ensures
        parse_bare(bare_text(b)) == Some(b),
{
    match b {
        BareVersion::TwoComponents(x, y) => {
            lemma_components_of_dotted(x as nat, y as nat, 0);
            lemma_decimal_reads_back(x as nat);
            lemma_decimal_reads_back(y as nat);
            let cs = components(bare_text(b));
            assert(forall|k: int| 0 <= k < cs.len() ==> is_number(#[trigger] cs[k]));
        },
        BareVersion::ThreeComponents(x, y, z) => {
            lemma_components_of_dotted(x as nat, y as nat, z as nat);
            lemma_decimal_reads_back(x as nat);
            lemma_decimal_reads_back(y as nat);
            lemma_decimal_reads_back(z as nat);
            let cs = components(bare_text(b));
            assert(bare_text(b) == version_text(Version { major: x, minor: y, patch: z }));
            assert(forall|k: int| 0 <= k < cs.len() ==> is_number(#[trigger] cs[k]));
        },
    }
}

} // verus!
