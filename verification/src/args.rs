use vstd::prelude::*;
use vstd::string::*;

use crate::text::all_digits;
use crate::text::digit_val;
use crate::text::digits_val;
use crate::text::digits_value;
use crate::text::is_digit_char;
use crate::text::lemma_digits_val_bound;
use crate::text::lemma_digits_val_split;
use crate::text::lemma_pow10_add;
use crate::text::lemma_pow10_mono;
use crate::text::lemma_pow10_values;
use crate::text::pow10;
use crate::text::range_all_digits;

verus! {

/// A validated CPU allowance, held exactly as the CFS quota it stands for:
/// a share of `s` CPUs is `s * 100000` microseconds of run time per
/// `100000`-microsecond period, so `quota_us` is the share in units of
/// one hundred-thousandth of a CPU, with nothing lost to rounding.
#[derive(Clone, Copy, Debug, PartialEq, Eq, Structural)]
pub struct CpuShare {
    pub quota_us: u64,
}

/// A validated resource request: an optional CPU share, an optional memory
/// limit string, and the command to run under those limits.
#[derive(Debug)]
pub struct ResourceRequest {
    pub cpus: Option<CpuShare>,
    pub memory: Option<String>,
    pub commands: Vec<String>,
}

impl ResourceRequest {
    /// The memory limit as a character sequence, if one was requested.
    pub open spec fn memory_view(self) -> Option<Seq<char>> {
        match self.memory {
            Option::Some(m) => Option::Some(m@),
            Option::None => Option::None,
        }
    }

    /// A request is well formed when it has a command to run and any memory
    /// limit it carries passed validation.
    pub open spec fn wf(self) -> bool {
        &&& self.commands@.len() > 0
        &&& (self.memory matches Option::Some(m) ==> valid_memory_string(m@))
    }
}

/// The units a memory limit string may close with.
pub open spec fn mem_unit_char(c: char) -> bool {
    c == 'k' || c == 'K' || c == 'm' || c == 'M' || c == 'g' || c == 'G'
}

/// A memory limit string is one or more digits followed by one unit
/// character.
pub open spec fn valid_memory_string(s: Seq<char>) -> bool {
    &&& s.len() >= 2
    &&& all_digits(s.subrange(0, s.len() - 1))
    &&& mem_unit_char(s.last())
}

/// The complaint `memory_parser` raises for each kind of malformed string.
pub open spec fn memory_error_seq(s: Seq<char>) -> Seq<char> {
    if s.len() == 0 {
        "invalid memory setting"@
    } else if !all_digits(s.subrange(0, s.len() - 1)) {
        "invalid memory setting"@
    } else if is_digit_char(s.last()) {
        "missing unit"@
    } else if !mem_unit_char(s.last()) {
        "invalid memory unit"@
    } else {
        "invalid memory setting"@
    }
}

/// Validates a memory limit string: one or more decimal digits followed by a
/// unit in `{k, K, m, M, g, G}`. A valid string is returned unchanged, so
/// what the kernel later receives is exactly what was requested. This is
/// pure validation: nothing is written anywhere on any input, well formed or
/// not — a malformed string is refused before any plan that could touch the
/// kernel interface exists.
pub fn memory_parser(s: &str) -> (r: Result<String, String>)
    ensures
        r is Ok <==> valid_memory_string(s@),
        r matches Ok(m) ==> m@ == s@,
        r matches Err(e) ==> e@ == memory_error_seq(s@),
{
    let len = s.unicode_len();
    if len == 0 {
        return Err(String::from_str("invalid memory setting"));
    }
    if !range_all_digits(s, 0, len - 1) {
        return Err(String::from_str("invalid memory setting"));
    }
    let unit = s.get_char(len - 1);
    let u = unit as u32;
    if 48 <= u && u <= 57 {
        return Err(String::from_str("missing unit"));
    }
    if !(unit == 'k' || unit == 'K' || unit == 'm' || unit == 'M' || unit == 'g' || unit == 'G') {
        return Err(String::from_str("invalid memory unit"));
    }
    if len < 2 {
        return Err(String::from_str("invalid memory setting"));
    }
    Ok(s.to_owned())
}

/// The index of the first dot of `s`, or its length when it has none.
pub open spec fn first_dot(s: Seq<char>) -> int
    decreases s.len(),
{
    if s.len() == 0 {
        0
    } else if s[0] == '.' {
        0
    } else {
        1 + first_dot(s.subrange(1, s.len() as int))
    }
}

pub proof fn lemma_first_dot(s: Seq<char>)
    ensures
        0 <= first_dot(s) <= s.len(),
        first_dot(s) < s.len() ==> s[first_dot(s)] == '.',
        forall|i: int| 0 <= i < first_dot(s) ==> s[i] != '.',
    decreases s.len(),
{
    if s.len() == 0 {
    } else if s[0] == '.' {
    } else {
        let sub = s.subrange(1, s.len() as int);
        lemma_first_dot(sub);
        assert(first_dot(s) < s.len() ==> s[first_dot(s)] == sub[first_dot(sub)]);
        assert forall|i: int| 0 <= i < first_dot(s) implies s[i] != '.' by {
            if i >= 1 {
                assert(s[i] == sub[i - 1]);
            }
        }
    }
}

fn find_first_dot(s: &str) -> (p: usize)
    ensures
        p as int == first_dot(s@),
{
    let len = s.unicode_len();
    let mut i: usize = 0;
    while i < len
        invariant
            i <= len,
            len == s@.len(),
            forall|j: int| 0 <= j < i ==> s@[j] != '.',
        decreases len - i,
    {
        if s.get_char(i) == '.' {
            proof {
                lemma_first_dot(s@);
            }
            return i;
        }
        i = i + 1;
    }
    proof {
        lemma_first_dot(s@);
    }
    len
}

/// The integer digits of a CPU share string: everything before its dot.
pub open spec fn int_part(s: Seq<char>) -> Seq<char> {
    s.subrange(0, first_dot(s))
}

/// The fractional digits of a CPU share string: everything after its dot.
pub open spec fn frac_part(s: Seq<char>) -> Seq<char> {
    if first_dot(s) == s.len() {
        Seq::<char>::empty()
    } else {
        s.subrange(first_dot(s) + 1, s.len() as int)
    }
}

/// A CPU share string is digits with at most one dot among them: up to
/// thirteen integer digits (possibly none, as in a leading-dot fraction),
/// fractional digits of any number, and at least one digit in all.
pub open spec fn valid_cpus_string(s: Seq<char>) -> bool {
    &&& first_dot(s) <= 13
    &&& all_digits(int_part(s))
    &&& all_digits(frac_part(s))
    &&& int_part(s).len() + frac_part(s).len() >= 1
}

/// The fractional digits that the quota can represent: the first five, since
/// the quota counts hundred-thousandths of a CPU.
pub open spec fn frac_head(s: Seq<char>) -> Seq<char> {
    if frac_part(s).len() <= 5 {
        frac_part(s)
    } else {
        frac_part(s).subrange(0, 5)
    }
}

/// Whether the digits beyond the quota's resolution round it up: the cut-off
/// tail `0.d6 d7 ...` is at least one half exactly when `d6` is five or more
/// (ties round up).
pub open spec fn rounds_up(s: Seq<char>) -> bool {
    frac_part(s).len() > 5 && digit_val(frac_part(s)[5]) >= 5
}

/// The CFS quota a share string stands for: the denoted number of CPUs times
/// `100000`, rounded half-up to an integer. Up to five fractional digits the
/// product is exact (see `law_cpu_quota_exact`); beyond them only the
/// sixth digit can tip the quota up by one.
pub open spec fn cpus_quota(s: Seq<char>) -> nat {
    digits_val(int_part(s)) * 100000 + digits_val(frac_head(s)) * pow10(
        (5 - frac_head(s).len()) as nat,
    ) + if rounds_up(s) {
        1
    } else {
        0nat
    }
}

/// The complaint `cpus_parser` raises: one for shape, one for size.
pub open spec fn cpus_error_seq(s: Seq<char>) -> Seq<char> {
    if !valid_cpus_string(s) {
        s + " is not a valid decimal"@
    } else {
        "must be greater than 0.01"@
    }
}

/// For shares within the quota's resolution — at most five fractional
/// digits — the derived quota is exactly the denoted share scaled by
/// `100000`: `quota * 10^k == (I * 10^k + F) * 100000`, where `I` and `F`
/// are the integer and fractional digit values and `k` counts fractional
/// digits. Being an integer already, the product equals its own rounding.
pub proof fn law_cpu_quota_exact(s: Seq<char>)
    requires
        valid_cpus_string(s),
        frac_part(s).len() <= 5,
    ensures
        cpus_quota(s) * pow10(frac_part(s).len()) == (digits_val(int_part(s)) * pow10(
            frac_part(s).len(),
        ) + digits_val(frac_part(s))) * 100000,
{
    let i = digits_val(int_part(s));
    let f = digits_val(frac_part(s));
    let k = frac_part(s).len();
    lemma_pow10_values();
    if k == 0 {
        assert((i * 100000 + f * 100000) * 1 == (i * 1 + f) * 100000) by (nonlinear_arith);
    } else if k == 1 {
        assert((i * 100000 + f * 10000) * 10 == (i * 10 + f) * 100000) by (nonlinear_arith);
    } else if k == 2 {
        assert((i * 100000 + f * 1000) * 100 == (i * 100 + f) * 100000) by (nonlinear_arith);
    } else if k == 3 {
        assert((i * 100000 + f * 100) * 1000 == (i * 1000 + f) * 100000) by (nonlinear_arith);
    } else if k == 4 {
        assert((i * 100000 + f * 10) * 10000 == (i * 10000 + f) * 100000) by (nonlinear_arith);
    } else {
        assert((i * 100000 + f * 1) * 100000 == (i * 100000 + f) * 100000) by (nonlinear_arith);
    }
}

/// Beyond five fractional digits the quota is the nearest integer to the
/// share scaled by `100000`, with a tie rounding up: writing `num` for the
/// exact digit value `I * 10^k + F`, the doubled scaled quota sits within
/// one `10^k` above `2 * num * 100000` and strictly within one `10^k`
/// below it — which pins `quota` as `round(share * 100000)`, half-up.
pub proof fn law_cpu_quota_half_up(s: Seq<char>)
    requires
        valid_cpus_string(s),
        frac_part(s).len() > 5,
    ensures
        ({
            let k = frac_part(s).len();
            let num = digits_val(int_part(s)) * pow10(k) + digits_val(frac_part(s));
            &&& 2 * (cpus_quota(s) * pow10(k)) <= 2 * (num * 100000) + pow10(k)
            &&& 2 * (num * 100000) < 2 * (cpus_quota(s) * pow10(k)) + pow10(k)
        }),
{
    let k = frac_part(s).len();
    let f = frac_part(s);
    let i = digits_val(int_part(s));
    let head = frac_head(s);
    let tail = f.subrange(5, k as int);
    assert(f =~= head + tail);
    lemma_digits_val_split(head, tail);
    let h = digits_val(head);
    let t = digits_val(tail);
    let m = (k - 6) as nat;
    assert(digits_val(f) == h * pow10((k - 5) as nat) + t);

    let first = tail.subrange(0, 1);
    let rest = tail.subrange(1, tail.len() as int);
    assert(tail =~= first + rest);
    lemma_digits_val_split(first, rest);
    assert(first.len() == 1);
    assert(first.drop_last() =~= Seq::<char>::empty());
    assert(first.last() == tail[0]);
    assert(tail[0] == f[5]);
    let d6 = digit_val(f[5]);
    assert(digits_val(Seq::<char>::empty()) == 0);
    assert(digits_val(first) == digits_val(first.drop_last()) * 10 + digit_val(first.last()));
    assert(digits_val(first) == d6);
    assert(is_digit_char(f[5]));
    assert(d6 <= 9);
    assert forall|j: int| 0 <= j < rest.len() implies is_digit_char(#[trigger] rest[j]) by {
        assert(rest[j] == f[6 + j]);
    }
    lemma_digits_val_bound(rest);
    let r = digits_val(rest);
    assert(rest.len() == m);
    assert(t == d6 * pow10(m) + r);
    assert(r < pow10(m));

    lemma_pow10_values();
    lemma_pow10_add(m, 6);
    let pm = pow10(m);
    let pk = pow10(k);
    assert(m + 6 == k);
    assert(pk == pm * pow10(6));
    assert(pk == pm * 1000000) by (nonlinear_arith)
        requires
            pk == pm * pow10(6),
            pow10(6) == 1000000,
    ;
    lemma_pow10_add((k - 5) as nat, 5);
    let pk5 = pow10((k - 5) as nat);
    assert(pk == pk5 * 100000) by (nonlinear_arith)
        requires
            pk == pk5 * pow10(5),
            pow10(5) == 100000,
    ;

    let num = i * pk + digits_val(f);
    assert(num * 100000 == (i * pk) * 100000 + h * pk + t * 100000) by (nonlinear_arith)
        requires
            num == i * pk + h * pk5 + t,
            pk == pk5 * 100000,
    ;
    assert(head.len() == 5);
    assert(pow10((5 - head.len()) as nat) == 1);
    if d6 >= 5 {
        assert(rounds_up(s));
        assert(cpus_quota(s) == i * 100000 + h + 1);
        assert(cpus_quota(s) * pk == (i * pk) * 100000 + h * pk + pk) by (nonlinear_arith)
            requires
                cpus_quota(s) == i * 100000 + h + 1,
        ;
        assert(t >= 5 * pm) by (nonlinear_arith)
            requires
                t == d6 * pow10(m) + r,
                pm == pow10(m),
                d6 >= 5,
        ;
        assert(t <= 10 * pm - 1) by (nonlinear_arith)
            requires
                t == d6 * pow10(m) + r,
                pm == pow10(m),
                d6 <= 9,
                r < pow10(m),
        ;
    } else {
        assert(!rounds_up(s));
        assert(cpus_quota(s) == i * 100000 + h);
        assert(cpus_quota(s) * pk == (i * pk) * 100000 + h * pk) by (nonlinear_arith)
            requires
                cpus_quota(s) == i * 100000 + h,
        ;
        assert(t <= 5 * pm - 1) by (nonlinear_arith)
            requires
                t == d6 * pow10(m) + r,
                pm == pow10(m),
                d6 <= 4,
                r < pow10(m),
        ;
    }
}

fn pow10_small(k: usize) -> (r: u64)
    requires
        k <= 5,
    ensures
        r as nat == pow10(k as nat),
{
    proof {
        lemma_pow10_values();
    }
    if k == 0 {
        1
    } else if k == 1 {
        10
    } else if k == 2 {
        100
    } else if k == 3 {
        1000
    } else if k == 4 {
        10000
    } else {
        100000
    }
}

fn invalid_decimal_error(s: &str) -> (r: String)
    ensures
        r@ == s@ + " is not a valid decimal"@,
{
    let mut m = s.to_owned();
    m.append(" is not a valid decimal");
    m
}

/// Validates a CPU share string and derives its CFS quota. A share is a
/// decimal with at most thirteen integer digits (a leading-dot fraction is
/// allowed), and must round to a quota strictly above `1000`, the quota of
/// `0.01` CPUs. The returned quota is the share times `100000`, rounded
/// half-up: exact whenever the share has at most five fractional digits
/// (`law_cpu_quota_exact`), and the nearest integer with ties up beyond
/// them (`law_cpu_quota_half_up`).
pub fn cpus_parser(s: &str) -> (r: Result<CpuShare, String>)
    ensures
        r is Ok <==> valid_cpus_string(s@) && cpus_quota(s@) > 1000,
        r matches Ok(c) ==> c.quota_us as nat == cpus_quota(s@),
        r matches Err(e) ==> e@ == cpus_error_seq(s@),
{
    let len = s.unicode_len();
    let p = find_first_dot(s);
    proof {
        lemma_first_dot(s@);
    }
    if p > 13 {
        return Err(invalid_decimal_error(s));
    }
    if !range_all_digits(s, 0, p) {
        return Err(invalid_decimal_error(s));
    }
    let frac_len: usize = if p < len {
        len - p - 1
    } else {
        0
    };
    proof {
        if p < len {
            assert(frac_part(s@) =~= s@.subrange(p + 1, len as int));
        }
        assert(frac_len as int == frac_part(s@).len());
    }
    if p < len && !range_all_digits(s, p + 1, len) {
        return Err(invalid_decimal_error(s));
    }
    if p + frac_len < 1 {
        return Err(invalid_decimal_error(s));
    }
    assert(valid_cpus_string(s@));
    let head_len: usize = if frac_len > 5 {
        5
    } else {
        frac_len
    };
    let int_val = digits_value(s, 0, p);
    let head_val: u64 = if p < len {
        proof {
            assert forall|j: int| 0 <= j < head_len implies is_digit_char(
                #[trigger] s@.subrange(p + 1, p + 1 + head_len)[j],
            ) by {
                assert(s@.subrange(p + 1, p + 1 + head_len)[j] == frac_part(s@)[j]);
            }
            assert(frac_head(s@) =~= s@.subrange(p + 1, p + 1 + head_len));
        }
        digits_value(s, p + 1, p + 1 + head_len)
    } else {
        0
    };
    let scale = pow10_small(5 - head_len);
    let bump: u64 = if frac_len > 5 {
        let sixth = s.get_char(p + 6);
        proof {
            assert(frac_part(s@)[5] == s@[p + 6]);
            assert(is_digit_char(s@[p + 6]));
        }
        if sixth as u32 >= 53 {
            1
        } else {
            0
        }
    } else {
        0
    };
    proof {
        lemma_pow10_values();
        lemma_pow10_mono(p as nat, 13);
        assert(int_val < 10000000000000);
        lemma_pow10_mono(head_len as nat, 5);
        assert(head_val < pow10(head_len as nat));
        assert(head_val * scale < pow10(head_len as nat) * pow10((5 - head_len) as nat))
            by (nonlinear_arith)
            requires
                head_val < pow10(head_len as nat),
                scale == pow10((5 - head_len) as nat),
                pow10((5 - head_len) as nat) > 0,
        ;
        assert(pow10(head_len as nat) * pow10((5 - head_len) as nat) == 100000) by {
            lemma_pow10_values();
            if head_len == 0 {
            } else if head_len == 1 {
            } else if head_len == 2 {
            } else if head_len == 3 {
            } else if head_len == 4 {
            } else {
            }
        }
    }
    let quota = int_val * 100000 + head_val * scale + bump;
    if quota <= 1000 {
        Err(String::from_str("must be greater than 0.01"))
    } else {
        Ok(CpuShare { quota_us: quota })
    }
}

} // verus!
