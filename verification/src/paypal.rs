//! The payment-notification formatter: decimal amounts parsed into an
//! integer numerator and a scale, the net computed as gross minus fee on a
//! common scale, and the message with the payer's identity and the verified
//! glyph.
use vstd::prelude::*;
use vstd::string::*;
use vstd::arithmetic::div_mod::{lemma_div_denominator, lemma_fundamental_div_mod};

use crate::sink::Message;
use crate::text::{append_u64_dec, dec_digit, dec_str, push_char, str_eq};

verus! {

pub struct PayPalIpn {
    pub mc_gross: String,
    pub protection_eligibility: String,
    pub payer_id: String,
    pub payment_date: String,
    pub payment_status: String,
    pub charset: String,
    pub first_name: String,
    pub mc_fee: String,
    pub notify_version: String,
    pub custom: String,
    pub payer_status: String,
    pub business: String,
    pub quantity: String,
    pub verify_sign: String,
    pub payer_email: String,
    pub txn_id: String,
    pub payment_type: String,
    pub last_name: String,
    pub receiver_email: String,
    pub payment_fee: String,
    pub shipping_discount: String,
    pub receiver_id: String,
    pub insurance_amount: String,
    pub txn_type: String,
    pub item_name: String,
    pub discount: String,
    pub mc_currency: String,
    pub item_number: String,
    pub residence_country: String,
    pub shipping_method: String,
    pub transaction_subject: String,
    pub payment_gross: String,
    pub ipn_track_id: String,
}

/// A parsed decimal amount: an integer numerator and the count of digits
/// behind the decimal point, so that the amount is num over ten-to-the-scale.
pub struct Dec {
    pub num: i64,
    pub scale: u32,
}

pub open spec fn is_digit(c: char) -> bool {
    48 <= c as u32 <= 57
}

/// The digit characters of a string, in order.
pub open spec fn digits_of(s: Seq<char>) -> Seq<char>
    decreases s.len(),
{
    if s.len() == 0 {
        Seq::empty()
    } else {
        digits_of(s.drop_last()) + (if is_digit(s.last()) {
            seq![s.last()]
        } else {
            Seq::<char>::empty()
        })
    }
}

/// The value of a digit string, most significant digit first.
pub open spec fn digits_val(s: Seq<char>) -> int
    decreases s.len(),
{
    if s.len() == 0 {
        0
    } else {
        digits_val(s.drop_last()) * 10 + (s.last() as u32) - 48
    }
}

pub open spec fn pow10(n: nat) -> int
    decreases n,
{
    if n == 0 {
        1
    } else {
        10 * pow10((n - 1) as nat)
    }
}

/// The index of the first decimal point; the length when there is none.
pub open spec fn dot_pos(s: Seq<char>) -> int
    decreases s.len(),
{
    if s.len() == 0 {
        0
    } else if s[0] == '.' {
        0
    } else {
        1 + dot_pos(s.subrange(1, s.len() as int))
    }
}

/// A decimal body: digits with at most one decimal point among them, and at
/// least one digit.
pub open spec fn dec_body_valid(body: Seq<char>) -> bool {
    &&& forall|i: int| 0 <= i < body.len() ==> is_digit(#[trigger] body[i]) || body[i] == '.'
    &&& forall|i: int, j: int|
        0 <= i < j < body.len() && #[trigger] body[i] == '.' ==> #[trigger] body[j] != '.'
    &&& digits_of(body).len() > 0
}

/// The count of digits behind the decimal point.
pub open spec fn dec_scale(body: Seq<char>) -> nat {
    if dot_pos(body) == body.len() {
        0
    } else {
        (body.len() - dot_pos(body) - 1) as nat
    }
}

/// What parsing a decimal literal yields: an optional leading minus, then
/// digits with at most one point; the numerator is the value of the digit
/// string with the point removed, the scale the count of digits behind it.
pub open spec fn spec_parse_dec(s: Seq<char>) -> Option<(int, nat)> {
    let neg = s.len() > 0 && s[0] == '-';
    let body = if neg {
        s.subrange(1, s.len() as int)
    } else {
        s
    };
    if dec_body_valid(body) {
        let mag = digits_val(digits_of(body));
        Some(
            (
                if neg {
                    -mag
                } else {
                    mag
                },
                dec_scale(body),
            ),
        )
    } else {
        None
    }
}

pub open spec fn i64_range(v: int) -> bool {
    -0x7fff_ffff_ffff_ffff <= v <= 0x7fff_ffff_ffff_ffff
}

/// Whether the literal parses and its parts fit the machine representation.
pub open spec fn spec_parse_fits(s: Seq<char>) -> bool {
    match spec_parse_dec(s) {
        Some(t) => i64_range(t.0) && t.1 <= u32::MAX,
        None => false,
    }
}

proof fn lemma_pow10_pos(n: nat)
    ensures
        pow10(n) >= 1,
    decreases n,
{
    if n > 0 {
        lemma_pow10_pos((n - 1) as nat);
    }
}

proof fn lemma_pow10_add(a: nat, b: nat)
    ensures
        pow10(a + b) == pow10(a) * pow10(b),
    decreases a,
{
    if a == 0 {
        assert(pow10(0) * pow10(b) == pow10(b)) by (nonlinear_arith);
    } else {
        lemma_pow10_add((a - 1) as nat, b);
        assert(pow10(a + b) == 10 * pow10((a - 1) as nat + b));
        assert(10 * (pow10((a - 1) as nat) * pow10(b)) == (10 * pow10((a - 1) as nat)) * pow10(b))
            by (nonlinear_arith);
    }
}

proof fn lemma_pow10_mono(a: nat, b: nat)
    requires
        a <= b,
    ensures
        pow10(a) <= pow10(b),
    decreases b,
{
    if a < b {
        lemma_pow10_mono(a, (b - 1) as nat);
        lemma_pow10_pos((b - 1) as nat);
    }
}

/// Every character a digit extraction yields is a digit.
proof fn lemma_digits_of_all(s: Seq<char>)
    ensures
        forall|i: int| 0 <= i < digits_of(s).len() ==> is_digit(#[trigger] digits_of(s)[i]),
    decreases s.len(),
{
    if s.len() > 0 {
        lemma_digits_of_all(s.drop_last());
        if is_digit(s.last()) {
            assert(digits_of(s) == digits_of(s.drop_last()) + seq![s.last()]);
            assert forall|i: int| 0 <= i < digits_of(s).len() implies is_digit(
                #[trigger] digits_of(s)[i],
            ) by {
                if i < digits_of(s.drop_last()).len() {
                    assert(digits_of(s)[i] == digits_of(s.drop_last())[i]);
                } else {
                    assert(digits_of(s)[i] == s.last());
                }
            }
        } else {
            assert(digits_of(s) =~= digits_of(s.drop_last()));
        }
    }
}

/// The value of an all-digit string is not negative.
proof fn lemma_digits_val_nonneg(s: Seq<char>)
    requires
        forall|i: int| 0 <= i < s.len() ==> is_digit(#[trigger] s[i]),
    ensures
        digits_val(s) >= 0,
    decreases s.len(),
{
    if s.len() > 0 {
        assert(forall|i: int|
            0 <= i < s.drop_last().len() ==> is_digit(#[trigger] s.drop_last()[i]));
        lemma_digits_val_nonneg(s.drop_last());
        assert(is_digit(s.last()));
    }
}

/// Digit extraction distributes over concatenation.
#[verifier::rlimit(100)]
#[verifier::spinoff_prover]
proof fn lemma_digits_of_concat(a: Seq<char>, b: Seq<char>)
    ensures
        digits_of(a + b) == digits_of(a) + digits_of(b),
    decreases b.len(),
{
    if b.len() == 0 {
        assert(a + b =~= a);
        assert(digits_of(a) + digits_of(b) =~= digits_of(a));
    } else {
        lemma_digits_of_concat(a, b.drop_last());
        assert((a + b).drop_last() =~= a + b.drop_last());
        assert((a + b).last() == b.last());
        assert(digits_of(a + b) == digits_of(a + b.drop_last()) + (if is_digit(b.last()) {
            seq![b.last()]
        } else {
            Seq::<char>::empty()
        }));
        assert(digits_of(b) == digits_of(b.drop_last()) + (if is_digit(b.last()) {
            seq![b.last()]
        } else {
            Seq::<char>::empty()
        }));
        assert(digits_of(a + b) =~= digits_of(a) + digits_of(b));
    }
}

/// The value of a concatenation: the left part shifted by the width of the
/// right part.
#[verifier::rlimit(100)]
#[verifier::spinoff_prover]
proof fn lemma_digits_val_concat(a: Seq<char>, b: Seq<char>)
    ensures
        digits_val(a + b) == digits_val(a) * pow10(b.len()) + digits_val(b),
    decreases b.len(),
{
    if b.len() == 0 {
        assert(a + b =~= a);
    } else {
        lemma_digits_val_concat(a, b.drop_last());
        assert((a + b).drop_last() =~= a + b.drop_last());
        assert((a + b).last() == b.last());
        assert(digits_val(a + b) == digits_val(a + b.drop_last()) * 10 + (b.last() as u32) - 48);
        assert(digits_val(b) == digits_val(b.drop_last()) * 10 + (b.last() as u32) - 48);
        assert(pow10(b.len()) == 10 * pow10(b.drop_last().len()));
        assert((digits_val(a) * pow10(b.drop_last().len())) * 10 == digits_val(a) * (pow10(
            b.drop_last().len(),
        ) * 10)) by (nonlinear_arith);
    }
}

/// The value of a digit prefix never exceeds the value of the whole.
proof fn lemma_mag_prefix_bound(body: Seq<char>, k: int)
    requires
        0 <= k <= body.len(),
    ensures
        digits_val(digits_of(body.take(k))) <= digits_val(digits_of(body)),
{
    let pre = body.take(k);
    let post = body.subrange(k, body.len() as int);
    assert(pre + post =~= body);
    lemma_digits_of_concat(pre, post);
    lemma_digits_val_concat(digits_of(pre), digits_of(post));
    assert(digits_of(pre) + digits_of(post) == digits_of(body));
    lemma_digits_of_all(pre);
    lemma_digits_of_all(post);
    lemma_digits_val_nonneg(digits_of(pre));
    lemma_digits_val_nonneg(digits_of(post));
    lemma_pow10_pos(digits_of(post).len());
    assert(digits_val(digits_of(pre)) * pow10(digits_of(post).len()) >= digits_val(
        digits_of(pre),
    )) by (nonlinear_arith)
        requires
            digits_val(digits_of(pre)) >= 0,
            pow10(digits_of(post).len()) >= 1,
    ;
}

/// Extending a scanned prefix by one character.
proof fn lemma_digits_of_take_step(s: Seq<char>, i: int)
    requires
        0 <= i < s.len(),
    ensures
        digits_of(s.take(i + 1)) == digits_of(s.take(i)) + (if is_digit(s[i]) {
            seq![s[i]]
        } else {
            Seq::<char>::empty()
        }),
{
    assert(s.take(i + 1).drop_last() =~= s.take(i));
    assert(s.take(i + 1).last() == s[i]);
    assert(digits_of(s.take(i + 1)) =~= digits_of(s.take(i)) + (if is_digit(s[i]) {
        seq![s[i]]
    } else {
        Seq::<char>::empty()
    }));
}

/// Locating the first decimal point.
proof fn lemma_dot_pos_at(s: Seq<char>, d: int)
    requires
        0 <= d <= s.len(),
        forall|j: int| 0 <= j < d ==> s[j] != '.',
        d < s.len() ==> s[d] == '.',
    ensures
        dot_pos(s) == d,
    decreases d,
{
    if d == 0 {
    } else {
        let tail = s.subrange(1, s.len() as int);
        assert(forall|j: int| 0 <= j < d - 1 ==> tail[j] == s[j + 1] && tail[j] != '.');
        assert(d - 1 < tail.len() ==> tail[d - 1] == s[d]);
        lemma_dot_pos_at(tail, d - 1);
    }
}

/// Parses a decimal literal: an optional leading minus, then digits with at
/// most one decimal point. Nothing comes back exactly when the literal is
/// malformed or its parts exceed the machine range.
#[verifier::rlimit(100)]
#[verifier::spinoff_prover]
pub fn parse_decimal(s: &str) -> (r: Option<Dec>)
    ensures
        match r {
            Some(d) => spec_parse_dec(s@) == Some((d.num as int, d.scale as nat))
                && spec_parse_fits(s@),
            None => !spec_parse_fits(s@),
        },
{
    let n = s.unicode_len();
    let neg = n > 0 && s.get_char(0) == '-';
    let start: usize = if neg {
        1
    } else {
        0
    };
    let ghost body = s@.subrange(start as int, n as int);
    let mut num: i64 = 0;
    let mut dot: Option<usize> = None;
    let mut seen_digit = false;
    let mut i: usize = start;
    proof {
        assert(body.take(0) =~= Seq::<char>::empty());
    }
    while i < n
        invariant
            n == s@.len(),
            start <= i <= n,
            neg == (s@.len() > 0 && s@[0] == '-'),
            start == if neg {
                1usize
            } else {
                0usize
            },
            body == s@.subrange(start as int, n as int),
            num >= 0,
            num as int == digits_val(digits_of(body.take(i - start))),
            seen_digit == (digits_of(body.take(i - start)).len() > 0),
            forall|j: int| 0 <= j < i - start ==> is_digit(#[trigger] body[j]) || body[j] == '.',
            match dot {
                None => forall|j: int| 0 <= j < i - start ==> #[trigger] body[j] != '.',
                Some(d) => 0 <= d < i - start && body[d as int] == '.' && forall|j: int|
                    0 <= j < i - start && j != d ==> #[trigger] body[j] != '.',
            },
        decreases n - i,
    {
        let c = s.get_char(i);
        proof {
            assert(body[i - start] == s@[i as int]);
        }
        if c == '.' {
            if dot.is_some() {
                proof {
                    assert(s@.subrange(0, n as int) =~= s@);
                }
                return None;
            }
            dot = Some(i - start);
        } else {
            let cu = c as u32;
            if 48 <= cu && cu <= 57 {
                let d = (cu - 48) as i64;
                if num > (i64::MAX - d) / 10 {
                    proof {
                        lemma_digits_of_take_step(body, i - start);
                        let pre = digits_of(body.take(i - start));
                        assert(digits_of(body.take(i - start + 1)) =~= pre.push(
                            body[i - start],
                        ));
                        assert(pre.push(body[i - start]).drop_last() =~= pre);
                        let cur = digits_val(digits_of(body.take(i - start + 1)));
                        assert(cur == num as int * 10 + d);
                        lemma_fundamental_div_mod(i64::MAX - d, 10);
                        assert(num as int * 10 + d > i64::MAX) by {
                            let q = (i64::MAX - d) / 10;
                            assert(num as int >= q + 1);
                            assert((i64::MAX - d) % 10 < 10);
                            assert(q * 10 > i64::MAX - d - 10);
                        }
                        assert(s@.subrange(0, n as int) =~= s@);
                        if spec_parse_dec(s@) is Some {
                            lemma_mag_prefix_bound(body, i - start + 1);
                        }
                    }
                    return None;
                }
                num = num * 10 + d;
                seen_digit = true;
                proof {
                    lemma_digits_of_take_step(body, i - start);
                    let pre = digits_of(body.take(i - start));
                    assert(digits_of(body.take(i - start + 1)) =~= pre.push(body[i - start]));
                    assert(pre.push(body[i - start]).drop_last() =~= pre);
                    assert(digits_val(digits_of(body.take(i - start + 1))) == digits_val(pre) * 10
                        + (body[i - start] as u32) - 48);
                }
            } else {
                proof {
                    assert(!is_digit(body[i - start]) && body[i - start] != '.');
                    assert(s@.subrange(0, n as int) =~= s@);
                }
                return None;
            }
        }
        proof {
            if body[i - start] == '.' {
                lemma_digits_of_take_step(body, i - start);
                assert(digits_of(body.take(i - start + 1)) =~= digits_of(body.take(i - start)));
            }
        }
        i = i + 1;
    }
    proof {
        assert(body.take(n - start) =~= body);
        assert(s@.subrange(0, n as int) =~= s@);
    }
    if !seen_digit {
        return None;
    }
    let scale_usize: usize = match dot {
        Some(d) => {
            proof {
                lemma_dot_pos_at(body, d as int);
            }
            n - start - d - 1
        },
        None => {
            proof {
                lemma_dot_pos_at(body, body.len() as int);
            }
            0
        },
    };
    if scale_usize > u32::MAX as usize {
        return None;
    }
    let value: i64 = if neg {
        -num
    } else {
        num
    };
    Some(Dec { num: value, scale: scale_usize as u32 })
}

/// The lowest digits of a number, zero padded to a fixed width.
pub open spec fn padded_dec(m: nat, width: nat) -> Seq<char>
    decreases width,
{
    if width == 0 {
        Seq::empty()
    } else {
        padded_dec(m / 10, (width - 1) as nat) + seq![dec_digit((m % 10) as int)]
    }
}

/// The rendering of a parsed amount: the sign, the integer digits, and when
/// the scale is positive a point followed by exactly scale fraction digits.
pub open spec fn spec_format_dec(num: int, scale: nat) -> Seq<char> {
    let mag = if num < 0 {
        -num
    } else {
        num
    };
    (if num < 0 {
        seq!['-']
    } else {
        Seq::<char>::empty()
    }) + dec_str((mag / pow10(scale)) as nat) + (if scale > 0 {
        seq!['.'] + padded_dec(mag as nat, scale)
    } else {
        Seq::<char>::empty()
    })
}

fn append_padded_dec(out: &mut String, m: u64, width: u32)
    ensures
        final(out)@ == old(out)@ + padded_dec(m as nat, width as nat),
    decreases width,
{
    if width > 0 {
        append_padded_dec(out, m / 10, width - 1);
        push_char(out, ((48 + (m % 10)) as u8) as char);
        proof {
            assert(final(out)@ =~= old(out)@ + padded_dec(m as nat, width as nat));
        }
    }
}

/// Renders a parsed amount.
pub fn format_dec(d: &Dec) -> (r: String)
    ensures
        r@ == spec_format_dec(d.num as int, d.scale as nat),
{
    let neg = d.num < 0;
    let mag: u64 = if neg {
        (-(d.num as i128)) as u64
    } else {
        d.num as u64
    };
    let mut q: u64 = mag;
    let mut k: u32 = 0;
    proof {
        assert(pow10(0) == 1);
    }
    while k < d.scale
        invariant
            k <= d.scale,
            q as int == mag as int / pow10(k as nat),
            q as int >= 0,
        decreases d.scale - k,
    {
        proof {
            lemma_pow10_pos(k as nat);
            lemma_div_denominator(mag as int, pow10(k as nat), 10);
            assert(pow10((k + 1) as nat) == 10 * pow10(k as nat));
        }
        q = q / 10;
        k = k + 1;
    }
    let mut out = String::new();
    if neg {
        push_char(&mut out, '-');
    }
    append_u64_dec(&mut out, q);
    if d.scale > 0 {
        push_char(&mut out, '.');
        append_padded_dec(&mut out, mag, d.scale);
    }
    proof {
        assert(out@ =~= spec_format_dec(d.num as int, d.scale as nat));
    }
    out
}

/// The two amounts aligned on their larger scale and subtracted.
pub open spec fn spec_net(g: (int, nat), f: (int, nat)) -> (int, nat) {
    let sc = if g.1 >= f.1 {
        g.1
    } else {
        f.1
    };
    (g.0 * pow10((sc - g.1) as nat) - f.0 * pow10((sc - f.1) as nat), sc)
}

/// Both amounts parse and fit, and aligning and subtracting them stays in
/// the machine range.
pub open spec fn spec_amounts_ok(gross: Seq<char>, fee: Seq<char>) -> bool {
    &&& spec_parse_fits(gross)
    &&& spec_parse_fits(fee)
    &&& {
        let g = spec_parse_dec(gross).unwrap();
        let f = spec_parse_dec(fee).unwrap();
        let sc = if g.1 >= f.1 {
            g.1
        } else {
            f.1
        };
        &&& i64_range(g.0 * pow10((sc - g.1) as nat))
        &&& i64_range(f.0 * pow10((sc - f.1) as nat))
        &&& i64_range(spec_net(g, f).0)
    }
}

/// Scales a numerator up by a power of ten, within the machine range.
fn scale_up(x: i64, k: u32) -> (r: Option<i64>)
    requires
        i64_range(x as int),
    ensures
        match r {
            Some(v) => v as int == x as int * pow10(k as nat) && i64_range(v as int),
            None => !i64_range(x as int * pow10(k as nat)),
        },
{
    let neg = x < 0;
    let m0: u64 = if neg {
        (-x) as u64
    } else {
        x as u64
    };
    let mut m: u64 = m0;
    let mut j: u32 = 0;
    proof {
        assert(pow10(0) == 1);
    }
    while j < k
        invariant
            j <= k,
            m as int == m0 as int * pow10(j as nat),
            m as int <= 0x7fff_ffff_ffff_ffff,
            neg ==> x as int == -(m0 as int),
            !neg ==> x as int == m0 as int,
        decreases k - j,
    {
        if m > (0x7fff_ffff_ffff_ffffu64) / 10 {
            proof {
                assert(m as int * 10 > 0x7fff_ffff_ffff_ffff);
                assert(pow10((j + 1) as nat) == 10 * pow10(j as nat));
                assert(m0 as int * pow10((j + 1) as nat) == m as int * 10) by (nonlinear_arith)
                    requires
                        m as int == m0 as int * pow10(j as nat),
                        pow10((j + 1) as nat) == 10 * pow10(j as nat),
                ;
                lemma_pow10_mono((j + 1) as nat, k as nat);
                lemma_pow10_pos((j + 1) as nat);
                assert(m0 as int * pow10(k as nat) >= m0 as int * pow10((j + 1) as nat))
                    by (nonlinear_arith)
                    requires
                        m0 as int >= 0,
                        pow10(k as nat) >= pow10((j + 1) as nat),
                ;
                assert(!i64_range(x as int * pow10(k as nat))) by (nonlinear_arith)
                    requires
                        m0 as int * pow10(k as nat) > 0x7fff_ffff_ffff_ffff,
                        (x as int == m0 as int) || (x as int == -(m0 as int)),
                ;
            }
            return None;
        }
        proof {
            assert(pow10((j + 1) as nat) == 10 * pow10(j as nat));
            assert(m0 as int * (10 * pow10(j as nat)) == (m0 as int * pow10(j as nat)) * 10)
                by (nonlinear_arith);
        }
        m = m * 10;
        j = j + 1;
    }
    proof {
        assert(x as int * pow10(k as nat) == (if neg {
            -(m as int)
        } else {
            m as int
        })) by (nonlinear_arith)
            requires
                m as int == m0 as int * pow10(k as nat),
                (neg ==> x as int == -(m0 as int)) && (!neg ==> x as int == m0 as int),
        ;
    }
    if neg {
        Some(-(m as i64))
    } else {
        Some(m as i64)
    }
}

/// The payment message: net, fee and gross amounts with the currency, the
/// payer's name, and the verified glyph with country and address.
pub open spec fn paypal_msg(event: PayPalIpn) -> Seq<char> {
    let g = spec_parse_dec(event.mc_gross@).unwrap();
    let f = spec_parse_dec(event.mc_fee@).unwrap();
    let net = spec_net(g, f);
    "Received <b>"@ + event.mc_currency@ + " "@ + spec_format_dec(net.0, net.1) + "</b> (fee <b>"@
        + event.mc_currency@ + " "@ + spec_format_dec(f.0, f.1) + "</b>, gr. <b>"@
        + event.mc_currency@ + " "@ + spec_format_dec(g.0, g.1) + "</b>) from <b>"@
        + event.first_name@ + " "@ + event.last_name@ + "</b> [<b>"@ + (if event.payer_status@
        == "verified"@ {
        "\u{2713}"@
    } else {
        "\u{2718}"@
    }) + ", "@ + event.residence_country@ + ", "@ + event.payer_email@ + "</b>]"@
}

/// Renders one payment notification; nothing comes back exactly when an
/// amount is malformed or out of range.
pub fn paypal_format_event(event: &PayPalIpn) -> (r: Option<String>)
    ensures
        match r {
            Some(text) => spec_amounts_ok(event.mc_gross@, event.mc_fee@) && text@ == paypal_msg(
                *event,
            ),
            None => !spec_amounts_ok(event.mc_gross@, event.mc_fee@),
        },
{
    let g = match parse_decimal(event.mc_gross.as_str()) {
        Some(d) => d,
        None => {
            return None;
        },
    };
    let f = match parse_decimal(event.mc_fee.as_str()) {
        Some(d) => d,
        None => {
            return None;
        },
    };
    let sc: u32 = if g.scale >= f.scale {
        g.scale
    } else {
        f.scale
    };
    let gs = match scale_up(g.num, sc - g.scale) {
        Some(v) => v,
        None => {
            return None;
        },
    };
    let fs = match scale_up(f.num, sc - f.scale) {
        Some(v) => v,
        None => {
            return None;
        },
    };
    let net128: i128 = gs as i128 - fs as i128;
    if net128 > i64::MAX as i128 || net128 < -(i64::MAX as i128) {
        return None;
    }
    let net = Dec { num: net128 as i64, scale: sc };
    let net_text = format_dec(&net);
    let fee_text = format_dec(&f);
    let gross_text = format_dec(&g);
    let glyph: &str = if str_eq(event.payer_status.as_str(), "verified") {
        "\u{2713}"
    } else {
        "\u{2718}"
    };
    let mut text = "Received <b>".to_owned();
    text.append(event.mc_currency.as_str());
    text.append(" ");
    text.append(net_text.as_str());
    text.append("</b> (fee <b>");
    text.append(event.mc_currency.as_str());
    text.append(" ");
    text.append(fee_text.as_str());
    text.append("</b>, gr. <b>");
    text.append(event.mc_currency.as_str());
    text.append(" ");
    text.append(gross_text.as_str());
    text.append("</b>) from <b>");
    text.append(event.first_name.as_str());
    text.append(" ");
    text.append(event.last_name.as_str());
    text.append("</b> [<b>");
    text.append(glyph);
    text.append(", ");
    text.append(event.residence_country.as_str());
    text.append(", ");
    text.append(event.payer_email.as_str());
    text.append("</b>]");
    proof {
        assert(text@ =~= paypal_msg(*event));
    }
    Some(text)
}

/// The provider's affirmative reply to an authenticity check: the exact
/// byte string VERIFIED.
pub open spec fn spec_verified_reply(body: Seq<u8>) -> bool {
    body == seq![86u8, 69u8, 82u8, 73u8, 70u8, 73u8, 69u8, 68u8]
}

/// Whether a verification reply affirms the payload's authenticity.
pub fn is_verified_reply(body: &[u8]) -> (r: bool)
    ensures
        r == spec_verified_reply(body@),
{
    if body.len() != 8 {
        return false;
    }
    let r = body[0] == 86 && body[1] == 69 && body[2] == 82 && body[3] == 73 && body[4] == 70
        && body[5] == 73 && body[6] == 69 && body[7] == 68;
    proof {
        if r {
            assert(body@ =~= seq![86u8, 69u8, 82u8, 73u8, 70u8, 73u8, 69u8, 68u8]);
        }
    }
    r
}

/// Handles one payment event: the rendered message is always loud.
pub fn paypal_handle(event: &PayPalIpn) -> (r: Option<Message>)
    ensures
        match r {
            Some(m) => spec_amounts_ok(event.mc_gross@, event.mc_fee@) && m.text@ == paypal_msg(
                *event,
            ) && m.loud,
            None => !spec_amounts_ok(event.mc_gross@, event.mc_fee@),
        },
{
    match paypal_format_event(event) {
        Some(text) => Some(Message { text, loud: true }),
        None => None,
    }
}

} // verus!
