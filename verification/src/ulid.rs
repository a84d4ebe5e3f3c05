use vstd::prelude::*;

use crate::error::Error;

verus! {

/// The value of a character in the Crockford base 32 alphabet that ULIDs are written in.
///
/// Letters count in either case; `I`, `L`, `O` and `U` are not part of the alphabet.
pub open spec fn crockford_digit(c: char) -> Option<nat> {
    let u: int = if 'a' <= c && c <= 'z' { c as int - 32 } else { c as int };
    if '0' <= c && c <= '9' {
        Some((c as int - '0' as int) as nat)
    } else if 'A' as int <= u && u <= 'H' as int {
        Some((u - 'A' as int + 10) as nat)
    } else if u == 'J' as int {
        Some(18)
    } else if u == 'K' as int {
        Some(19)
    } else if u == 'M' as int {
        Some(20)
    } else if u == 'N' as int {
        Some(21)
    } else if 'P' as int <= u && u <= 'T' as int {
        Some((u - 'P' as int + 22) as nat)
    } else if 'V' as int <= u && u <= 'Z' as int {
        Some((u - 'V' as int + 27) as nat)
    } else {
        None
    }
}

/// Whether `s` is the text of a ULID: 26 characters of the base 32 alphabet.
pub open spec fn is_ulid_text(s: Seq<char>) -> bool {
    &&& s.len() == 26
    &&& forall|i: int| 0 <= i < s.len() ==> (#[trigger] crockford_digit(s[i])) is Some
}

/// The number that the base 32 digits of `s` spell, most significant first.
pub open spec fn crockford_value(s: Seq<char>) -> nat
    decreases s.len(),
{
    if s.len() == 0 {
        0
    } else {
        crockford_value(s.drop_last()) * 32 + crockford_digit(s.last()).unwrap_or(0)
    }
}

/// The 128-bit value of a ULID text: the digits read in base 32, high bits past 128 dropped.
pub open spec fn ulid_value(s: Seq<char>) -> nat {
    crockford_value(s) % (u128::MAX as nat + 1)
}

/// The millisecond timestamp that a ULID holds in its top 48 bits.
pub open spec fn ulid_timestamp(s: Seq<char>) -> nat {
    ulid_value(s) / 0x1_0000_0000_0000_0000_0000
}

/// 32 to the power `n`.
pub open spec fn pow32(n: nat) -> nat
    decreases n,
{
    if n == 0 { 1 } else { 32 * pow32((n - 1) as nat) }
}

/// `s` holds no lower-case letter.
pub open spec fn upper_case(s: Seq<char>) -> bool {
    forall|i: int| 0 <= i < s.len() ==> !('a' <= #[trigger] s[i] && s[i] <= 'z')
}

/// `a` comes no later than `b` in the order of their characters, the first
/// character deciding first.
pub open spec fn text_le(a: Seq<char>, b: Seq<char>) -> bool
    decreases a.len(),
{
    if a.len() == 0 || b.len() == 0 {
        a.len() <= b.len()
    } else if a[0] != b[0] {
        (a[0] as int) < (b[0] as int)
    } else {
        text_le(a.drop_first(), b.drop_first())
    }
}

/// Every character of `s` is a digit of the alphabet.
pub open spec fn all_digits(s: Seq<char>) -> bool {
    forall|i: int| 0 <= i < s.len() ==> (#[trigger] crockford_digit(s[i])) is Some
}

proof fn lemma_digit_below_32(c: char)
    ensures
        crockford_digit(c).unwrap_or(0) < 32,
{
}

proof fn lemma_digit_order(c: char, e: char)
    requires
        crockford_digit(c) is Some,
        crockford_digit(e) is Some,
        !('a' <= c && c <= 'z'),
        !('a' <= e && e <= 'z'),
        (c as int) < (e as int),
    ensures
        crockford_digit(c).unwrap() < crockford_digit(e).unwrap(),
{
}

proof fn lemma_pow32_add(a: nat, b: nat)
    ensures
        pow32(a + b) == pow32(a) * pow32(b),
    decreases a,
{
    if a > 0 {
        lemma_pow32_add((a - 1) as nat, b);
        let x = pow32((a - 1) as nat);
        let y = pow32(b);
        assert(pow32(a + b) == 32 * pow32((a + b - 1) as nat));
        assert(((a + b - 1) as nat) == ((a - 1) as nat) + b);
        assert(pow32(a) == 32 * x);
        assert(32 * (x * y) == (32 * x) * y) by (nonlinear_arith);
    } else {
        assert(pow32(a) == 1);
        assert(1 * pow32(b) == pow32(b));
    }
}

proof fn lemma_pow32_positive(n: nat)
    ensures
        pow32(n) >= 1,
    decreases n,
{
    if n > 0 {
        lemma_pow32_positive((n - 1) as nat);
    }
}

/// The digits read from the front: the first digit counts `pow32(n - 1)` times.
proof fn lemma_value_front(s: Seq<char>)
    requires
        s.len() > 0,
    ensures
        crockford_value(s) == crockford_digit(s[0]).unwrap_or(0) * pow32((s.len() - 1) as nat)
            + crockford_value(s.drop_first()),
    decreases s.len(),
{
    if s.len() == 1 {
        assert(s.drop_last().len() == 0);
        assert(s.drop_first().len() == 0);
        assert(s.last() == s[0]);
        assert(crockford_value(s.drop_last()) == 0);
        assert(crockford_value(s.drop_first()) == 0);
        assert(pow32(0) == 1);
        assert(crockford_value(s) == crockford_value(s.drop_last()) * 32 + crockford_digit(s.last()).unwrap_or(0));
    } else {
        let t = s.drop_last();
        lemma_value_front(t);
        assert(t.drop_first() =~= s.drop_first().drop_last());
        assert(s.drop_first().last() == s.last());
        assert(t[0] == s[0]);
        let d = crockford_digit(s[0]).unwrap_or(0);
        let p = pow32((s.len() - 2) as nat);
        let r = crockford_value(t.drop_first());
        assert(crockford_value(s) == crockford_value(t) * 32 + crockford_digit(s.last()).unwrap_or(0));
        assert(crockford_value(t) == d * p + r);
        assert(crockford_value(s.drop_first()) == r * 32 + crockford_digit(s.last()).unwrap_or(0));
        assert(pow32((s.len() - 1) as nat) == 32 * p);
        assert((d * p + r) * 32 + crockford_digit(s.last()).unwrap_or(0)
            == d * (32 * p) + (r * 32 + crockford_digit(s.last()).unwrap_or(0))) by (nonlinear_arith);
    }
}

proof fn lemma_value_bound(s: Seq<char>)
    ensures
        crockford_value(s) < pow32(s.len()),
    decreases s.len(),
{
    if s.len() > 0 {
        lemma_value_bound(s.drop_last());
        lemma_digit_below_32(s.last());
        let v = crockford_value(s.drop_last());
        let p = pow32(s.drop_last().len());
        assert(v * 32 + crockford_digit(s.last()).unwrap_or(0) < 32 * p) by (nonlinear_arith)
            requires
                v < p,
                crockford_digit(s.last()).unwrap_or(0) < 32,
        ;
    }
}

/// Digits whose first `k` characters come no later than those of others of the
/// same length spell a number whose part above the last `n - k` digits is no larger.
proof fn lemma_prefix_order(a: Seq<char>, b: Seq<char>, k: nat)
    requires
        a.len() == b.len(),
        k <= a.len(),
        all_digits(a),
        all_digits(b),
        upper_case(a),
        upper_case(b),
        text_le(a.take(k as int), b.take(k as int)),
    ensures
        (crockford_value(a) as int) / (pow32((a.len() - k) as nat) as int) <= (crockford_value(b) as int) / (pow32((a.len() - k) as nat) as int),
    decreases k,
{
    let n = a.len();
    let m = pow32((n - k) as nat) as int;
    lemma_pow32_positive((n - k) as nat);
    if k == 0 {
        lemma_value_bound(a);
        lemma_value_bound(b);
        vstd::arithmetic::div_mod::lemma_basic_div(crockford_value(a) as int, m);
        vstd::arithmetic::div_mod::lemma_basic_div(crockford_value(b) as int, m);
    } else {
        let p = pow32((n - 1) as nat);
        lemma_value_front(a);
        lemma_value_front(b);
        lemma_value_bound(a.drop_first());
        lemma_value_bound(b.drop_first());
        assert(a.take(k as int)[0] == a[0] && b.take(k as int)[0] == b[0]);
        assert(crockford_digit(a[0]) is Some && crockford_digit(b[0]) is Some);
        let da = crockford_digit(a[0]).unwrap_or(0);
        let db = crockford_digit(b[0]).unwrap_or(0);
        let ra = crockford_value(a.drop_first());
        let rb = crockford_value(b.drop_first());
        if a[0] != b[0] {
            assert(!('a' <= a[0] && a[0] <= 'z'));
            assert(!('a' <= b[0] && b[0] <= 'z'));
            lemma_digit_order(a[0], b[0]);
            assert(da * p + ra <= db * p + rb) by (nonlinear_arith)
                requires
                    da < db,
                    ra < p,
                    0 <= rb,
            ;
            vstd::arithmetic::div_mod::lemma_div_is_ordered(crockford_value(a) as int, crockford_value(b) as int, m);
        } else {
            let a1 = a.drop_first();
            let b1 = b.drop_first();
            assert(a.take(k as int).drop_first() =~= a1.take(k - 1));
            assert(b.take(k as int).drop_first() =~= b1.take(k - 1));
            assert(all_digits(a1)) by {
                assert forall|i: int| 0 <= i < a1.len() implies (#[trigger] crockford_digit(a1[i])) is Some by {
                    assert(a1[i] == a[i + 1]);
                }
            }
            assert(all_digits(b1)) by {
                assert forall|i: int| 0 <= i < b1.len() implies (#[trigger] crockford_digit(b1[i])) is Some by {
                    assert(b1[i] == b[i + 1]);
                }
            }
            assert(upper_case(a1)) by {
                assert forall|i: int| 0 <= i < a1.len() implies !('a' <= #[trigger] a1[i] && a1[i] <= 'z') by {
                    assert(a1[i] == a[i + 1]);
                }
            }
            assert(upper_case(b1)) by {
                assert forall|i: int| 0 <= i < b1.len() implies !('a' <= #[trigger] b1[i] && b1[i] <= 'z') by {
                    assert(b1[i] == b[i + 1]);
                }
            }
            lemma_prefix_order(a1, b1, (k - 1) as nat);
            assert((n - 1 - (k - 1)) as nat == (n - k) as nat);
            lemma_pow32_add((k - 1) as nat, (n - k) as nat);
            let q = pow32((k - 1) as nat) as int;
            assert(p as int == q * m);
            assert(da * p == (da * q) * m) by (nonlinear_arith)
                requires
                    p as int == q * m,
            ;
            vstd::arithmetic::div_mod::lemma_hoist_over_denominator(ra as int, da * q, m as nat);
            vstd::arithmetic::div_mod::lemma_hoist_over_denominator(rb as int, da * q, m as nat);
        }
    }
}

/// ULIDs sort by time: of two upper-case ULID texts whose first digit is at most
/// 7 (so that all 26 digits fit in 128 bits), the one whose first ten
/// characters, the timestamp, come no later in character order never gives a
/// later creation time.
pub proof fn lemma_created_at_ordered(a: Seq<char>, b: Seq<char>)
    requires
        is_ulid_text(a),
        is_ulid_text(b),
        upper_case(a),
        upper_case(b),
        crockford_digit(a[0]).unwrap() < 8,
        crockford_digit(b[0]).unwrap() < 8,
        text_le(a.take(10), b.take(10)),
    ensures
        ulid_timestamp(a) <= ulid_timestamp(b),
{
    assert(all_digits(a) && all_digits(b));
    reveal_with_fuel(pow32, 27);
    assert(pow32(16) == 0x1_0000_0000_0000_0000_0000);
    assert(pow32(25) * 8 == u128::MAX as nat + 1);
    lemma_value_front(a);
    lemma_value_front(b);
    lemma_value_bound(a.drop_first());
    lemma_value_bound(b.drop_first());
    assert(crockford_value(a) < pow32(25) * 8) by (nonlinear_arith)
        requires
            crockford_value(a) == crockford_digit(a[0]).unwrap_or(0) * pow32(25) + crockford_value(a.drop_first()),
            crockford_digit(a[0]).unwrap_or(0) < 8,
            crockford_value(a.drop_first()) < pow32(25),
    ;
    assert(crockford_value(b) < pow32(25) * 8) by (nonlinear_arith)
        requires
            crockford_value(b) == crockford_digit(b[0]).unwrap_or(0) * pow32(25) + crockford_value(b.drop_first()),
            crockford_digit(b[0]).unwrap_or(0) < 8,
            crockford_value(b.drop_first()) < pow32(25),
    ;
    vstd::arithmetic::div_mod::lemma_small_mod(crockford_value(a), u128::MAX as nat + 1);
    vstd::arithmetic::div_mod::lemma_small_mod(crockford_value(b), u128::MAX as nat + 1);
    lemma_prefix_order(a, b, 10);
}

/// Decodes ULID text through `ulid::Ulid::from_string`.
///
/// The crate's decoder checks that the text is 26 bytes long, maps each byte
/// through its base 32 table (both cases, no I, L, O or U) and shifts the digits
/// into a `u128` from the most significant end, so bits above 128 are lost.
/// This item states that behaviour.
#[verifier::external_body]
fn decode_ulid(s: &str) -> (r: Option<u128>)
    ensures
        r is Some <==> is_ulid_text(s@),
        r matches Some(v) ==> v as nat == ulid_value(s@),
{
    ulid::Ulid::from_string(s).ok().map(|u| u.0)
}

/// A ULID string, the form of identifier that Stoat gives its models.
pub struct Ulid(String);

impl View for Ulid {
    type V = Seq<char>;

    closed spec fn view(&self) -> Seq<char> {
        self.0@
    }
}

fn timestamp_of(v: u128) -> (r: u64)
    ensures
        r as nat == v as nat / 0x1_0000_0000_0000_0000_0000,
{
    assert(v >> 80u128 == v / 0x1_0000_0000_0000_0000_0000u128) by (bit_vector);
    assert(v / 0x1_0000_0000_0000_0000_0000u128 <= 0xffff_ffff_ffffu128) by (bit_vector);
    (v >> 80u128) as u64
}

/// The creation time of the model that `id` names, in milliseconds since the Unix epoch.
pub fn created_at(id: &str) -> (r: u64)
    requires
        is_ulid_text(id@),
    ensures
        r as nat == ulid_timestamp(id@),
{
    let v = decode_ulid(id);
    timestamp_of(v.unwrap())
}

impl Ulid {
    /// Checks that `id` is ULID text and wraps it.
    pub fn from_string(id: String) -> (r: Result<Ulid, Error>)
        ensures
            is_ulid_text(id@) ==> (r matches Ok(u) && u@ == id@),
            !is_ulid_text(id@) ==> (r matches Err(Error::MalformedID)),
    {
        if decode_ulid(id.as_str()).is_none() {
            return Err(Error::MalformedID);
        }
        Ok(Ulid(id))
    }

    /// Wraps `id` without checking it.
    pub fn from_string_unchecked(id: String) -> (r: Ulid)
        ensures
            r@ == id@,
    {
        Ulid(id)
    }

    /// When the identified model was created, in milliseconds since the Unix epoch.
    pub fn timestamp(&self) -> (r: u64)
        requires
            is_ulid_text(self@),
        ensures
            r as nat == ulid_timestamp(self@),
    {
        created_at(self.0.as_str())
    }

    /// The text of the identifier.
    pub fn as_str(&self) -> (r: &str)
        ensures
            r@ == self@,
    {
        self.0.as_str()
    }

    /// Gives back the text of the identifier.
    pub fn to_string(self) -> (r: String)
        ensures
            r@ == self@,
    {
        self.0
    }
}

impl std::ops::Deref for Ulid {
    type Target = str;

    /// The text of the identifier.
    fn deref(&self) -> (r: &str)
        ensures
            r@ == self@,
    {
        self.0.as_str()
    }
}

} // verus!
