//! The values fixed once per run: a tracing identifier and a synthetic email
//! address and phone number, all derived from one random 128-bit seed.
use vstd::prelude::*;
use vstd::string::{StrSliceExecFns, StringExecFns};

verus! {

pub open spec fn digit_char(d: nat) -> char {
    seq!['0', '1', '2', '3', '4', '5', '6', '7', '8', '9'][d as int]
}

/// The decimal digits of `n`, most significant first, without leading zeros.
pub open spec fn decimal(n: nat) -> Seq<char>
    decreases n,
{
    if n < 10 {
        seq![digit_char(n)]
    } else {
        decimal(n / 10).push(digit_char(n % 10))
    }
}

pub open spec fn hex_char(d: nat) -> char {
    seq!['0', '1', '2', '3', '4', '5', '6', '7', '8', '9', 'a', 'b', 'c', 'd', 'e', 'f'][d as int]
}

/// The last `k` hexadecimal digits of `n`, most significant first.
pub open spec fn hex_digits(n: nat, k: nat) -> Seq<char>
    decreases k,
{
    if k == 0 {
        Seq::empty()
    } else {
        hex_digits(n / 16, (k - 1) as nat).push(hex_char(n % 16))
    }
}

/// The hyphenated lower-case form of the UUID whose 128 bits are `n`.
pub open spec fn uuid_text(n: nat) -> Seq<char> {
    let h = hex_digits(n, 32);
    h.subrange(0, 8) + seq!['-'] + h.subrange(8, 12) + seq!['-'] + h.subrange(12, 16) + seq!['-']
        + h.subrange(16, 20) + seq!['-'] + h.subrange(20, 32)
}

/// The ten digits of the seed that the synthetic contact details share: the
/// sixth to the fifteenth of its decimal form.
pub open spec fn seed_digits(seed: nat) -> Seq<char> {
    decimal(seed).subrange(5, 15)
}

pub open spec fn synthetic_email(seed: nat) -> Seq<char> {
    seed_digits(seed) + "@domain.com"@
}

pub open spec fn synthetic_phone(seed: nat) -> Seq<char> {
    "+1"@ + seed_digits(seed)
}

/// A seed yields contact details when its decimal form has at least fifteen digits.
pub open spec fn seed_is_usable(seed: nat) -> bool {
    decimal(seed).len() >= 15
}

pub open spec fn is_digit(c: char) -> bool {
    '0' <= c && c <= '9'
}

proof fn lemma_digit_char(d: nat)
    requires
        d < 10,
    ensures
        is_digit(digit_char(d)),
{
    let s = seq!['0', '1', '2', '3', '4', '5', '6', '7', '8', '9'];
    assert(s[0] == '0' && s[1] == '1' && s[2] == '2' && s[3] == '3' && s[4] == '4');
    assert(s[5] == '5' && s[6] == '6' && s[7] == '7' && s[8] == '8' && s[9] == '9');
}

/// Every character of a decimal form is a digit.
proof fn lemma_decimal_digits(n: nat)
    ensures
        forall|i: int| 0 <= i < decimal(n).len() ==> is_digit(#[trigger] decimal(n)[i]),
    decreases n,
{
    lemma_digit_char(n % 10);
    if n >= 10 {
        lemma_decimal_digits(n / 10);
        let rest = decimal(n / 10);
        assert forall|i: int| 0 <= i < decimal(n).len() implies is_digit(
            #[trigger] decimal(n)[i],
        ) by {
            if i < rest.len() {
                assert(decimal(n)[i] == rest[i]);
            }
        }
    } else {
        assert(decimal(n) == seq![digit_char(n)]);
    }
}

pub struct RunContext {
    /// Sent on every request as the tracing identifier header.
    pub request_id: String,
    pub email: String,
    pub phone: String,
}

/// `c` is the context derived from `seed`.
pub open spec fn derived_from(c: RunContext, seed: nat) -> bool {
    &&& seed_is_usable(seed)
    &&& c.request_id@ == uuid_text(seed)
    &&& c.email@ == synthetic_email(seed)
    &&& c.phone@ == synthetic_phone(seed)
}

/// The synthetic contact details are fixed by the seed: two contexts derived
/// from one seed agree, and the email address and the phone number both
/// embed the same ten decimal digits of the seed.
pub proof fn lemma_contact_details_share_digits(seed: nat, c1: RunContext, c2: RunContext)
    requires
        derived_from(c1, seed),
        derived_from(c2, seed),
    ensures
        c1.request_id@ == c2.request_id@,
        c1.email@ == c2.email@,
        c1.phone@ == c2.phone@,
        seed_digits(seed).len() == 10,
        forall|i: int| 0 <= i < 10 ==> is_digit(#[trigger] seed_digits(seed)[i]),
        c1.email@.subrange(0, 10) == seed_digits(seed),
        c1.phone@.subrange(2, 12) == seed_digits(seed),
{
    lemma_decimal_digits(seed);
    reveal_strlit("+1");
    let d = seed_digits(seed);
    assert forall|i: int| 0 <= i < 10 implies is_digit(#[trigger] d[i]) by {
        assert(d[i] == decimal(seed)[i + 5]);
    }
    assert(c1.email@.subrange(0, 10) =~= d);
    assert(c1.phone@.subrange(2, 12) =~= d);
}

/// Relies on uuid's `Uuid::from_u128` followed by `to_hyphenated().to_string()`:
/// the 32 hexadecimal digits of the value, most significant first, in lower
/// case, grouped 8-4-4-4-12 by hyphens.
#[verifier::external_body]
fn hyphenated_uuid(n: u128) -> (r: String)
    ensures
        r@ == uuid_text(n as nat),
{
    uuid::Uuid::from_u128(n).to_hyphenated().to_string()
}

/// Relies on rand's `thread_rng().gen::<u128>()`: a fresh random value, of
/// which nothing is promised.
#[verifier::external_body]
fn random_u128() -> u128 {
    rand::Rng::gen::<u128>(&mut rand::thread_rng())
}

/// The one-character text of the decimal digit `d`.
fn digit_text(d: u128) -> (r: &'static str)
    requires
        d < 10,
    ensures
        r@ == seq![digit_char(d as nat)],
{
    let r = if d == 0 {
        proof { reveal_strlit("0"); }
        "0"
    } else if d == 1 {
        proof { reveal_strlit("1"); }
        "1"
    } else if d == 2 {
        proof { reveal_strlit("2"); }
        "2"
    } else if d == 3 {
        proof { reveal_strlit("3"); }
        "3"
    } else if d == 4 {
        proof { reveal_strlit("4"); }
        "4"
    } else if d == 5 {
        proof { reveal_strlit("5"); }
        "5"
    } else if d == 6 {
        proof { reveal_strlit("6"); }
        "6"
    } else if d == 7 {
        proof { reveal_strlit("7"); }
        "7"
    } else if d == 8 {
        proof { reveal_strlit("8"); }
        "8"
    } else {
        proof { reveal_strlit("9"); }
        "9"
    };
    assert(r@ =~= seq![digit_char(d as nat)]);
    r
}

/// The decimal form of `n`.
pub fn decimal_text(n: u128) -> (r: String)
    ensures
        r@ == decimal(n as nat),
{
    let mut acc = digit_text(n % 10).to_owned();
    let mut m: u128 = n / 10;
    assert(n >= 10 ==> decimal(n as nat) =~= decimal(m as nat) + acc@);
    while m > 0
        invariant
            m == 0 ==> decimal(n as nat) == acc@,
            m > 0 ==> decimal(n as nat) == decimal(m as nat) + acc@,
        decreases m,
    {
        let d = digit_text(m % 10);
        let ghost before = acc@;
        acc = d.to_owned().concat(acc.as_str());
        if m >= 10 {
            assert(decimal(m as nat) + before =~= decimal((m / 10) as nat) + acc@);
        } else {
            assert(decimal(m as nat) + before =~= acc@);
        }
        m = m / 10;
    }
    acc
}

impl RunContext {
    /// The context derived from `seed`, or `None` when its decimal form is too
    /// short to supply the ten shared digits.
    pub fn from_seed(seed: u128) -> (r: Option<RunContext>)
        ensures
            r is Some <==> seed_is_usable(seed as nat),
            r matches Some(c) ==> derived_from(c, seed as nat),
    {
        let request_id = hyphenated_uuid(seed);
        let text = decimal_text(seed);
        if text.as_str().unicode_len() < 15 {
            return None;
        }
        let digits = text.as_str().substring_char(5, 15);
        let email = digits.to_owned().concat("@domain.com");
        let phone = "+1".to_owned().concat(digits);
        Some(RunContext { request_id, email, phone })
    }

    /// A context derived from a freshly drawn random seed; `None` when the
    /// drawn seed is not usable.
    pub fn generate() -> (r: Option<RunContext>)
        ensures
            r matches Some(c) ==> exists|seed: nat| #[trigger] derived_from(c, seed),
    {
        let seed = random_u128();
        let r = RunContext::from_seed(seed);
        if let Some(c) = &r {
            assert(derived_from(*c, seed as nat));
        }
        r
    }
}

} // verus!
