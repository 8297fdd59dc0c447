//! Identifiers: 128-bit numbers that are written and read as UUIDs.

use vstd::arithmetic::power::{lemma_pow_adds, lemma_pow_positive, pow};
use vstd::prelude::*;
use uuid::Uuid;

verus! {

/// The hexadecimal digit of `id` that stands for multiples of 16 to the `place`.
pub open spec fn digit(id: u128, place: nat) -> int {
    (id as int / pow(16, place)) % 16
}

/// The character of a hexadecimal digit, in lower case.
pub open spec fn digit_char(value: int) -> char {
    if value < 10 {
        (value + 48) as char
    } else {
        (value + 87) as char
    }
}

/// All 32 digits of `id`, the most significant one first.
pub open spec fn simple_text(id: u128) -> Seq<char> {
    Seq::new(32, |i: int| digit_char(digit(id, (31 - i) as nat)))
}

/// The digits of `id` in groups of 8, 4, 4, 4 and 12 with hyphens between.
pub open spec fn hyphenated_text(id: u128) -> Seq<char> {
    let s = simple_text(id);
    s.subrange(0, 8) + seq!['-'] + s.subrange(8, 12) + seq!['-'] + s.subrange(12, 16) + seq!['-']
        + s.subrange(16, 20) + seq!['-'] + s.subrange(20, 32)
}

/// `text` with its ASCII capitals in lower case.
pub open spec fn lower_case(text: Seq<char>) -> Seq<char> {
    text.map_values(
        |c: char|
            if 'A' <= c && c <= 'Z' {
                (c as int + 32) as char
            } else {
                c
            },
    )
}

/// Whether `text` is one of the written forms of `id`, in either letter case:
/// the bare digits, the hyphenated groups, these in braces, or these behind
/// `urn:uuid:`.
pub open spec fn reads_as(text: Seq<char>, id: u128) -> bool {
    let t = lower_case(text);
    ||| t == simple_text(id)
    ||| t == hyphenated_text(id)
    ||| t == seq!['{'] + hyphenated_text(id) + seq!['}']
    ||| t == seq!['u', 'r', 'n', ':', 'u', 'u', 'i', 'd', ':'] + hyphenated_text(id)
}

/// Whether `id` has the marks of a random UUID: version 4 and the variant of
/// RFC 4122.
pub open spec fn is_random_id(id: u128) -> bool {
    digit(id, 19) == 4 && 8 <= digit(id, 15) <= 11
}

/// `uuid::Uuid::new_v4`: a random identifier. Which one comes is chance; it
/// always has the marks of version 4. (The call panics where the system has
/// no source of randomness, which no argument decides.)
#[verifier::external_body]
fn new_id() -> (id: u128)
    ensures
        is_random_id(id),
{
    Uuid::new_v4().as_u128()
}

/// Whether `id` is one that `new_id` may give: chance alone picks it.
pub closed spec fn drawn_at_random(id: u128) -> bool {
    call_ensures(new_id, (), id)
}

/// An identifier that chance picked has the marks of one.
pub proof fn law_random_ids_have_their_marks(id: u128)
    requires
        drawn_at_random(id),
    ensures
        is_random_id(id),
{
}

/// A random identifier.
pub(crate) fn random_id() -> (id: u128)
    ensures
        drawn_at_random(id),
        is_random_id(id),
{
    new_id()
}

/// `uuid::Uuid`'s `Display`: the hyphenated text, in lower case.
#[verifier::external_body]
pub(crate) fn id_text(id: u128) -> (text: String)
    ensures
        text@ == hyphenated_text(id),
{
    Uuid::from_u128(id).to_string()
}

/// `uuid::Uuid::parse_str`: reads an identifier in any of its written forms
/// and refuses every other text.
#[verifier::external_body]
pub(crate) fn parse_id(text: &String) -> (parsed: Option<u128>)
    ensures
        parsed matches Some(id) ==> reads_as(text@, id),
        parsed is None ==> forall|id: u128| !reads_as(text@, id),
{
    match Uuid::parse_str(text.as_str()) {
        Ok(id) => Some(id.as_u128()),
        Err(_) => None,
    }
}

/// The digits below a place, as a number.
proof fn lemma_digits_below(a: u128, b: u128, n: nat)
    requires
        forall|k: nat| k < n ==> digit(a, k) == digit(b, k),
    ensures
        a as int % pow(16, n) == b as int % pow(16, n),
    decreases n,
{
    lemma_pow_positive(16, n);
    if n == 0 {
        vstd::arithmetic::power::lemma_pow0(16);
    } else {
        let m = (n - 1) as nat;
        lemma_digits_below(a, b, m);
        assert(digit(a, m) == digit(b, m));
        let p = pow(16, m);
        lemma_pow_positive(16, m);
        lemma_pow_adds(16, m, 1);
        vstd::arithmetic::power::lemma_pow1(16);
        assert(pow(16, n) == p * 16);
        lemma_mod_split(a as int, p);
        lemma_mod_split(b as int, p);
    }
}

proof fn lemma_mod_split(a: int, p: int)
    requires
        a >= 0,
        p > 0,
    ensures
        a % (p * 16) == a % p + ((a / p) % 16) * p,
{
    vstd::arithmetic::div_mod::lemma_mod_breakdown(a, p, 16);
    assert(p * ((a / p) % 16) == ((a / p) % 16) * p) by (nonlinear_arith);
}

/// The bare digits tell identifiers apart.
pub proof fn lemma_simple_text_injective(a: u128, b: u128)
    requires
        simple_text(a) == simple_text(b),
    ensures
        a == b,
{
    assert forall|k: nat| k < 32 implies digit(a, k) == digit(b, k) by {
        let i = 31 - k;
        assert((31 - i) as nat == k);
        assert(simple_text(a)[i] == digit_char(digit(a, (31 - i) as nat)));
        assert(simple_text(b)[i] == digit_char(digit(b, (31 - i) as nat)));
        lemma_digit_char_injective(digit(a, k), digit(b, k));
    }
    lemma_digits_below(a, b, 32);
    assert(pow(16, 32) == 0x1_0000_0000_0000_0000_0000_0000_0000_0000int) by {
        reveal(pow);
        reveal_with_fuel(pow, 33);
    }
}

proof fn lemma_digit_char_injective(a: int, b: int)
    requires
        0 <= a < 16,
        0 <= b < 16,
        digit_char(a) == digit_char(b),
    ensures
        a == b,
{
}

/// The hyphenated groups tell identifiers apart.
pub proof fn lemma_hyphenated_text_injective(a: u128, b: u128)
    requires
        hyphenated_text(a) == hyphenated_text(b),
    ensures
        a == b,
{
    let s = simple_text(a);
    let t = simple_text(b);
    assert forall|i: int| 0 <= i < 32 implies s[i] == t[i] by {
        let j = if i < 8 {
            i
        } else if i < 12 {
            i + 1
        } else if i < 16 {
            i + 2
        } else if i < 20 {
            i + 3
        } else {
            i + 4
        };
        assert(hyphenated_text(a)[j] == s[i]);
        assert(hyphenated_text(b)[j] == t[i]);
    }
    assert(s =~= t);
    lemma_simple_text_injective(a, b);
}

/// No text reads as two identifiers.
pub proof fn law_text_reads_as_one_id(text: Seq<char>, a: u128, b: u128)
    requires
        reads_as(text, a),
        reads_as(text, b),
    ensures
        a == b,
{
    let t = lower_case(text);
    let x = hyphenated_text(a);
    let y = hyphenated_text(b);
    if t.len() == 32 {
        lemma_simple_text_injective(a, b);
    } else {
        if t.len() == 38 {
            assert(x =~= t.subrange(1, 37));
            assert(y =~= t.subrange(1, 37));
        } else if t.len() == 45 {
            assert(x =~= t.subrange(9, 45));
            assert(y =~= t.subrange(9, 45));
        }
        lemma_hyphenated_text_injective(a, b);
    }
}

/// What an identifier is written as reads as that identifier.
pub proof fn law_written_id_reads_back(id: u128)
    ensures
        reads_as(hyphenated_text(id), id),
        forall|other: u128| reads_as(hyphenated_text(id), other) ==> other == id,
{
    let s = hyphenated_text(id);
    assert(lower_case(s) =~= s) by {
        assert forall|i: int| 0 <= i < s.len() implies lower_case(s)[i] == s[i] by {
            assert(forall|v: int| 0 <= v < 16 ==> !('A' <= #[trigger] digit_char(v) <= 'Z'));
        }
    }
    assert forall|other: u128| reads_as(s, other) implies other == id by {
        law_text_reads_as_one_id(s, other, id);
    }
}

} // verus!
