//! Job and snippet identifiers: 128-bit values, written in the canonical
//! hyphenated lowercase form and read back from it.
use vstd::prelude::*;

verus! {

/// `16` raised to `count`.
pub open spec fn pow16(count: nat) -> nat
    decreases count,
{
    if count == 0 {
        1
    } else {
        16 * pow16((count - 1) as nat)
    }
}

/// The lowercase hexadecimal digit for a value below 16.
pub open spec fn hex_digit(v: nat) -> char {
    if v < 10 {
        (48 + v) as char
    } else {
        (87 + v) as char
    }
}

/// The last `count` hexadecimal digits of `n`, most significant first.
pub open spec fn hex_digits(n: nat, count: nat) -> Seq<char>
    decreases count,
{
    if count == 0 {
        Seq::empty()
    } else {
        hex_digits(n / 16, (count - 1) as nat).push(hex_digit(n % 16))
    }
}

/// The canonical text of an identifier: its 32 hexadecimal digits in groups
/// of 8, 4, 4, 4 and 12, joined by hyphens.
pub open spec fn uuid_text(id: u128) -> Seq<char> {
    let d = hex_digits(id as nat, 32);
    d.subrange(0, 8) + seq!['-'] + d.subrange(8, 12) + seq!['-'] + d.subrange(12, 16) + seq!['-']
        + d.subrange(16, 20) + seq!['-'] + d.subrange(20, 32)
}

/// Whether a text is the canonical text of some identifier.
pub open spec fn is_uuid_text(text: Seq<char>) -> bool {
    exists|id: u128| uuid_text(id) == text
}

/// The identifier whose canonical text is `text`, where there is one.
pub open spec fn uuid_of_text(text: Seq<char>) -> u128
    recommends
        is_uuid_text(text),
{
    choose|id: u128| uuid_text(id) == text
}

/// What `uuid::Uuid::parse_str` makes of a text, as a 128-bit value.
pub uninterp spec fn uuid_parsed(text: Seq<char>) -> Option<u128>;

/// What a text reads as: the identifier whose canonical text it is, or else
/// whatever `uuid::Uuid::parse_str` makes of it.
pub open spec fn read_id(text: Seq<char>) -> Option<u128> {
    if is_uuid_text(text) {
        Some(uuid_of_text(text))
    } else {
        uuid_parsed(text)
    }
}

#[verifier::external_type_specification]
#[verifier::external_body]
pub struct ExUuidError(uuid::Error);

/// Writes an identifier through `uuid::Uuid`'s `Display`, which the uuid crate
/// defines as the lowercase hyphenated form of the big-endian bytes of the value
/// (`Uuid::from_u128`). Claimed: the text is `uuid_text(id)`.
#[verifier::external_body]
pub(crate) fn uuid_to_text(id: u128) -> (text: String)
    ensures
        text@ == uuid_text(id),
{
    uuid::Uuid::from_u128(id).to_string()
}

/// Reads an identifier through `uuid::Uuid::parse_str`. Claimed: the canonical
/// hyphenated text of a value (one of the formats that the crate documents as
/// accepted) reads back as that value; any other text reads as the named
/// `uuid_parsed` of it. Which other texts are accepted is left unsaid.
#[verifier::external_body]
pub(crate) fn parse_uuid(text: &str) -> (parsed: Result<u128, uuid::Error>)
    ensures
        is_uuid_text(text@) ==> parsed is Ok && parsed->Ok_0 == uuid_of_text(text@),
        !is_uuid_text(text@) ==> (parsed is Ok <==> uuid_parsed(text@) is Some),
        !is_uuid_text(text@) && parsed is Ok ==> uuid_parsed(text@) == Some(parsed->Ok_0),
{
    match uuid::Uuid::parse_str(text) {
        Ok(u) => Ok(u.as_u128()),
        Err(e) => Err(e),
    }
}

/// The nil identifier through `uuid::Uuid::nil`, which is all zero bits.
#[verifier::external_body]
pub(crate) fn uuid_nil() -> (id: u128)
    ensures
        id == 0,
{
    uuid::Uuid::nil().as_u128()
}

/// The canonical text of an identifier.
pub fn id_text(id: u128) -> (text: String)
    ensures
        text@ == uuid_text(id),
{
    uuid_to_text(id)
}

/// Reads an identifier from a text, as `uuid::Uuid::parse_str` does.
pub fn parse_id(text: &str) -> (id: Result<u128, uuid::Error>)
    ensures
        id is Ok <==> read_id(text@) is Some,
        id is Ok ==> id->Ok_0 == read_id(text@)->0,
{
    parse_uuid(text)
}

/// The nil identifier, given to snippets saved without an owner.
pub fn nil_id() -> (id: u128)
    ensures
        id == 0,
{
    uuid_nil()
}

pub proof fn lemma_hex_digits_len(n: nat, count: nat)
    ensures
        hex_digits(n, count).len() == count,
    decreases count,
{
    if count > 0 {
        lemma_hex_digits_len(n / 16, (count - 1) as nat);
    }
}

proof fn lemma_hex_digit_injective(a: nat, b: nat)
    requires
        a < 16,
        b < 16,
        hex_digit(a) == hex_digit(b),
    ensures
        a == b,
{
}

proof fn lemma_hex_digits_injective(a: nat, b: nat, count: nat)
    requires
        a < pow16(count),
        b < pow16(count),
        hex_digits(a, count) == hex_digits(b, count),
    ensures
        a == b,
    decreases count,
{
    if count > 0 {
        let c1 = (count - 1) as nat;
        let da = hex_digits(a, count);
        let db = hex_digits(b, count);
        assert(da.last() == db.last());
        lemma_hex_digit_injective(a % 16, b % 16);
        assert(da.drop_last() =~= hex_digits(a / 16, c1));
        assert(db.drop_last() =~= hex_digits(b / 16, c1));
        assert(a / 16 < pow16(c1)) by (nonlinear_arith)
            requires
                a < 16 * pow16(c1),
        ;
        assert(b / 16 < pow16(c1)) by (nonlinear_arith)
            requires
                b < 16 * pow16(c1),
        ;
        lemma_hex_digits_injective(a / 16, b / 16, c1);
        assert(a == 16 * (a / 16) + a % 16) by (nonlinear_arith);
        assert(b == 16 * (b / 16) + b % 16) by (nonlinear_arith);
    }
}

proof fn lemma_pow16_32()
    ensures
        pow16(32) == 0x1_0000_0000_0000_0000_0000_0000_0000_0000,
{
    reveal_with_fuel(pow16, 33);
}

/// The canonical text has 36 characters.
pub proof fn lemma_uuid_text_len(id: u128)
    ensures
        uuid_text(id).len() == 36,
{
    lemma_hex_digits_len(id as nat, 32);
}

/// Distinct identifiers have distinct canonical texts.
pub proof fn lemma_uuid_text_injective(a: u128, b: u128)
    requires
        uuid_text(a) == uuid_text(b),
    ensures
        a == b,
{
    let da = hex_digits(a as nat, 32);
    let db = hex_digits(b as nat, 32);
    lemma_hex_digits_len(a as nat, 32);
    lemma_hex_digits_len(b as nat, 32);
    let t = uuid_text(a);
    assert(da =~= t.subrange(0, 8) + t.subrange(9, 13) + t.subrange(14, 18) + t.subrange(19, 23)
        + t.subrange(24, 36));
    assert(db =~= t.subrange(0, 8) + t.subrange(9, 13) + t.subrange(14, 18) + t.subrange(19, 23)
        + t.subrange(24, 36));
    lemma_pow16_32();
    lemma_hex_digits_injective(a as nat, b as nat, 32);
}

/// Law: the canonical text of an identifier reads back as that identifier.
pub proof fn lemma_id_text_reads_back(id: u128)
    ensures
        read_id(uuid_text(id)) == Some(id),
{
    assert(is_uuid_text(uuid_text(id)));
    let other = uuid_of_text(uuid_text(id));
    lemma_uuid_text_injective(other, id);
}

} // verus!
