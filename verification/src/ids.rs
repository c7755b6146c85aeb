//! Identifiers: random UUIDs and short base-36 ids derived from them.

use std::collections::hash_map::DefaultHasher;
use std::hash::Hash;
use std::hash::Hasher;
use uuid::Uuid;
use vstd::prelude::*;
use vstd::string::StrSliceExecFns;
use vstd::string::StringExecFns;

verus! {

/// `uuid::Uuid`, a 128-bit identifier.
#[verifier::external_type_specification]
#[verifier::external_body]
pub struct ExUuid(uuid::Uuid);

/// `uuid::Error`, the reason why a text is no UUID.
#[verifier::external_type_specification]
#[verifier::external_body]
pub struct ExUuidError(uuid::Error);

/// The `Clone` impl of `uuid::Uuid`. The type is `Copy`, and its clone is
/// the identifier itself.
pub assume_specification[ <uuid::Uuid as Clone>::clone ](id: &uuid::Uuid) -> (copy: uuid::Uuid)
    ensures
        copy == *id,
;

/// The 128 bits of an identifier, most significant first: what
/// `Uuid::as_u128` returns.
pub uninterp spec fn uuid_value(id: uuid::Uuid) -> u128;

/// What `Uuid::parse_str` makes of a text: the value of the identifier it
/// reads, or `None` where it reports an error.
pub uninterp spec fn parsed_uuid(text: Seq<char>) -> Option<u128>;

/// The bits of an identifier that hold its version and its variant.
pub const VERSION_AND_VARIANT_MASK: u128 = 0x0000_0000_0000_f000_c000_0000_0000_0000;

/// What those bits hold in a random identifier: version 4, variant `10`.
pub const RANDOM_VERSION_AND_VARIANT: u128 = 0x0000_0000_0000_4000_8000_0000_0000_0000;

/// Whether the value is marked as a random (version 4) identifier.
pub open spec fn is_random_uuid(value: u128) -> bool {
    value & VERSION_AND_VARIANT_MASK == RANDOM_VERSION_AND_VARIANT
}

/// Calls `Uuid::new_v4`, which draws 128 random bits and then sets the
/// version to 4 and the variant to `10`. Only those fixed bits are claimed.
#[verifier::external_body]
fn random_uuid() -> (id: Uuid)
    ensures
        is_random_uuid(uuid_value(id)),
{
    Uuid::new_v4()
}

/// Calls `Uuid::parse_str`. The parser reads nothing but the text, so its
/// answer is the named function of the text.
#[verifier::external_body]
fn parse_uuid(text: &str) -> (parsed: Result<Uuid, uuid::Error>)
    ensures
        match parsed {
            Ok(id) => parsed_uuid(text@) == Some(uuid_value(id)),
            Err(_) => parsed_uuid(text@) is None,
        },
{
    Uuid::parse_str(text)
}

/// Calls `Uuid::as_u128`, which packs the sixteen bytes of the identifier
/// into one number, first byte first.
#[verifier::external_body]
fn uuid_bits(id: &Uuid) -> (bits: u128)
    ensures
        bits == uuid_value(*id),
{
    id.as_u128()
}

/// The 128 bits of an identifier as one number.
pub fn uuid_number(id: &Uuid) -> (bits: u128)
    ensures
        bits == uuid_value(*id),
{
    uuid_bits(id)
}

/// Calls the `Hash` impl of `Uuid` on a hasher. Nothing is claimed of what
/// it writes.
#[verifier::external_body]
fn feed_uuid(hasher: &mut DefaultHasher, id: &Uuid) {
    id.hash(hasher)
}

/// A fresh random identifier of version 4.
pub fn generate_uuid() -> (id: Uuid)
    ensures
        is_random_uuid(uuid_value(id)),
{
    random_uuid()
}

/// Reads an identifier from its text.
pub fn uuid_from_string(s: &str) -> (parsed: Result<Uuid, uuid::Error>)
    ensures
        match parsed {
            Ok(id) => parsed_uuid(s@) == Some(uuid_value(id)),
            Err(_) => parsed_uuid(s@) is None,
        },
{
    parse_uuid(s)
}

/// The digits of base 36, in order of their value.
pub open spec fn alphabet() -> Seq<char> {
    "0123456789abcdefghijklmnopqrstuvwxyz"@
}

/// The number written in base 36, most significant digit first, without
/// leading zeros; zero is the single digit `0`.
pub open spec fn base36(n: nat) -> Seq<char>
    decreases n,
{
    if n < 36 {
        seq![alphabet()[n as int]]
    } else {
        base36(n / 36).push(alphabet()[(n % 36) as int])
    }
}

/// The value of a sequence of base-36 digits, read most significant first.
pub open spec fn base36_value(digits: Seq<char>) -> nat
    decreases digits.len(),
{
    if digits.len() == 0 {
        0
    } else {
        base36_value(digits.drop_last()) * 36 + alphabet().index_of(digits.last()) as nat
    }
}

/// Whether every character is a digit of base 36.
pub open spec fn is_base36(text: Seq<char>) -> bool {
    forall|i: int| 0 <= i < text.len() ==> alphabet().contains(#[trigger] text[i])
}

/// The alphabet has 36 distinct digits, all of them ASCII.
pub proof fn lemma_alphabet()
    ensures
        alphabet().len() == 36,
        alphabet().no_duplicates(),
        forall|i: int| 0 <= i < 36 ==> '\0' <= #[trigger] alphabet()[i] <= '\u{7f}',
        forall|i: int| 0 <= i < 36 ==> alphabet().index_of(#[trigger] alphabet()[i]) == i,
{
    reveal_strlit("0123456789abcdefghijklmnopqrstuvwxyz");
    assert(alphabet().no_duplicates());
    assert forall|i: int| 0 <= i < 36 implies alphabet().index_of(#[trigger] alphabet()[i])
        == i by {
        alphabet().index_of_first_ensures(alphabet()[i]);
        let j = alphabet().index_of(alphabet()[i]);
        assert(alphabet()[j] == alphabet()[i]);
    }
}

/// A number written in base 36 is made of base-36 digits only, is not
/// empty, and reads back as the number.
pub proof fn lemma_base36_reads_back(n: nat)
    ensures
        base36(n).len() >= 1,
        is_base36(base36(n)),
        vstd::utf8::is_ascii_chars(base36(n)),
        base36_value(base36(n)) == n,
    decreases n,
{
    lemma_alphabet();
    if n < 36 {
        let digits = base36(n);
        assert(digits.drop_last() =~= Seq::<char>::empty());
        assert(base36_value(digits.drop_last()) == 0);
        assert(digits.last() == alphabet()[n as int]);
        assert(alphabet().contains(alphabet()[n as int]));
    } else {
        lemma_base36_reads_back(n / 36);
        let digits = base36(n);
        let digit = alphabet()[(n % 36) as int];
        assert(digits.drop_last() =~= base36(n / 36));
        assert(digits.last() == digit);
        assert(alphabet().contains(digit));
        assert forall|i: int| 0 <= i < digits.len() implies alphabet().contains(
            #[trigger] digits[i],
        ) by {
            if i < digits.len() - 1 {
                assert(digits[i] == base36(n / 36)[i]);
            }
        }
        assert forall|i: int| 0 <= i < digits.len() implies '\0' <= #[trigger] digits[i]
            <= '\u{7f}' by {
            if i < digits.len() - 1 {
                assert(digits[i] == base36(n / 36)[i]);
            }
        }
    }
}

/// A 64-bit number has at most 13 digits in base 36.
pub proof fn lemma_base36_length(n: nat)
    requires
        n <= u64::MAX,
    ensures
        1 <= base36(n).len() <= 13,
{
    reveal_with_fuel(base36, 14);
}

/// Writes `n` in base 36.
pub fn encode(n: u64) -> (text: String)
    ensures
        text@ == base36(n as nat),
    decreases n,
{
    let digits = "0123456789abcdefghijklmnopqrstuvwxyz";
    proof {
        reveal_strlit("0123456789abcdefghijklmnopqrstuvwxyz");
    }
    let value: usize = (n % 36) as usize;
    let last = digits.substring_ascii(value, value + 1);
    assert(last@ =~= seq![alphabet()[value as int]]);
    if n < 36 {
        String::from_str(last)
    } else {
        let text = encode(n / 36).concat(last);
        assert(text@ =~= base36((n / 36) as nat).push(alphabet()[value as int]));
        text
    }
}

/// The first `length` characters of `id`, or all of it where it is shorter.
pub open spec fn shortened(id: Seq<char>, length: nat) -> Seq<char> {
    if id.len() >= length {
        id.subrange(0, length as int)
    } else {
        id
    }
}

/// Cuts an id to at most `length` characters.
pub fn shorten(id: String, length: usize) -> (short: String)
    ensures
        short@ == shortened(id@, length as nat),
{
    let text = id.as_str();
    if text.unicode_len() >= length {
        String::from_str(text.substring_char(0, length))
    } else {
        id
    }
}

/// A short id: a fresh random identifier, hashed to 64 bits and written in
/// base 36. It has between one and thirteen digits.
pub fn generate_short_id() -> (id: String)
    ensures
        exists|hash: u64| id@ == #[trigger] base36(hash as nat),
        is_base36(id@),
        1 <= id@.len() <= 13,
{
    let uuid = generate_uuid();
    let mut hasher = DefaultHasher::new();
    feed_uuid(&mut hasher, &uuid);
    let hash = hasher.finish();
    proof {
        lemma_base36_reads_back(hash as nat);
        lemma_base36_length(hash as nat);
    }
    encode(hash)
}

/// A short id of at most `length` characters: the start of a short id.
pub fn generate_short_id_with_length(length: usize) -> (id: String)
    ensures
        exists|hash: u64| id@ == shortened(#[trigger] base36(hash as nat), length as nat),
        id@.len() <= length,
        id@.len() <= 13,
        is_base36(id@),
{
    let full = generate_short_id();
    let id = shorten(full, length);
    id
}

} // verus!
