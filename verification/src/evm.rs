//! Chain values: hexadecimal words, 256-bit numbers, addresses, hashes and call
//! data.
use alloy::primitives::{Address, B256, U256};
use alloy_sol_types::SolValue;
use std::str::FromStr;
use vstd::prelude::*;

use crate::text::{digit, nat_text};

verus! {

/// The value of a hexadecimal digit of either case.
pub open spec fn hex_value(c: char) -> Option<int> {
    if '0' <= c && c <= '9' {
        Some(c as int - '0' as int)
    } else if 'a' <= c && c <= 'f' {
        Some(c as int - 'a' as int + 10)
    } else if 'A' <= c && c <= 'F' {
        Some(c as int - 'A' as int + 10)
    } else {
        None
    }
}

/// The bytes that pairs of hexadecimal digits spell out.
pub open spec fn hex_decoded(text: Seq<char>) -> Option<Seq<u8>> {
    if text.len() % 2 == 0 && forall|i: int|
        0 <= i < text.len() ==> hex_value(#[trigger] text[i]) is Some {
        Some(
            Seq::new(
                text.len() / 2,
                |i: int| (hex_value(text[2 * i])->0 * 16 + hex_value(text[2 * i + 1])->0) as u8,
            ),
        )
    } else {
        None
    }
}

/// The text without one leading `0x` or `0X`.
pub open spec fn hex_body(text: Seq<char>) -> Seq<char> {
    if text.len() >= 2 && text[0] == '0' && (text[1] == 'x' || text[1] == 'X') {
        text.skip(2)
    } else {
        text
    }
}

/// Exactly `size` bytes in hexadecimal, a `0x` or `0X` in front allowed.
pub open spec fn fixed_hex(text: Seq<char>, size: nat) -> Option<Seq<u8>> {
    match hex_decoded(hex_body(text)) {
        Some(bytes) => if bytes.len() == size {
            Some(bytes)
        } else {
            None
        },
        None => None,
    }
}

/// The small hexadecimal digit of `d`.
pub open spec fn hex_digit(d: int) -> char {
    if d < 10 {
        (48 + d) as char
    } else {
        (87 + d) as char
    }
}

/// Two small hexadecimal digits for each byte.
pub open spec fn hex_encoded(bytes: Seq<u8>) -> Seq<char> {
    Seq::new(
        2 * bytes.len(),
        |i: int|
            if i % 2 == 0 {
                hex_digit(bytes[i / 2] as int / 16)
            } else {
                hex_digit(bytes[i / 2] as int % 16)
            },
    )
}

/// The bytes of an array that may be missing.
pub open spec fn bytes_view<const N: usize>(bytes: Option<[u8; N]>) -> Option<Seq<u8>> {
    match bytes {
        Some(inner) => Some(inner@),
        None => None,
    }
}

/// Calls `FromStr` of a 32-byte `alloy` word, which reads hexadecimal.
#[verifier::external_body]
pub(crate) fn parse_word(text: &str) -> (r: Option<[u8; 32]>)
    ensures
        bytes_view(r) == fixed_hex(text@, 32),
{
    B256::from_str(text).ok().map(|word| word.0)
}

/// What `Display` of the error of `alloy`'s `Address` says of a text that is no
/// address.
pub uninterp spec fn address_error(text: Seq<char>) -> Seq<char>;

/// Calls `FromStr` of `alloy`'s `Address`, which reads 20 bytes of hexadecimal
/// and does not look at the case of the letters. A text that is no address comes
/// back as the text of the error, which is only named.
#[verifier::external_body]
pub(crate) fn parse_address(text: &str) -> (r: Result<[u8; 20], String>)
    ensures
        match r {
            Ok(bytes) => fixed_hex(text@, 20) == Some(bytes@),
            Err(error) => fixed_hex(text@, 20) is None && error@ == address_error(text@),
        },
{
    Address::from_str(text).map(|address| address.into_array()).map_err(|e| e.to_string())
}

/// The text of an address with the checksum in the case of its letters, as
/// `Display` of `alloy`'s `Address` writes it.
pub uninterp spec fn checksum_text(address: Seq<u8>) -> Seq<char>;

/// Calls `to_string` of `alloy`'s `Address`. Which letters come out capital is
/// only named; stated is that the text is `0x` and the 40 digits of the address.
#[verifier::external_body]
pub(crate) fn address_text(address: &[u8; 20]) -> (r: String)
    ensures
        r@ == checksum_text(address@),
        r@.len() == 42,
        r@[0] == '0' && r@[1] == 'x',
        hex_decoded(r@.skip(2)) == Some(address@),
{
    Address::new(*address).to_string()
}

/// Calls `hex::encode`.
#[verifier::external_body]
pub(crate) fn encode_hex(bytes: &[u8; 32]) -> (r: String)
    ensures
        r@ == hex_encoded(bytes@),
{
    hex::encode(bytes)
}

/// The number that `bytes` spell out, the most significant byte first.
pub open spec fn be_value(bytes: Seq<u8>) -> nat
    decreases bytes.len(),
{
    if bytes.len() == 0 {
        0
    } else {
        be_value(bytes.drop_last()) * 256 + bytes.last() as nat
    }
}

/// The last `width` bytes of `n`, the most significant byte first.
pub open spec fn be_bytes(n: nat, width: nat) -> Seq<u8>
    decreases width,
{
    if width == 0 {
        Seq::empty()
    } else {
        be_bytes(n / 256, (width - 1) as nat).push((n % 256) as u8)
    }
}

/// The value of a digit in a base of up to 16.
pub open spec fn digit_in(c: char, base: nat) -> Option<nat> {
    match hex_value(c) {
        Some(d) => if d < base {
            Some(d as nat)
        } else {
            None
        },
        None => None,
    }
}

/// The number that digits of this base spell out. Underscores are passed over.
pub open spec fn digits_value(text: Seq<char>, base: nat) -> Option<nat>
    decreases text.len(),
{
    if text.len() == 0 {
        Some(0)
    } else {
        match (digits_value(text.drop_last(), base), digit_in(text.last(), base)) {
            (Some(value), Some(d)) => Some(value * base + d),
            (Some(value), None) => if text.last() == '_' {
                Some(value)
            } else {
                None
            },
            _ => None,
        }
    }
}

/// The 256-bit number that a text stands for: hexadecimal behind `0x`, octal
/// behind `0o`, binary behind `0b`, decimal otherwise.
pub open spec fn u256_of(text: Seq<char>) -> Option<nat> {
    let mark = if text.len() >= 2 && text[0] == '0' {
        text[1]
    } else {
        ' '
    };
    let value = if mark == 'x' || mark == 'X' {
        digits_value(text.skip(2), 16)
    } else if mark == 'o' || mark == 'O' {
        digits_value(text.skip(2), 8)
    } else if mark == 'b' || mark == 'B' {
        digits_value(text.skip(2), 2)
    } else {
        digits_value(text, 10)
    };
    match value {
        Some(n) => if n < u256_limit() {
            Some(n)
        } else {
            None
        },
        None => None,
    }
}

/// 2^256.
pub open spec fn u256_limit() -> nat {
    0x1_0000_0000_0000_0000_0000_0000_0000_0000_0000_0000_0000_0000_0000_0000_0000_0000nat
}

/// Calls `FromStr` of `alloy`'s `U256`; the number comes back as its 32 bytes.
#[verifier::external_body]
pub(crate) fn parse_u256(text: &str) -> (r: Option<[u8; 32]>)
    ensures
        r is Some == u256_of(text@) is Some,
        r matches Some(bytes) ==> be_value(bytes@) == u256_of(text@)->0,
{
    U256::from_str(text).ok().map(|n| n.to_be_bytes())
}

/// Calls `to_string` of `alloy`'s `U256`, which writes decimal.
#[verifier::external_body]
pub(crate) fn u256_text(bytes: &[u8; 32]) -> (r: String)
    ensures
        r@ == nat_text(be_value(bytes@)),
{
    U256::from_be_bytes(*bytes).to_string()
}

/// The address of the account that a private key belongs to; nothing for a
/// text that is no private key.
pub uninterp spec fn signer_address(private_key: Seq<char>) -> Option<Seq<u8>>;

/// Calls `FromStr` of `alloy`'s `PrivateKeySigner` and takes the address of the
/// signer, 20 bytes. Which address it is is only named; stated is that a private
/// key is written as 32 bytes of hexadecimal.
#[verifier::external_body]
pub(crate) fn address_of_key(private_key: &str) -> (r: Option<[u8; 20]>)
    ensures
        bytes_view(r) == signer_address(private_key@),
        r is Some ==> fixed_hex(private_key@, 32) is Some,
{
    let signer = alloy::signers::local::PrivateKeySigner::from_str(private_key);
    signer.ok().map(|key| key.address().into_array())
}

/// The Keccak-256 hash of `bytes`.
pub uninterp spec fn keccak(bytes: Seq<u8>) -> Seq<u8>;

/// Calls `alloy`'s `keccak256`. The hash is only named; stated is its length.
#[verifier::external_body]
pub(crate) fn keccak256(bytes: &[u8]) -> (r: Vec<u8>)
    ensures
        r@ == keccak(bytes@),
        r@.len() == 32,
{
    alloy::primitives::keccak256(bytes).to_vec()
}

/// The numbers one after the other, each in a word of 32 bytes.
pub open spec fn words(numbers: Seq<u64>) -> Seq<u8>
    decreases numbers.len(),
{
    if numbers.len() == 0 {
        Seq::empty()
    } else {
        words(numbers.drop_last()) + be_bytes(numbers.last() as nat, 32)
    }
}

/// The parameters `(address, bytes32, bytes32, uint256[], uint256)` in the
/// contract ABI: five head words, the fourth of which tells where the array
/// starts, then the array with its length in front.
pub open spec fn position_params(
    collateral: Seq<u8>,
    parent: Seq<u8>,
    condition: Seq<u8>,
    sets: Seq<u64>,
    amount: u64,
) -> Seq<u8> {
    be_bytes(0, 12) + collateral + parent + condition + be_bytes(160, 32) + be_bytes(
        amount as nat,
        32,
    ) + be_bytes(sets.len(), 32) + words(sets)
}

/// The parameters `(address, bytes32, bytes32, uint256[])` in the contract ABI:
/// four head words, the fourth of which tells where the array starts, then the
/// array with its length in front.
pub open spec fn redeem_params(
    collateral: Seq<u8>,
    parent: Seq<u8>,
    condition: Seq<u8>,
    sets: Seq<u64>,
) -> Seq<u8> {
    be_bytes(0, 12) + collateral + parent + condition + be_bytes(128, 32) + be_bytes(
        sets.len(),
        32,
    ) + words(sets)
}

/// Calls `SolValue::abi_encode_params` of `alloy_sol_types` on a tuple of an
/// address, two words, an array of numbers and a number.
#[verifier::external_body]
pub(crate) fn encode_position_params(
    collateral: &[u8; 20],
    parent: &[u8; 32],
    condition: &[u8; 32],
    sets: &Vec<u64>,
    amount: u64,
) -> (r: Vec<u8>)
    ensures
        r@ == position_params(collateral@, parent@, condition@, sets@, amount),
{
    (
        Address::new(*collateral),
        B256::new(*parent),
        B256::new(*condition),
        sets.iter().map(|set| U256::from(*set)).collect::<Vec<U256>>(),
        U256::from(amount),
    ).abi_encode_params()
}

/// Calls `SolValue::abi_encode_params` of `alloy_sol_types` on a tuple of an
/// address, two words and an array of numbers.
#[verifier::external_body]
pub(crate) fn encode_redeem_params(
    collateral: &[u8; 20],
    parent: &[u8; 32],
    condition: &[u8; 32],
    sets: &Vec<u64>,
) -> (r: Vec<u8>)
    ensures
        r@ == redeem_params(collateral@, parent@, condition@, sets@),
{
    (
        Address::new(*collateral),
        B256::new(*parent),
        B256::new(*condition),
        sets.iter().map(|set| U256::from(*set)).collect::<Vec<U256>>(),
    ).abi_encode_params()
}

/// A numeral written in decimal reads back as its number.
pub proof fn u256_text_reads_back(n: nat)
    requires
        n < u256_limit(),
    ensures
        u256_of(nat_text(n)) == Some(n),
{
    lemma_numeral(n);
    let text = nat_text(n);
    if text.len() >= 2 {
        lemma_numeral_digits(n, 1);
    }
}

/// The digits of a numeral are decimal ones, and they spell out its number.
proof fn lemma_numeral(n: nat)
    ensures
        nat_text(n).len() > 0,
        digits_value(nat_text(n), 10) == Some(n),
    decreases n,
{
    let text = nat_text(n);
    reveal_with_fuel(digits_value, 2);
    if n < 10 {
        assert(text.drop_last() =~= Seq::<char>::empty());
        assert(text.last() == digit(n as int));
    } else {
        lemma_numeral(n / 10);
        assert(text.drop_last() =~= nat_text(n / 10));
        assert(text.last() == digit((n % 10) as int));
        assert(n / 10 * 10 + n % 10 == n);
    }
}

/// Every character of a numeral is a decimal digit.
proof fn lemma_numeral_digits(n: nat, i: int)
    requires
        0 <= i < nat_text(n).len(),
    ensures
        '0' <= nat_text(n)[i] && nat_text(n)[i] <= '9',
    decreases n,
{
    if n >= 10 && i < nat_text(n).len() - 1 {
        lemma_numeral_digits(n / 10, i);
        assert(nat_text(n)[i] == nat_text(n / 10)[i]);
    }
}

/// What `hex_encoded` writes, with `0x` in front, reads back as the bytes.
pub proof fn hex_text_reads_back(bytes: Seq<u8>)
    ensures
        hex_decoded(hex_encoded(bytes)) == Some(bytes),
        fixed_hex("0x"@ + hex_encoded(bytes), bytes.len()) == Some(bytes),
{
    reveal_strlit("0x");
    let text = hex_encoded(bytes);
    assert forall|i: int| 0 <= i < text.len() implies hex_value(#[trigger] text[i]) is Some by {}
    assert(hex_decoded(text)->0 =~= bytes) by {
        assert forall|i: int| 0 <= i < bytes.len() implies #[trigger] hex_decoded(text)->0[i]
            == bytes[i] by {
            assert(text[2 * i] == hex_digit(bytes[i] as int / 16));
            assert(text[2 * i + 1] == hex_digit(bytes[i] as int % 16));
        }
    }
    let prefixed = "0x"@ + text;
    assert(prefixed.skip(2) =~= text);
}

} // verus!
