//! The hardcoded genesis block of each variant.
//!
//! Each variant carries the protocol-defined serialized first block of its
//! chain as a fixed hexadecimal constant. Decoding is deterministic: the
//! constant is first read as bytes, two hexadecimal digits to a byte, and
//! the bytes are then read as one block in the standard consensus encoding.

use crate::chain::Chain;
use vstd::prelude::*;

verus! {

/// `bitcoin::Block` carries a decoded block; its inside is opaque here.
#[verifier::external_type_specification]
#[verifier::external_body]
pub struct ExBlock(bitcoin::Block);

/// Whether a character is an ASCII hexadecimal digit.
pub open spec fn is_hex_digit(c: char) -> bool {
    ('0' <= c && c <= '9') || ('a' <= c && c <= 'f') || ('A' <= c && c <= 'F')
}

/// The numeric value of a hexadecimal digit.
pub open spec fn hex_digit_value(c: char) -> int
    recommends
        is_hex_digit(c),
{
    if '0' <= c && c <= '9' {
        c as int - '0' as int
    } else if 'a' <= c && c <= 'f' {
        c as int - 'a' as int + 10
    } else {
        c as int - 'A' as int + 10
    }
}

/// Whether a string is a well-formed hexadecimal byte string: even length,
/// hexadecimal digits throughout.
pub open spec fn valid_hex(s: Seq<char>) -> bool {
    s.len() % 2 == 0 && (forall|i: int| 0 <= i < s.len() ==> is_hex_digit(#[trigger] s[i]))
}

/// The bytes a hexadecimal string denotes: each digit pair becomes one
/// byte, high digit first.
pub open spec fn hex_bytes(s: Seq<char>) -> Seq<u8>
    recommends
        valid_hex(s),
{
    Seq::new(
        s.len() / 2,
        |i: int| (hex_digit_value(s[2 * i]) * 16 + hex_digit_value(s[2 * i + 1])) as u8,
    )
}

/// Relies on `hex::decode`: it succeeds exactly on even-length strings of
/// hexadecimal digits (upper or lower case), reading each digit pair as one
/// byte, high digit first.
#[verifier::external_body]
fn decode_hex(s: &str) -> (r: Option<Vec<u8>>)
    ensures
        r is Some <==> valid_hex(s@),
        r is Some ==> r.unwrap()@ == hex_bytes(s@),
{
    hex::decode(s).ok()
}

/// What `bitcoin::consensus::deserialize` returns for a byte string read as
/// a block. The result depends on the bytes alone.
pub uninterp spec fn block_decode(bytes: Seq<u8>) -> Option<bitcoin::Block>;

/// Relies on `bitcoin::consensus::deserialize` for `Block`: it reads one
/// block in the standard consensus encoding and errors (rather than panics)
/// unless the bytes hold exactly one well-formed block.
#[verifier::external_body]
fn decode_block(bytes: &Vec<u8>) -> (r: Option<bitcoin::Block>)
    ensures
        r == block_decode(bytes@),
{
    bitcoin::consensus::deserialize::<bitcoin::Block>(bytes.as_slice()).ok()
}

impl Chain {
    /// The serialized genesis block of the variant, as hexadecimal.
    pub open spec fn spec_genesis_hex(self) -> Seq<char> {
        match self {
            Chain::Mainnet => "010000000000000000000000000000000000000000000000000000000000000000000000c8dba1ac8b65829fb16cdbd83528c192cb76bf96e55021e9170743270b124e3d40bc9051f0ff0f1e21b0b006010100000001000000000000000000000000000000000000000000000000000000000000000000ffffffff1004ffff001d0104084e696e746f6e646fffffffff010058850c020000004341040184710fa689ad5023690c80f3a49c8f13f8d45b8c857fbcbc8bc4a8e4d3eb4b10f4d4604fa08dce601aaf0f470216fe1b51850b4acf21b179c45070ac7b03a9ac00000000"@,
            Chain::Regtest => "010000000000000000000000000000000000000000000000000000000000000000000000c8dba1ac8b65829fb16cdbd83528c192cb76bf96e55021e9170743270b124e3d90a51951f0ff0f1e7f8bb800010100000001000000000000000000000000000000000000000000000000000000000000000000ffffffff1004ffff001d0104084e696e746f6e646fffffffff010058850c020000004341040184710fa689ad5023690c80f3a49c8f13f8d45b8c857fbcbc8bc4a8e4d3eb4b10f4d4604fa08dce601aaf0f470216fe1b51850b4acf21b179c45070ac7b03a9ac00000000"@,
            Chain::Signet => "010000000000000000000000000000000000000000000000000000000000000000000000c8dba1ac8b65829fb16cdbd83528c192cb76bf96e55021e9170743270b124e3db9a7f052f0ff0f1ef7390f000101000000010000000000000000000000000000000000000000000000000000000000000000ffffffff1004ffff001d0104084e696e746f6e646fffffffff010058850c020000004341040184710fa689ad5023690c80f3a49c8f13f8d45b8c857fbcbc8bc4a8e4d3eb4b10f4d4604fa08dce601aaf0f470216fe1b51850b4acf21b179c45070ac7b03a9ac00000000"@,
            Chain::Testnet => "010000000000000000000000000000000000000000000000000000000000000000000000c8dba1ac8b65829fb16cdbd83528c192cb76bf96e55021e9170743270b124e3db9a7f052f0ff0f1ef7390f000101000000010000000000000000000000000000000000000000000000000000000000000000ffffffff1004ffff001d0104084e696e746f6e646fffffffff010058850c020000004341040184710fa689ad5023690c80f3a49c8f13f8d45b8c857fbcbc8bc4a8e4d3eb4b10f4d4604fa08dce601aaf0f470216fe1b51850b4acf21b179c45070ac7b03a9ac00000000"@,
        }
    }

    /// The bytes the variant's genesis constant denotes.
    pub open spec fn spec_genesis_bytes(self) -> Seq<u8> {
        hex_bytes(self.spec_genesis_hex())
    }

    /// The decoded genesis block of the variant: present exactly when the
    /// bytes of the embedded constant decode to one well-formed block.
    pub open spec fn spec_genesis_block(self) -> Option<bitcoin::Block> {
        block_decode(self.spec_genesis_bytes())
    }

    /// The fully-decoded first block of the chain, derived from the fixed
    /// hexadecimal constant. A malformed constant is a configuration
    /// defect, reported as `None` rather than by panicking; a compiled-in
    /// test pins the outcome per variant.
    pub fn genesis_block(self) -> (r: Option<bitcoin::Block>)
        ensures
            r == self.spec_genesis_block(),
    {
        let genesis_hex: &str = match self {
            Chain::Mainnet => "010000000000000000000000000000000000000000000000000000000000000000000000c8dba1ac8b65829fb16cdbd83528c192cb76bf96e55021e9170743270b124e3d40bc9051f0ff0f1e21b0b006010100000001000000000000000000000000000000000000000000000000000000000000000000ffffffff1004ffff001d0104084e696e746f6e646fffffffff010058850c020000004341040184710fa689ad5023690c80f3a49c8f13f8d45b8c857fbcbc8bc4a8e4d3eb4b10f4d4604fa08dce601aaf0f470216fe1b51850b4acf21b179c45070ac7b03a9ac00000000",
            Chain::Regtest => "010000000000000000000000000000000000000000000000000000000000000000000000c8dba1ac8b65829fb16cdbd83528c192cb76bf96e55021e9170743270b124e3d90a51951f0ff0f1e7f8bb800010100000001000000000000000000000000000000000000000000000000000000000000000000ffffffff1004ffff001d0104084e696e746f6e646fffffffff010058850c020000004341040184710fa689ad5023690c80f3a49c8f13f8d45b8c857fbcbc8bc4a8e4d3eb4b10f4d4604fa08dce601aaf0f470216fe1b51850b4acf21b179c45070ac7b03a9ac00000000",
            Chain::Signet => "010000000000000000000000000000000000000000000000000000000000000000000000c8dba1ac8b65829fb16cdbd83528c192cb76bf96e55021e9170743270b124e3db9a7f052f0ff0f1ef7390f000101000000010000000000000000000000000000000000000000000000000000000000000000ffffffff1004ffff001d0104084e696e746f6e646fffffffff010058850c020000004341040184710fa689ad5023690c80f3a49c8f13f8d45b8c857fbcbc8bc4a8e4d3eb4b10f4d4604fa08dce601aaf0f470216fe1b51850b4acf21b179c45070ac7b03a9ac00000000",
            Chain::Testnet => "010000000000000000000000000000000000000000000000000000000000000000000000c8dba1ac8b65829fb16cdbd83528c192cb76bf96e55021e9170743270b124e3db9a7f052f0ff0f1ef7390f000101000000010000000000000000000000000000000000000000000000000000000000000000ffffffff1004ffff001d0104084e696e746f6e646fffffffff010058850c020000004341040184710fa689ad5023690c80f3a49c8f13f8d45b8c857fbcbc8bc4a8e4d3eb4b10f4d4604fa08dce601aaf0f470216fe1b51850b4acf21b179c45070ac7b03a9ac00000000",
        };
        match decode_hex(genesis_hex) {
            Some(buf) => decode_block(&buf),
            None => {
                proof {
                    lemma_genesis_hex_valid(self);
                }
                unreached()
            },
        }
    }
}

/// The mainnet genesis constant is well-formed hexadecimal.
proof fn lemma_mainnet_hex_valid()
    ensures
        valid_hex(Chain::Mainnet.spec_genesis_hex()),
{
    reveal_strlit(
        "010000000000000000000000000000000000000000000000000000000000000000000000c8dba1ac8b65829fb16cdbd83528c192cb76bf96e55021e9170743270b124e3d40bc9051f0ff0f1e21b0b006010100000001000000000000000000000000000000000000000000000000000000000000000000ffffffff1004ffff001d0104084e696e746f6e646fffffffff010058850c020000004341040184710fa689ad5023690c80f3a49c8f13f8d45b8c857fbcbc8bc4a8e4d3eb4b10f4d4604fa08dce601aaf0f470216fe1b51850b4acf21b179c45070ac7b03a9ac00000000",
    );
    let s = Chain::Mainnet.spec_genesis_hex();
    assert(s.len() == 450);
    assert forall|i: int| 0 <= i < s.len() implies is_hex_digit(#[trigger] s[i]) by {}
}

/// The regtest genesis constant is well-formed hexadecimal.
proof fn lemma_regtest_hex_valid()
    ensures
        valid_hex(Chain::Regtest.spec_genesis_hex()),
{
    reveal_strlit(
        "010000000000000000000000000000000000000000000000000000000000000000000000c8dba1ac8b65829fb16cdbd83528c192cb76bf96e55021e9170743270b124e3d90a51951f0ff0f1e7f8bb800010100000001000000000000000000000000000000000000000000000000000000000000000000ffffffff1004ffff001d0104084e696e746f6e646fffffffff010058850c020000004341040184710fa689ad5023690c80f3a49c8f13f8d45b8c857fbcbc8bc4a8e4d3eb4b10f4d4604fa08dce601aaf0f470216fe1b51850b4acf21b179c45070ac7b03a9ac00000000",
    );
    let s = Chain::Regtest.spec_genesis_hex();
    assert(s.len() == 450);
    assert forall|i: int| 0 <= i < s.len() implies is_hex_digit(#[trigger] s[i]) by {}
}

/// The signet genesis constant, which testnet shares, is well-formed
/// hexadecimal.
proof fn lemma_signet_hex_valid()
    ensures
        valid_hex(Chain::Signet.spec_genesis_hex()),
        valid_hex(Chain::Testnet.spec_genesis_hex()),
{
    reveal_strlit(
        "010000000000000000000000000000000000000000000000000000000000000000000000c8dba1ac8b65829fb16cdbd83528c192cb76bf96e55021e9170743270b124e3db9a7f052f0ff0f1ef7390f000101000000010000000000000000000000000000000000000000000000000000000000000000ffffffff1004ffff001d0104084e696e746f6e646fffffffff010058850c020000004341040184710fa689ad5023690c80f3a49c8f13f8d45b8c857fbcbc8bc4a8e4d3eb4b10f4d4604fa08dce601aaf0f470216fe1b51850b4acf21b179c45070ac7b03a9ac00000000",
    );
    let s = Chain::Signet.spec_genesis_hex();
    assert(s.len() == 448);
    assert forall|i: int| 0 <= i < s.len() implies is_hex_digit(#[trigger] s[i]) by {}
}

/// Every embedded genesis constant is an even-length string of hexadecimal
/// digits, so reading it as bytes never fails.
pub proof fn lemma_genesis_hex_valid(c: Chain)
    ensures
        valid_hex(c.spec_genesis_hex()),
{
    lemma_mainnet_hex_valid();
    lemma_regtest_hex_valid();
    lemma_signet_hex_valid();
}

/// Every genesis lookup is a function of the variant alone: two results for
/// the same variant are identical.
pub proof fn lemma_genesis_deterministic(c: Chain, r1: Option<bitcoin::Block>, r2: Option<
    bitcoin::Block,
>)
    requires
        r1 == c.spec_genesis_block(),
        r2 == c.spec_genesis_block(),
    ensures
        r1 == r2,
{
}

} // verus!
