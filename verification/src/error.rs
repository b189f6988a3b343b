//! The closed error taxonomy of the engine, with a plain-text rendering.

use vstd::prelude::*;

verus! {

/// Everything that can go wrong inside the envelope-encryption engine.
/// Size errors carry the offending length in bytes; `CryptoError` is the
/// structural failure of a wrapped-key buffer (too short, or unwrapping to a
/// DEK of the wrong size) and carries the length that was seen.
#[derive(Debug, Clone, Copy, PartialEq, Eq, Structural)]
pub enum VioletError {
    InvalidKeySize(usize),
    InvalidNonceSize(usize),
    InvalidTagSize(usize),
    EncryptionFailed,
    DecryptionFailed,
    CryptoError(usize),
    Base64Error,
    HexError,
    InvalidAlgorithm,
}

/// The character for one decimal digit.
pub open spec fn spec_digit(d: nat) -> char {
    if d == 0 {
        '0'
    } else if d == 1 {
        '1'
    } else if d == 2 {
        '2'
    } else if d == 3 {
        '3'
    } else if d == 4 {
        '4'
    } else if d == 5 {
        '5'
    } else if d == 6 {
        '6'
    } else if d == 7 {
        '7'
    } else if d == 8 {
        '8'
    } else {
        '9'
    }
}

/// The decimal digits of `n`, most significant first.
pub open spec fn spec_decimal(n: nat) -> Seq<char>
    decreases n,
{
    if n < 10 {
        seq![spec_digit(n)]
    } else {
        spec_decimal(n / 10) + seq![spec_digit(n % 10)]
    }
}

fn digit_str(d: usize) -> (r: &'static str)
    requires
        d < 10,
    ensures
        r@ == seq![spec_digit(d as nat)],
{
    if d == 0 {
        proof { reveal_strlit("0"); }
        let s = "0";
        assert(s@ =~= seq![spec_digit(0nat)]);
        s
    } else if d == 1 {
        proof { reveal_strlit("1"); }
        let s = "1";
        assert(s@ =~= seq![spec_digit(1nat)]);
        s
    } else if d == 2 {
        proof { reveal_strlit("2"); }
        let s = "2";
        assert(s@ =~= seq![spec_digit(2nat)]);
        s
    } else if d == 3 {
        proof { reveal_strlit("3"); }
        let s = "3";
        assert(s@ =~= seq![spec_digit(3nat)]);
        s
    } else if d == 4 {
        proof { reveal_strlit("4"); }
        let s = "4";
        assert(s@ =~= seq![spec_digit(4nat)]);
        s
    } else if d == 5 {
        proof { reveal_strlit("5"); }
        let s = "5";
        assert(s@ =~= seq![spec_digit(5nat)]);
        s
    } else if d == 6 {
        proof { reveal_strlit("6"); }
        let s = "6";
        assert(s@ =~= seq![spec_digit(6nat)]);
        s
    } else if d == 7 {
        proof { reveal_strlit("7"); }
        let s = "7";
        assert(s@ =~= seq![spec_digit(7nat)]);
        s
    } else if d == 8 {
        proof { reveal_strlit("8"); }
        let s = "8";
        assert(s@ =~= seq![spec_digit(8nat)]);
        s
    } else {
        proof { reveal_strlit("9"); }
        let s = "9";
        assert(s@ =~= seq![spec_digit(9nat)]);
        s
    }
}

/// `n` written in decimal.
pub fn decimal_string(n: usize) -> (r: String)
    ensures
        r@ == spec_decimal(n as nat),
    decreases n,
{
    if n < 10 {
        let mut s = String::new();
        s.append(digit_str(n));
        assert(s@ =~= spec_decimal(n as nat));
        s
    } else {
        let mut s = decimal_string(n / 10);
        s.append(digit_str(n % 10));
        assert(s@ =~= spec_decimal(n as nat));
        s
    }
}

impl VioletError {
    /// What `message` returns for each variant.
    pub open spec fn spec_message(&self) -> Seq<char> {
        match self {
            VioletError::InvalidKeySize(n) => "Invalid key size: "@ + spec_decimal(*n as nat)
                + " bytes (expected 32)"@,
            VioletError::InvalidNonceSize(n) => "Invalid nonce size: "@ + spec_decimal(*n as nat)
                + " bytes"@,
            VioletError::InvalidTagSize(n) => "Invalid tag size: "@ + spec_decimal(*n as nat)
                + " bytes"@,
            VioletError::EncryptionFailed => "Encryption failed"@,
            VioletError::DecryptionFailed => "Decryption failed"@,
            VioletError::CryptoError(n) => "Crypto error: bad length "@ + spec_decimal(*n as nat),
            VioletError::Base64Error => "Base64 decode error"@,
            VioletError::HexError => "Hex decode error"@,
            VioletError::InvalidAlgorithm => "Invalid algorithm"@,
        }
    }

    /// Human-readable rendering of the error.
    pub fn message(&self) -> (r: String)
        ensures
            r@ == self.spec_message(),
    {
        match self {
            VioletError::InvalidKeySize(n) => String::from_str("Invalid key size: ").concat(
                decimal_string(*n).as_str(),
            ).concat(" bytes (expected 32)"),
            VioletError::InvalidNonceSize(n) => String::from_str("Invalid nonce size: ").concat(
                decimal_string(*n).as_str(),
            ).concat(" bytes"),
            VioletError::InvalidTagSize(n) => String::from_str("Invalid tag size: ").concat(
                decimal_string(*n).as_str(),
            ).concat(" bytes"),
            VioletError::EncryptionFailed => String::from_str("Encryption failed"),
            VioletError::DecryptionFailed => String::from_str("Decryption failed"),
            VioletError::CryptoError(n) => String::from_str("Crypto error: bad length ").concat(
                decimal_string(*n).as_str(),
            ),
            VioletError::Base64Error => String::from_str("Base64 decode error"),
            VioletError::HexError => String::from_str("Hex decode error"),
            VioletError::InvalidAlgorithm => String::from_str("Invalid algorithm"),
        }
    }
}

} // verus!
