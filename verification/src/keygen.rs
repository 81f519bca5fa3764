//! The typed argument shapes of libcrypto's quick key generation.
//!
//! `EVP_PKEY_Q_keygen` is variadic: the key type named by its third argument
//! decides whether a fourth follows and of which C type. Each request shape
//! here fixes that pairing, so the variadic call is made with exactly the
//! argument the documented key type expects.

use vstd::prelude::*;

verus! {

/// The documented argument shapes accepted by `EVP_PKEY_Q_keygen`.
#[derive(Debug)]
pub enum QuickKeygen {
    /// An RSA key with the requested modulus size.
    Rsa { bits: usize },
    /// An EC key on the named curve (the name without its NUL terminator).
    Ec { curve: Vec<u8> },
    Ed25519,
    Ed448,
    Sm2,
    X25519,
    X448,
    MlDsa44,
    MlDsa65,
    MlDsa87,
    MlKem512,
    MlKem768,
    MlKem1024,
}

/// The variadic argument that follows the key type.
#[derive(Debug)]
pub enum KeygenArgument {
    /// No further argument.
    Nothing,
    /// A `size_t` modulus size.
    Bits(usize),
    /// A NUL-terminated curve name (given here without the terminator).
    Curve(Vec<u8>),
}

/// The arguments of one `EVP_PKEY_Q_keygen` call beyond the library context
/// and property query.
pub struct KeygenCall {
    /// The key type name passed as the third argument.
    pub algorithm: &'static str,
    /// What follows it.
    pub argument: KeygenArgument,
}

/// The key type name each request shape is generated under.
pub open spec fn keygen_algorithm(request: QuickKeygen) -> Seq<char> {
    match request {
        QuickKeygen::Rsa { .. } => "RSA"@,
        QuickKeygen::Ec { .. } => "EC"@,
        QuickKeygen::Ed25519 => "ED25519"@,
        QuickKeygen::Ed448 => "ED448"@,
        QuickKeygen::Sm2 => "SM2"@,
        QuickKeygen::X25519 => "X25519"@,
        QuickKeygen::X448 => "X448"@,
        QuickKeygen::MlDsa44 => "ML-DSA-44"@,
        QuickKeygen::MlDsa65 => "ML-DSA-65"@,
        QuickKeygen::MlDsa87 => "ML-DSA-87"@,
        QuickKeygen::MlKem512 => "ML-KEM-512"@,
        QuickKeygen::MlKem768 => "ML-KEM-768"@,
        QuickKeygen::MlKem1024 => "ML-KEM-1024"@,
    }
}

/// The view of a variadic argument: its kind and payload.
pub open spec fn argument_matches(argument: KeygenArgument, request: QuickKeygen) -> bool {
    match request {
        QuickKeygen::Rsa { bits } => argument matches KeygenArgument::Bits(b) && b == bits,
        QuickKeygen::Ec { curve } => argument matches KeygenArgument::Curve(c) && c@ == curve@,
        _ => argument matches KeygenArgument::Nothing,
    }
}

/// Chooses the key type name and the single variadic argument for a quick
/// key-generation request: a modulus size for RSA, a curve name for EC, and
/// nothing for the fixed-parameter key types.
pub fn quick_keygen_call(request: QuickKeygen) -> (call: KeygenCall)
    ensures
        call.algorithm@ == keygen_algorithm(request),
        argument_matches(call.argument, request),
{
    match request {
        QuickKeygen::Rsa { bits } => KeygenCall { algorithm: "RSA", argument: KeygenArgument::Bits(bits) },
        QuickKeygen::Ec { curve } => KeygenCall { algorithm: "EC", argument: KeygenArgument::Curve(curve) },
        QuickKeygen::Ed25519 => KeygenCall { algorithm: "ED25519", argument: KeygenArgument::Nothing },
        QuickKeygen::Ed448 => KeygenCall { algorithm: "ED448", argument: KeygenArgument::Nothing },
        QuickKeygen::Sm2 => KeygenCall { algorithm: "SM2", argument: KeygenArgument::Nothing },
        QuickKeygen::X25519 => KeygenCall { algorithm: "X25519", argument: KeygenArgument::Nothing },
        QuickKeygen::X448 => KeygenCall { algorithm: "X448", argument: KeygenArgument::Nothing },
        QuickKeygen::MlDsa44 => KeygenCall { algorithm: "ML-DSA-44", argument: KeygenArgument::Nothing },
        QuickKeygen::MlDsa65 => KeygenCall { algorithm: "ML-DSA-65", argument: KeygenArgument::Nothing },
        QuickKeygen::MlDsa87 => KeygenCall { algorithm: "ML-DSA-87", argument: KeygenArgument::Nothing },
        QuickKeygen::MlKem512 => KeygenCall { algorithm: "ML-KEM-512", argument: KeygenArgument::Nothing },
        QuickKeygen::MlKem768 => KeygenCall { algorithm: "ML-KEM-768", argument: KeygenArgument::Nothing },
        QuickKeygen::MlKem1024 => KeygenCall { algorithm: "ML-KEM-1024", argument: KeygenArgument::Nothing },
    }
}

/// The variant a request shape is, by position in the documented list.
pub open spec fn keygen_kind(request: QuickKeygen) -> int {
    match request {
        QuickKeygen::Rsa { .. } => 0,
        QuickKeygen::Ec { .. } => 1,
        QuickKeygen::Ed25519 => 2,
        QuickKeygen::Ed448 => 3,
        QuickKeygen::Sm2 => 4,
        QuickKeygen::X25519 => 5,
        QuickKeygen::X448 => 6,
        QuickKeygen::MlDsa44 => 7,
        QuickKeygen::MlDsa65 => 8,
        QuickKeygen::MlDsa87 => 9,
        QuickKeygen::MlKem512 => 10,
        QuickKeygen::MlKem768 => 11,
        QuickKeygen::MlKem1024 => 12,
    }
}

/// Distinct request shapes are generated under distinct key type names, so
/// no shape can be mistaken for another by libcrypto.
pub proof fn law_keygen_names_are_distinct(a: QuickKeygen, b: QuickKeygen)
    requires
        keygen_kind(a) != keygen_kind(b),
    ensures
        keygen_algorithm(a) != keygen_algorithm(b),
{
    reveal_strlit("RSA");
    reveal_strlit("EC");
    reveal_strlit("ED25519");
    reveal_strlit("ED448");
    reveal_strlit("SM2");
    reveal_strlit("X25519");
    reveal_strlit("X448");
    reveal_strlit("ML-DSA-44");
    reveal_strlit("ML-DSA-65");
    reveal_strlit("ML-DSA-87");
    reveal_strlit("ML-KEM-512");
    reveal_strlit("ML-KEM-768");
    reveal_strlit("ML-KEM-1024");
    let sa = keygen_algorithm(a);
    let sb = keygen_algorithm(b);
    if sa.len() == sb.len() {
        if sa.len() == 2 || sa.len() == 3 {
            assert(sa[0] != sb[0] || sa[1] != sb[1]);
        } else if sa.len() == 5 {
            assert(sa[0] != sb[0] || sa[1] != sb[1] || sa[4] != sb[4]);
        } else if sa.len() == 6 {
            assert(sa[1] != sb[1] || sa[4] != sb[4]);
        } else if sa.len() == 7 {
            assert(sa[0] != sb[0]);
        } else if sa.len() == 9 {
            assert(sa[8] != sb[8]);
        } else if sa.len() == 10 {
            assert(sa[7] != sb[7]);
        }
    }
}

} // verus!
