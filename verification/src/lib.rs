//! Canonical-representative modular arithmetic over a compile-time prime
//! modulus, the base-field primitive of lattice-based schemes such as
//! Kyber and Dilithium.

pub mod ff;
