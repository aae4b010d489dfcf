//! A toy Diffie-Hellman key exchange: prime selection by trial division and
//! key derivation by modular exponentiation over unbounded naturals.

mod exchange;
mod natural;
mod prime;

pub use exchange::{
    generate_result_key, generate_shared_key, lemma_derivation_deterministic,
    lemma_exchange_agrees, mod_pow, mod_pow_spec, result_key_of, shared_key_of, KeyPair,
};
pub use natural::{digits_value, Natural};
pub use prime::{get_prime, is_prime, is_prime_number, prime_from_draw};
