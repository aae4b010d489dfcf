use crate::natural::Natural;
use crate::prime::is_prime;
use vstd::arithmetic::div_mod::{lemma_mul_mod_noop_left, lemma_mul_mod_noop_right, lemma_small_mod};
use vstd::arithmetic::power::{
    lemma_pow0, lemma_pow1, lemma_pow_adds, lemma_pow_mod_noop, lemma_pow_multiplies,
    lemma_square_is_pow2, pow,
};
use vstd::prelude::*;

verus! {

/// One party's view of the exchange: the shared modulus `p` and base `g`,
/// and its own private exponent.
pub struct KeyPair {
    pub public_key_p: usize,
    pub public_key_g: usize,
    pub private_key: usize,
}

/// `base^exponent mod modulus`.
pub open spec fn mod_pow_spec(base: int, exponent: nat, modulus: int) -> int {
    pow(base, exponent) % modulus
}

/// The key that `client` publishes: `g^private mod p`.
pub open spec fn shared_key_of(client: KeyPair) -> int {
    mod_pow_spec(client.public_key_g as int, client.private_key as nat, client.public_key_p as int)
}

/// The secret that `client` derives from the peer's published key:
/// `shared^private mod p`.
pub open spec fn result_key_of(shared_key: int, client: KeyPair) -> int {
    mod_pow_spec(shared_key, client.private_key as nat, client.public_key_p as int)
}

/// One step of square-and-multiply keeps `r * s^e` fixed modulo `m`.
proof fn lemma_square_step(r: int, s: int, e: nat, m: int)
    requires
        m > 0,
        e > 0,
    ensures
        ((if e % 2 == 1 { (r * s) % m } else { r }) * pow((s * s) % m, e / 2)) % m
            == (r * pow(s, e)) % m,
{
    let half: nat = e / 2;
    let bit: nat = e % 2;
    let a = pow(s * s, half);
    lemma_square_is_pow2(s);
    lemma_pow_multiplies(s, 2, half);
    lemma_pow_adds(s, 2 * half, bit);
    assert(e == 2 * half + bit);
    assert(pow(s, e) == a * pow(s, bit));
    lemma_pow_mod_noop(s * s, half, m);
    let r1 = if e % 2 == 1 { (r * s) % m } else { r };
    lemma_mul_mod_noop_right(r1, pow((s * s) % m, half), m);
    lemma_mul_mod_noop_right(r1, a, m);
    if bit == 1 {
        lemma_pow1(s);
        lemma_mul_mod_noop_left(r * s, a, m);
        assert((r * s) * a == r * (a * s)) by (nonlinear_arith);
    } else {
        lemma_pow0(s);
    }
}

/// Square-and-multiply: `base^exponent mod modulus`, with each intermediate
/// value reduced modulo `modulus`.
pub fn mod_pow(base: &Natural, exponent: usize, modulus: &Natural) -> (r: Natural)
    requires
        modulus@ > 0,
    ensures
        r@ == mod_pow_spec(base@ as int, exponent as nat, modulus@ as int),
{
    let ghost m = modulus@ as int;
    let ghost g = base@ as int;
    let mut result = Natural::from_usize(1).remainder(modulus);
    let mut square = base.remainder(modulus);
    let mut e: usize = exponent;
    proof {
        lemma_mul_mod_noop_left(1, pow(square@ as int, e as nat), m);
        lemma_pow_mod_noop(g, e as nat, m);
    }
    while e > 0
        invariant
            m == modulus@,
            m > 0,
            g == base@,
            result@ < m,
            (result@ * pow(square@ as int, e as nat)) % m == pow(g, exponent as nat) % m,
        decreases e,
    {
        let ghost r0 = result@ as int;
        let ghost s0 = square@ as int;
        let ghost e0 = e as nat;
        if e % 2 == 1 {
            result = result.product(&square).remainder(modulus);
        }
        square = square.product(&square).remainder(modulus);
        e = e / 2;
        proof {
            lemma_square_step(r0, s0, e0, m);
        }
    }
    proof {
        lemma_pow0(square@ as int);
        lemma_small_mod(result@, m as nat);
    }
    result
}

/// The key that `client` publishes: `g^private mod p`.
pub fn generate_shared_key(client: &KeyPair) -> (r: Natural)
    requires
        client.public_key_p > 0,
    ensures
        r@ == shared_key_of(*client),
{
    let base = Natural::from_usize(client.public_key_g);
    let modulus = Natural::from_usize(client.public_key_p);
    mod_pow(&base, client.private_key, &modulus)
}

/// The secret that `client` derives from the peer's published key:
/// `shared_key^private mod p`.
pub fn generate_result_key(shared_key: Natural, client: &KeyPair) -> (r: Natural)
    requires
        client.public_key_p > 0,
    ensures
        r@ == result_key_of(shared_key@ as int, *client),
{
    let modulus = Natural::from_usize(client.public_key_p);
    mod_pow(&shared_key, client.private_key, &modulus)
}

/// Two parties that share the prime modulus and the base derive the same
/// secret, each from the key the other published:
/// `(g^b mod p)^a mod p == (g^a mod p)^b mod p`.
pub proof fn lemma_exchange_agrees(one: KeyPair, two: KeyPair)
    requires
        is_prime(one.public_key_p as nat),
        one.public_key_p == two.public_key_p,
        one.public_key_g == two.public_key_g,
    ensures
        result_key_of(shared_key_of(two), one) == result_key_of(shared_key_of(one), two),
{
    let p = one.public_key_p as int;
    let g = one.public_key_g as int;
    let a = one.private_key as nat;
    let b = two.private_key as nat;
    lemma_pow_mod_noop(pow(g, b), a, p);
    lemma_pow_mod_noop(pow(g, a), b, p);
    lemma_pow_multiplies(g, b, a);
    lemma_pow_multiplies(g, a, b);
    assert(b * a == a * b) by (nonlinear_arith);
}

/// Key derivation has no hidden state: equal inputs give equal keys.
pub proof fn lemma_derivation_deterministic(one: KeyPair, two: KeyPair, shared_one: int, shared_two: int)
    requires
        one == two,
        shared_one == shared_two,
    ensures
        shared_key_of(one) == shared_key_of(two),
        result_key_of(shared_one, one) == result_key_of(shared_two, two),
{
}

} // verus!
