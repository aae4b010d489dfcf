use vstd::prelude::*;

verus! {

/// `n` is prime: at least 2, with no divisor in `[2, n)`.
pub open spec fn is_prime(n: nat) -> bool {
    n >= 2 && forall|i: nat| 2 <= i < n ==> #[trigger] (n % i) != 0
}

/// Relies on `rand::random::<i8>`: a signed byte drawn from the thread-local
/// generator; nothing is known of its value.
#[verifier::external_body]
fn draw_signed_byte() -> (r: i8) {
    rand::random::<i8>()
}

/// Trial division: whether `number` is prime. Neither 0 nor 1 is prime.
pub fn is_prime_number(number: usize) -> (r: bool)
    ensures
        r == is_prime(number as nat),
{
    if number < 2 {
        return false;
    }
    let mut i: usize = 2;
    while i < number
        invariant
            2 <= i <= number,
            forall|j: nat| 2 <= j < i ==> #[trigger] ((number as nat) % j) != 0,
        decreases number - i,
    {
        if number % i == 0 {
            assert((number as nat) % (i as nat) == 0);
            return false;
        }
        i = i + 1;
    }
    true
}

/// The prime that a signed byte drawn at random stands for: the byte's value
/// when it is non-negative and prime, `None` otherwise.
pub fn prime_from_draw(draw: i8) -> (r: Option<usize>)
    ensures
        r == (if draw >= 0 && is_prime(draw as nat) {
            Some(draw as usize)
        } else {
            None::<usize>
        }),
{
    if draw < 0 {
        return None;
    }
    let candidate = draw as usize;
    if is_prime_number(candidate) {
        Some(candidate)
    } else {
        None
    }
}

/// Draws random signed bytes until one is prime, and returns it. `None` comes
/// only after `u64::MAX` draws that all failed.
pub fn get_prime() -> (r: Option<usize>)
    ensures
        r matches Some(p) ==> is_prime(p as nat) && p <= 127,
{
    let mut draws: u64 = 0;
    while draws < u64::MAX
        decreases u64::MAX - draws,
    {
        let draw: i8 = draw_signed_byte();
        let found = prime_from_draw(draw);
        if found.is_some() {
            return found;
        }
        draws = draws + 1;
    }
    None
}

} // verus!
