use diffie_hellman::{get_prime, is_prime_number, prime_from_draw};

#[test]
fn zero_and_one_are_not_prime() {
    assert!(!is_prime_number(0));
    assert!(!is_prime_number(1));
}

#[test]
fn trial_division_small_values() {
    let primes = [2usize, 3, 5, 7, 11, 13, 97, 101, 127];
    let composites = [4usize, 6, 8, 9, 15, 25, 49, 91, 121, 126];
    for n in primes {
        assert!(is_prime_number(n), "{} is prime", n);
    }
    for n in composites {
        assert!(!is_prime_number(n), "{} is composite", n);
    }
}

#[test]
fn trial_division_matches_divisor_search() {
    for n in 2..500usize {
        let has_divisor = (2..n).any(|i| n % i == 0);
        assert_eq!(is_prime_number(n), !has_divisor);
    }
}

#[test]
fn draws_that_give_primes() {
    assert_eq!(prime_from_draw(7), Some(7));
    assert_eq!(prime_from_draw(2), Some(2));
    assert_eq!(prime_from_draw(127), Some(127));
    assert_eq!(prime_from_draw(8), None);
    assert_eq!(prime_from_draw(1), None);
    assert_eq!(prime_from_draw(0), None);
    assert_eq!(prime_from_draw(-7), None);
    assert_eq!(prime_from_draw(-128), None);
}

#[test]
fn selected_prime_is_prime() {
    for _ in 0..20 {
        let p = get_prime().expect("a prime is found");
        assert!(p <= 127);
        assert!(is_prime_number(p));
    }
}
