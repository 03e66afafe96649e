use prime_spiral::primes::is_prime;

#[test]
fn numbers_below_two_are_not_prime() {
    assert!(!is_prime(1));
    assert!(!is_prime(0));
    assert!(!is_prime(-7));
    assert!(!is_prime(i64::MIN));
}

#[test]
fn small_primes_are_accepted() {
    assert!(is_prime(2));
    assert!(is_prime(3));
    assert!(is_prime(5));
    assert!(is_prime(7));
    assert!(is_prime(11));
    assert!(is_prime(13));
    assert!(is_prime(17));
    assert!(is_prime(19));
    assert!(is_prime(23));
    assert!(is_prime(97));
    assert!(is_prime(101));
}

#[test]
fn composites_are_rejected() {
    assert!(!is_prime(4));
    assert!(!is_prime(6));
    assert!(!is_prime(8));
    assert!(!is_prime(9));
    assert!(!is_prime(10));
    assert!(!is_prime(12));
    assert!(!is_prime(15));
    assert!(!is_prime(16));
    assert!(!is_prime(21));
    // perfect squares of primes: the square root itself must be tried
    assert!(!is_prime(25));
    assert!(!is_prime(49));
    assert!(!is_prime(121));
    assert!(!is_prime(9409));
    assert!(!is_prime(100));
    // 2^63 - 1 == 7 * 73 * 127 * 337 * 92737 * 649657
    assert!(!is_prime(i64::MAX));
}

#[test]
fn a_large_prime_is_accepted() {
    assert!(is_prime(1_000_000_007));
    assert!(!is_prime(1_000_000_007 * 3));
}
