use rcli::gen_pass;

const UPPER: &str = "ABCDEFGHJKLMNOPQRSTUVWXYZ";
const LOWER: &str = "abcdefghijkmnpqrstuvwxyz";
const NUMBER: &str = "123456789";
const SYMBOL: &str = "!@#$%^&*-_=+";

#[test]
fn gen_pass_has_requested_length() {
    let p = gen_pass(16, true, true, true, true).unwrap();
    assert_eq!(p.len(), 16);
    let q = gen_pass(4, true, true, true, true).unwrap();
    assert_eq!(q.len(), 4);
}

#[test]
fn gen_pass_uses_only_enabled_classes() {
    let p = gen_pass(64, true, true, true, true).unwrap();
    for c in p.chars() {
        assert!(
            UPPER.contains(c) || LOWER.contains(c) || NUMBER.contains(c) || SYMBOL.contains(c),
            "unexpected character {c:?}"
        );
    }
    let digits = gen_pass(8, false, false, true, false).unwrap();
    for c in digits.chars() {
        assert!(NUMBER.contains(c), "unexpected character {c:?}");
    }
}

#[test]
fn gen_pass_covers_every_enabled_class() {
    let p = gen_pass(4, true, true, true, true).unwrap();
    assert!(p.chars().any(|c| UPPER.contains(c)));
    assert!(p.chars().any(|c| LOWER.contains(c)));
    assert!(p.chars().any(|c| NUMBER.contains(c)));
    assert!(p.chars().any(|c| SYMBOL.contains(c)));
}

#[test]
fn gen_pass_draws_fresh_passwords() {
    let one = gen_pass(32, true, true, true, true).unwrap();
    let two = gen_pass(32, true, true, true, true).unwrap();
    assert_ne!(one, two);
}
