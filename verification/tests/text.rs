use qobuz_player::text::{str_before, to_decimal};

#[test]
fn numerals() {
    for n in [0, 7, 9, 10, 11, 99, 100, 1_700_000_000, u64::MAX] {
        assert_eq!(to_decimal(n), format!("{n}"));
        assert_eq!(to_decimal(n).parse(), Ok(n));
    }
}

#[test]
fn order_of_strings() {
    let texts = ["", "a", "aa", "ab", "b", "B", "é", "z", "\u{ffff}", "\u{10000}"];
    for a in texts {
        for b in texts {
            assert_eq!(str_before(a, b), a < b);
        }
    }
}
