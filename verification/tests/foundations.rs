use anchorkit::arith::mul_capped;
use anchorkit::encoding::{push_be4, push_be8};
use anchorkit::sorting::{bytes_in_order, sorted_order, Highest, Lowest};
use anchorkit::table::Table;
use anchorkit::text::{parse_u32, push_decimal, same_text, text_less};

#[test]
fn tables_hold_the_last_value_of_a_key() {
    let mut t: Table<u64, u32> = Table::new();
    assert!(!t.has(&1));
    t.set(1, 10);
    t.set(2, 20);
    t.set(1, 11);
    assert_eq!(t.get(&1), Some(&11));
    assert_eq!(t.get(&2), Some(&20));
    if let Some(v) = t.get_mut(&2) {
        *v = 21;
    }
    assert_eq!(t.get(&2), Some(&21));
    assert!(t.get_mut(&3).is_none());
    t.remove(&1);
    assert_eq!(t.get(&1), None);
    assert_eq!(t.get(&2), Some(&21));
}

#[test]
fn sorting_is_stable() {
    let high: Vec<Highest> = [3, 9, 3, 7].iter().map(|k| Highest { key: *k }).collect();
    assert_eq!(sorted_order(&high), vec![1, 3, 0, 2]);
    let low: Vec<Lowest> = [3, 9, 3, 7].iter().map(|k| Lowest { key: *k }).collect();
    assert_eq!(sorted_order(&low), vec![0, 2, 3, 1]);
    assert!(bytes_in_order(&vec![1, 2], &vec![1, 2, 0]));
    assert!(!bytes_in_order(&vec![2], &vec![1, 9]));
}

#[test]
fn decimals_read_back() {
    for n in [0u32, 7, 10, 4_294_967_295] {
        let mut s = String::new();
        push_decimal(&mut s, u64::from(n));
        assert_eq!(s, format!("{}", n));
        assert_eq!(parse_u32(&s), Some(n));
    }
    for bad in ["", "x", "-1", "4294967296", "1 "] {
        assert_eq!(parse_u32(bad), None);
    }
}

#[test]
fn integers_are_encoded_most_significant_byte_first() {
    let mut out: Vec<u8> = Vec::new();
    push_be4(&mut out, 0x0102_0304);
    push_be8(&mut out, 0x0506_0708_090a_0b0c);
    assert_eq!(out, vec![1, 2, 3, 4, 5, 6, 7, 8, 9, 10, 11, 12]);
}

#[test]
fn products_are_capped() {
    assert_eq!(mul_capped(6, 7), 42);
    assert_eq!(mul_capped(u64::MAX, 2), u64::MAX);
    assert_eq!(mul_capped(0, u64::MAX), 0);
}

#[test]
fn texts_compare_by_character() {
    assert!(same_text("abc", "abc"));
    assert!(!same_text("abc", "abd"));
    assert!(text_less("ab", "abc"));
    assert!(text_less("abc", "b"));
    assert!(!text_less("b", "b"));
}
