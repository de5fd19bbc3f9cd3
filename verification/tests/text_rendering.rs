use tsukimi::text::decimal_string;

#[test]
fn decimal_string_matches_std_formatting() {
    for n in [0u64, 1, 9, 10, 11, 99, 100, 255, 1000, 4000000, u64::MAX] {
        assert_eq!(decimal_string(n), format!("{}", n));
    }
}

#[test]
fn decimal_string_of_zero_is_one_digit() {
    assert_eq!(decimal_string(0), "0");
}

#[test]
fn decimal_strings_of_distinct_numbers_differ() {
    let rendered: Vec<String> = (0u64..300).map(decimal_string).collect();
    for i in 0..rendered.len() {
        for j in (i + 1)..rendered.len() {
            assert_ne!(rendered[i], rendered[j]);
        }
    }
}
