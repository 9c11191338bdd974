use password_generator::generate_password;
use rand::SeedableRng;
use password_generator::pool::build_pool;
use password_generator::GenerateError;

#[test]
fn test_generate_password_length() {
    let password = generate_password(10, true, true, true, "!@#", "", false, false, false).unwrap();
    assert_eq!(password.len(), 10);
}

#[test]
fn test_generate_password_exclude_chars() {
    let exclude = "abc";
    let password =
        generate_password(20, true, true, true, "!@#", exclude, false, false, false).unwrap();
    for ch in exclude.chars() {
        assert!(!password.contains(ch));
    }
}

#[test]
fn test_generate_password_include_numbers() {
    let password = generate_password(20, true, false, false, "", "", false, false, false).unwrap();
    assert!(password.chars().all(|c| c.is_digit(10)));
}

#[test]
fn test_generate_password_include_alphabets() {
    let password = generate_password(20, false, true, true, "", "", false, false, false).unwrap();
    assert!(password.chars().all(|c| c.is_alphabetic()));
}

#[test]
fn test_generate_password_include_specials() {
    let specials = "!@#";
    let password =
        generate_password(20, false, false, false, specials, "", false, false, false).unwrap();
    println!("Generated password: {}", &password);
    assert!(password.chars().all(|c| specials.contains(c)));
}

#[test]
fn test_generate_password_no_similar() {
    let password = generate_password(20, true, true, true, "!@#", "", true, false, false).unwrap();
    assert!(!password.chars().any(|c| "il1Lo0O".contains(c)));
}

#[test]
fn test_generate_password_no_duplicates() {
    let password = generate_password(20, true, true, true, "!@#", "", false, true, false).unwrap();
    let mut unique_chars: Vec<char> = password.chars().collect();
    unique_chars.sort();
    unique_chars.dedup();
    assert_eq!(unique_chars.len(), password.len());
}

#[test]
fn test_generate_password_no_sequential() {
    let password = generate_password(20, true, true, true, "!@#", "", false, false, true).unwrap();
    let mut prev_char: Option<char> = None;
    for c in password.chars() {
        if let Some(prev) = prev_char {
            assert!((prev as u8) + 1 != (c as u8) && (prev as u8) != (c as u8) + 1);
        }
        prev_char = Some(c);
    }
}

#[test]
fn full_charset_draws_from_union() {
    let password = generate_password(10, true, true, true, "!@#", "", false, false, false).unwrap();
    assert_eq!(password.chars().count(), 10);
    for c in password.chars() {
        assert!(c.is_ascii_digit() || c.is_ascii_uppercase() || c.is_ascii_lowercase()
            || "!@#".contains(c));
    }
}

#[test]
fn numbers_only_gives_twenty_digits() {
    let password = generate_password(20, true, false, false, "", "", false, false, false).unwrap();
    assert_eq!(password.chars().count(), 20);
    assert!(password.chars().all(|c| c.is_ascii_digit()));
}

#[test]
fn zero_length_gives_empty_string() {
    let password = generate_password(0, true, true, true, "!@#", "", true, true, true).unwrap();
    assert_eq!(password, "");
}

#[test]
fn empty_configuration_gives_empty_pool_error() {
    let result = generate_password(8, false, false, false, "", "", false, false, false);
    assert_eq!(result, Err(GenerateError::EmptyPool));
}

#[test]
fn excluding_every_digit_gives_empty_pool_error() {
    let result = generate_password(8, true, false, false, "", "0123456789", false, false, false);
    assert_eq!(result, Err(GenerateError::EmptyPool));
}

#[test]
fn similar_only_specials_give_empty_pool_error() {
    let result = generate_password(8, false, false, false, "il1Lo0O", "", true, false, false);
    assert_eq!(result, Err(GenerateError::EmptyPool));
}

#[test]
fn duplicates_forbidden_beyond_pool_size_is_infeasible() {
    let result = generate_password(2, false, false, false, "a", "", false, true, false);
    assert_eq!(result, Err(GenerateError::InfeasibleConstraint));
}

#[test]
fn pool_keeps_category_order_and_drops_excluded() {
    let pool = build_pool(true, false, false, "", "13579", false);
    assert_eq!(pool, vec!['0', '2', '4', '6', '8']);
}

#[test]
fn pool_appends_specials_verbatim_with_repeats() {
    let pool = build_pool(false, false, false, "!!a!", "", false);
    assert_eq!(pool, vec!['!', '!', 'a', '!']);
}

#[test]
fn pool_similar_filter_drops_fixed_set() {
    let pool = build_pool(true, false, false, "", "", true);
    assert_eq!(pool, vec!['2', '3', '4', '5', '6', '7', '8', '9']);
}

#[test]
fn pool_categories_concatenate_in_order() {
    let pool = build_pool(true, true, true, "#", "", false);
    let expected: Vec<char> =
        "0123456789ABCDEFGHIJKLMNOPQRSTUVWXYZabcdefghijklmnopqrstuvwxyz#".chars().collect();
    assert_eq!(pool, expected);
}

#[test]
fn sampler_fills_requested_length_from_pool() {
    let pool = vec!['x', 'y'];
    let mut rng = rand::rngs::SmallRng::seed_from_u64(7);
    let drawn = password_generator::sample::sample(&pool, 12, false, false, &mut rng).unwrap();
    assert_eq!(drawn.len(), 12);
    assert!(drawn.iter().all(|c| *c == 'x' || *c == 'y'));
}

#[test]
fn sequential_constraint_allows_single_char_pool_repeats() {
    let password =
        generate_password(5, false, false, false, "a", "", false, false, true).unwrap();
    assert_eq!(password, "aaaaa");
}

#[test]
fn ordinal_adjacency_crosses_digit_symbol_boundary() {
    // '9' and ':' have adjacent codepoints, so after either character only
    // the same character may follow.
    let password =
        generate_password(4, false, false, false, "9:", "", false, false, true).unwrap();
    let first = password.chars().next().unwrap();
    assert!(password.chars().all(|c| c == first));
}

#[test]
fn adjacent_only_pool_with_both_constraints_is_infeasible() {
    let result = generate_password(2, false, false, false, "ab", "", false, true, true);
    assert_eq!(result, Err(GenerateError::InfeasibleConstraint));
}
