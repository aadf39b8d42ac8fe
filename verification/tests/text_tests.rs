use minecraft_auth::text::{chars_of, contains, find_char, matches_at, slice_of};

fn chars(s: &str) -> Vec<char> {
    s.chars().collect()
}

#[test]
fn chars_of_keeps_every_character_in_order() {
    assert_eq!(chars_of("a=é&b"), vec!['a', '=', 'é', '&', 'b']);
    assert_eq!(chars_of(""), Vec::<char>::new());
}

#[test]
fn matches_at_compares_at_the_offset_only() {
    let hay = chars("Sign in to your account");
    assert!(matches_at(&hay, &chars("Sign"), 0));
    assert!(matches_at(&hay, &chars("in to"), 5));
    assert!(!matches_at(&hay, &chars("in to"), 4));
    assert!(matches_at(&hay, &chars("account"), 16));
    assert!(!matches_at(&hay, &chars("account"), 17));
    assert!(!matches_at(&hay, &chars("account"), 100));
}

#[test]
fn matches_at_takes_an_empty_needle_up_to_the_end() {
    let hay = chars("abc");
    assert!(matches_at(&hay, &chars(""), 0));
    assert!(matches_at(&hay, &chars(""), 3));
    assert!(!matches_at(&hay, &chars(""), 4));
}

#[test]
fn contains_finds_a_needle_anywhere() {
    let hay = chars("<title>Sign in to your Microsoft account</title>");
    assert!(contains(&hay, &chars("Sign in to")));
    assert!(contains(&hay, &chars("<title>")));
    assert!(contains(&hay, &chars("</title>")));
    assert!(!contains(&hay, &chars("sign in to")));
    assert!(!contains(&hay, &chars("Sign in too")));
}

#[test]
fn contains_handles_empty_and_overlong_needles() {
    assert!(contains(&chars("abc"), &chars("")));
    assert!(contains(&chars(""), &chars("")));
    assert!(!contains(&chars(""), &chars("a")));
    assert!(!contains(&chars("ab"), &chars("abc")));
    assert!(contains(&chars("abc"), &chars("abc")));
}

#[test]
fn contains_agrees_with_str_contains() {
    let hays = ["", "a", "aaab", "abcabcabd", "2FA is enabled", "xx2FAxx"];
    let needles = ["", "a", "ab", "abd", "aab", "2FA", "b", "abcabd"];
    for hay in hays {
        for needle in needles {
            assert_eq!(contains(&chars(hay), &chars(needle)), hay.contains(needle));
        }
    }
}

#[test]
fn find_char_gives_the_first_index_or_the_length() {
    let s = chars("a:b:c");
    assert_eq!(find_char(&s, ':', 0), 1);
    assert_eq!(find_char(&s, ':', 1), 1);
    assert_eq!(find_char(&s, ':', 2), 3);
    assert_eq!(find_char(&s, ':', 4), 5);
    assert_eq!(find_char(&s, ':', 5), 5);
    assert_eq!(find_char(&s, '#', 0), 5);
}

#[test]
fn slice_of_counts_characters_not_bytes() {
    assert_eq!(slice_of("héllo wörld", 1, 5), "éllo");
    assert_eq!(slice_of("héllo wörld", 6, 11), "wörld");
    assert_eq!(slice_of("abc", 1, 1), "");
    assert_eq!(slice_of("abc", 0, 3), "abc");
}
