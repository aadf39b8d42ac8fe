use minecraft_auth::scrape::{find_form_value, find_url_post};

#[test]
fn find_form_value_takes_what_stands_between_the_quotes() {
    let html = "<input type=\"hidden\" name=\"PPFT\" id=\"i0327\" value=\"DZshWk88\"/>";
    assert_eq!(find_form_value(html), Some("DZshWk88".to_string()));
}

#[test]
fn find_form_value_takes_the_first_of_several() {
    let html = "<a value=\"one\"> <b value=\"two\"> <c value=\"three\">";
    assert_eq!(find_form_value(html), Some("one".to_string()));
}

#[test]
fn find_form_value_ends_at_the_first_closing_quote() {
    assert_eq!(find_form_value("value=\"a\"b\"c\""), Some("a".to_string()));
}

#[test]
fn find_form_value_needs_one_character_at_least() {
    assert_eq!(find_form_value("value=\"\""), None);
    assert_eq!(find_form_value("value=\"\" and value=\"x\""), Some("\" and value=".to_string()));
    assert_eq!(find_form_value("value=\"\"x\""), Some("\"x".to_string()));
}

#[test]
fn find_form_value_does_not_cross_a_line_feed() {
    assert_eq!(find_form_value("value=\"ab\ncd\""), None);
    assert_eq!(find_form_value("value=\"ab\ncd\" value=\"ef\""), Some("ef".to_string()));
    assert_eq!(find_form_value("value=\"ab\rcd\""), Some("ab\rcd".to_string()));
}

#[test]
fn find_form_value_is_none_without_the_pattern() {
    assert_eq!(find_form_value(""), None);
    assert_eq!(find_form_value("<html>Too Many Requests</html>"), None);
    assert_eq!(find_form_value("value=\"unterminated"), None);
    assert_eq!(find_form_value("Value=\"x\""), None);
    assert_eq!(find_form_value("value = \"x\""), None);
}

#[test]
fn find_form_value_does_not_hand_back_the_page() {
    let html = "value=\"tok\"";
    assert_ne!(find_form_value(html), Some(html.to_string()));
    assert_eq!(find_form_value(html), Some("tok".to_string()));
}

#[test]
fn find_form_value_keeps_characters_outside_ascii() {
    assert_eq!(find_form_value("é value=\"žlutý kůň\" ü"), Some("žlutý kůň".to_string()));
}

#[test]
fn find_url_post_takes_what_stands_between_the_apostrophes() {
    let html = "var ServerData = {urlMsaSignUp:'https://signup.live.com/x',urlPost:'https://login.live.com/ppsecure/post.srf?contextid=AB&bk=1',urlQr:'q'};";
    assert_eq!(
        find_url_post(html),
        Some("https://login.live.com/ppsecure/post.srf?contextid=AB&bk=1".to_string())
    );
}

#[test]
fn find_url_post_takes_the_first_of_several() {
    assert_eq!(find_url_post("urlPost:'a',urlPost:'b'"), Some("a".to_string()));
}

#[test]
fn find_url_post_is_none_without_the_pattern() {
    assert_eq!(find_url_post("urlPost:\"https://x\""), None);
    assert_eq!(find_url_post("urlpost:'https://x'"), None);
    assert_eq!(find_url_post("urlPost:''"), None);
    assert_eq!(find_url_post("urlPost:'\n'"), None);
}

/// The capture as it is stated: the leftmost offset at which the opening
/// stands and is followed by one character at least, with no line feed up to
/// the first closing character behind that one.
fn stated_capture(text: &[char], open: &[char], close: char) -> Option<String> {
    for at in 0..text.len() {
        let start = at + open.len();
        if start > text.len() || &text[at..start] != open {
            continue;
        }
        let stop = match (start + 1..text.len()).find(|&k| text[k] == close) {
            Some(stop) => stop,
            None => continue,
        };
        if text[start..stop].iter().any(|&c| c == '\n') {
            continue;
        }
        return Some(text[start..stop].iter().collect());
    }
    None
}

/// Texts put together from a few pieces that make matches, near matches and
/// broken matches likely.
fn generated_pages(pieces: &[&str], count: usize) -> Vec<String> {
    let mut state: u64 = 0x2545_f491_4f6c_dd1d;
    let mut pages = Vec::new();
    for _ in 0..count {
        let mut page = String::new();
        state = state.wrapping_mul(6364136223846793005).wrapping_add(1442695040888963407);
        let length = (state >> 33) % 9;
        for _ in 0..length {
            state = state.wrapping_mul(6364136223846793005).wrapping_add(1442695040888963407);
            page.push_str(pieces[((state >> 33) % pieces.len() as u64) as usize]);
        }
        pages.push(page);
    }
    pages
}

#[test]
fn find_form_value_agrees_with_its_statement_on_generated_pages() {
    let pieces = ["value=\"", "\"", "\n", "x", "value=", "=", "v", "é", "\r", " ", "alue=\"ab\""];
    let open: Vec<char> = "value=\"".chars().collect();
    let mut found = 0;
    for page in generated_pages(&pieces, 1000) {
        let text: Vec<char> = page.chars().collect();
        let expected = stated_capture(&text, &open, '"');
        if expected.is_some() {
            found += 1;
        }
        assert_eq!(find_form_value(&page), expected, "page {:?}", page);
    }
    assert!(found > 50);
}

#[test]
fn find_url_post_agrees_with_its_statement_on_generated_pages() {
    let pieces = ["urlPost:'", "'", "\n", "h", "urlPost:", ":", "u", "ü", "\"", ",", "rlPost:'p'"];
    let open: Vec<char> = "urlPost:'".chars().collect();
    let mut found = 0;
    for page in generated_pages(&pieces, 1000) {
        let text: Vec<char> = page.chars().collect();
        let expected = stated_capture(&text, &open, '\'');
        if expected.is_some() {
            found += 1;
        }
        assert_eq!(find_url_post(&page), expected, "page {:?}", page);
    }
    assert!(found > 50);
}
