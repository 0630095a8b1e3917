use cli_shortener::utils::{
    check_word, gen_hash, hash_from_words, is_url, matched, MAX_WORD_LEN, MIN_WORD_LEN,
};

#[test]
fn test_is_url() {
    let ok_urls = [
        "http://foo.com/blah_blah",
        "http://foo.com/blah_blah",
        "http://foo.com/blah_blah/",
        "http://foo.com/blah_blah_(wikipedia)",
        "http://foo.com/blah_blah_(wikipedia)_(again)",
        "http://www.example.com/wpstyle/?p=364",
        "https://www.example.com/foo/?bar=baz&inga=42&quux",
        "http://code.google.com/events/#&product=browser",
    ];

    let bad_urls = ["http://", "//a", "foo.com", "h://test"];

    for url in ok_urls.iter() {
        assert_eq!(is_url(url), true);
    }
    for url in bad_urls.iter() {
        assert_eq!(is_url(url), false);
    }
}

#[test]
fn gen_hash_is_two_words() {
    let mut lengths = [0usize; 8];
    for _ in 0..200 {
        let hash = gen_hash();
        let parts: Vec<&str> = hash.split('-').collect();
        assert_eq!(parts.len(), 2);
        for part in parts {
            assert!(part.len() >= 5 && part.len() <= 7);
            assert!(part.chars().all(|c| c.is_ascii_lowercase()));
            lengths[part.len()] += 1;
        }
    }
    assert!(lengths[5] > 0 && lengths[6] > 0 && lengths[7] > 0);
}

#[test]
fn gen_hash_draws_anew_each_time() {
    let mut hashes: Vec<String> = (0..50).map(|_| gen_hash()).collect();
    hashes.sort();
    hashes.dedup();
    assert!(hashes.len() > 1);
}

#[test]
fn word_lengths() {
    assert_eq!(MIN_WORD_LEN, 5);
    assert_eq!(MAX_WORD_LEN, 7);
}

#[test]
fn check_word_wants_five_to_seven_lower_case_letters() {
    assert!(check_word("amber"));
    assert!(check_word("willow"));
    assert!(check_word("harbors"));
    assert!(!check_word(""));
    assert!(!check_word("oaks"));
    assert!(!check_word("mountain"));
    assert!(!check_word("Willow"));
    assert!(!check_word("wil-ow"));
    assert!(!check_word("w1llow"));
    assert!(!check_word("wi\u{e9}low"));
}

#[test]
fn matched_counts_only_a_found_match() {
    assert!(matched(Some(true)));
    assert!(!matched(Some(false)));
    assert!(!matched(None));
}

#[test]
fn is_url_on_the_links_that_create_is_held_to() {
    assert!(!is_url("not-a-url"));
    assert!(!is_url("ftp://x"));
    assert!(!is_url("http://"));
    assert!(is_url("https://example.com/path?q=1"));
    assert!(is_url("https://example.com"));
}

#[test]
fn is_url_wants_the_whole_text_to_be_the_link() {
    assert!(!is_url("not-a-url http://foo.com"));
    assert!(!is_url("http://foo.com and more"));
    assert!(!is_url(" http://foo.com"));
    assert!(!is_url("http://foo.com\n"));
    assert!(!is_url("xhttp://foo.com"));
    assert!(!is_url("http:///path"));
    assert!(!is_url("http://?q=1"));
}

#[test]
fn is_url_takes_any_host() {
    assert!(is_url("http://localhost:3000"));
    assert!(is_url("http://localhost"));
    assert!(is_url("http://127.0.0.1:8080/willow-harbor"));
    assert!(is_url("https://[::1]:8080/"));
    assert!(is_url("https://example.com?q=1"));
    assert!(is_url("https://example.com#top"));
}

#[test]
fn hash_from_words_joins_with_hyphen() {
    assert_eq!(
        hash_from_words(Some("willow".to_string()), Some("harbor".to_string())),
        Some("willow-harbor".to_string())
    );
    assert_eq!(hash_from_words(Some("willow".to_string()), None), None);
    assert_eq!(hash_from_words(Some("Willow".to_string()), Some("harbor".to_string())), None);
    assert_eq!(hash_from_words(Some("oak".to_string()), Some("harbor".to_string())), None);
}
