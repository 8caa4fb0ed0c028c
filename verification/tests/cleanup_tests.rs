use saywrite::cleanup::cleanup_transcript;

#[test]
fn test_spoken_replacements() {
    // Spoken punctuation marks are replaced
    let result = cleanup_transcript("what is the question mark");
    assert!(result.contains("?"));

    let result = cleanup_transcript("hello exclamation mark");
    assert!(result.contains("!"));

    let result = cleanup_transcript("end full stop");
    assert!(result.contains("."));
}

#[test]
fn test_filler_removal() {
    // um, uh, er, ah should be removed
    assert_eq!(cleanup_transcript("this um is good"), "This is good");
    assert_eq!(cleanup_transcript("well uh maybe"), "Well maybe");
    assert_eq!(cleanup_transcript("i er think so"), "I think so");
    assert_eq!(cleanup_transcript("ah yes"), "Yes");
}

#[test]
fn test_whitespace_collapse() {
    assert_eq!(cleanup_transcript("hello    world"), "Hello world");
    assert_eq!(cleanup_transcript("   hello world   "), "Hello world");
}

#[test]
fn test_punctuation_spacing() {
    assert_eq!(cleanup_transcript("hello , world"), "Hello, world");
    assert_eq!(cleanup_transcript("what ?"), "What?");
}

#[test]
fn test_punctuation_run_collapse() {
    assert_eq!(
        cleanup_transcript("testing again, period"),
        "Testing again."
    );
    assert_eq!(cleanup_transcript("wait question mark period"), "Wait?");
}

#[test]
fn test_capitalization() {
    // First letter capitalized if alphabetic
    let result = cleanup_transcript("hello world");
    assert!(result.starts_with("H"));

    // All caps stays as-is (only first letter processed)
    let result = cleanup_transcript("HELLO WORLD");
    assert!(result.starts_with("H"));
}

#[test]
fn test_paragraph_breaks() {
    // "new paragraph" becomes paragraph break
    let result = cleanup_transcript("hello new paragraph world");
    assert!(result.contains("\n\n"));
}

#[test]
fn test_empty_input() {
    assert_eq!(cleanup_transcript(""), "");
    assert_eq!(cleanup_transcript("   "), "");
}

#[test]
fn test_non_alphabetic_start() {
    // Numbers at start don't trigger capitalization
    let result = cleanup_transcript("123 hello");
    assert!(result.starts_with("1"));
}

#[test]
fn test_combined() {
    let input = "so um i think what is the question mark";
    let result = cleanup_transcript(input);
    // Should remove "um", clean up punctuation, collapse whitespace, capitalize
    assert!(result.starts_with("So"));
    assert!(result.contains("?"));
    assert!(!result.contains("um"));
}

#[test]
fn cleanup_exact_outputs() {
    assert_eq!(cleanup_transcript("what is the question mark"), "What is the?");
    assert_eq!(cleanup_transcript("hello new paragraph world"), "Hello\n\nworld");
    assert_eq!(cleanup_transcript("so um i think what is the question mark"), "So i think what is the?");
    assert_eq!(cleanup_transcript("open paren aside close paren done"), "( aside ) done");
    assert_eq!(cleanup_transcript("Question Mark"), "?");
}

#[test]
fn cleanup_keeps_phrases_inside_longer_words() {
    // "periodic" contains "period" but is not the spoken mark
    assert_eq!(cleanup_transcript("periodic review"), "Periodic review");
    assert_eq!(cleanup_transcript("commas are fine"), "Commas are fine");
}

#[test]
fn cleanup_drops_fillers_with_punctuation_and_case() {
    assert_eq!(cleanup_transcript("Ummm, yes"), "Yes");
    assert_eq!(cleanup_transcript("yes UHHH no"), "Yes no");
}

#[test]
fn cleanup_collapses_runs_to_the_strongest_mark() {
    assert_eq!(cleanup_transcript("really comma exclamation mark"), "Really!");
    assert_eq!(cleanup_transcript("ok semicolon comma"), "Ok;");
}

#[test]
fn cleanup_upper_cases_a_non_ascii_first_letter() {
    assert_eq!(cleanup_transcript("élan"), "Élan");
}

#[test]
fn cleanup_keeps_one_letter_words() {
    assert_eq!(cleanup_transcript("this is a test"), "This is a test");
    assert_eq!(cleanup_transcript("a"), "A");
    assert_eq!(cleanup_transcript("plan e or plan u"), "Plan e or plan u");
    assert_eq!(cleanup_transcript("a um test"), "A test");
}

fn assert_well_spaced(r: &str) {
    assert_eq!(r, r.trim(), "{r:?} is not trimmed");
    assert!(!r.contains("  "), "{r:?} holds a double space");
    assert!(!r.contains(" \n") && !r.contains("\n "), "{r:?} has a space next to a line feed");
    for mark in [',', '.', ';', ':', '!', '?'] {
        assert!(!r.contains(&format!(" {mark}")), "{r:?} has a space before {mark}");
    }
    assert!(r.chars().all(|c| !c.is_whitespace() || c == ' ' || c == '\n'));
    if let Some(first) = r.chars().next() {
        assert!(!first.is_ascii_lowercase());
    }
}

#[test]
fn cleaned_text_is_well_spaced() {
    for input in [
        "  hello ,   world  ",
        "first part new paragraph second part",
        "um new paragraph new paragraph uh ok period",
        "what\tis \u{a0} this ? ! really",
        "line one\n\nline two \n three",
        "comma comma period",
        "   ",
        "",
    ] {
        assert_well_spaced(&cleanup_transcript(input));
    }
    assert_eq!(
        cleanup_transcript("first part new paragraph second part"),
        "First part\n\nsecond part"
    );
}
