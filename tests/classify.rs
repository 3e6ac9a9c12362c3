use binday_bot::bins::{extract_bins, Bins};
use binday_bot::text::contains_text;

#[test]
fn black_and_brown_without_blue() {
    let bins = extract_bins("Your next collection is a black bin and a brown bin");
    assert_eq!(bins, Bins { black: true, blue: false, brown: true });
}

#[test]
fn no_known_bin_gives_all_false() {
    let bins = extract_bins("Your next collection is a garden waste sack");
    assert_eq!(bins, Bins { black: false, blue: false, brown: false });
}

#[test]
fn all_three_bins() {
    let bins = extract_bins("black bin, blue bin, brown bin");
    assert_eq!(bins, Bins { black: true, blue: true, brown: true });
}

#[test]
fn classification_is_case_sensitive() {
    let bins = extract_bins("Black Bin and BLUE BIN");
    assert_eq!(bins, Bins { black: false, blue: false, brown: false });
}

#[test]
fn empty_description() {
    let bins = extract_bins("");
    assert_eq!(bins, Bins { black: false, blue: false, brown: false });
}

#[test]
fn phrase_at_the_very_end() {
    assert!(contains_text("collection: blue bin", "blue bin"));
    assert!(!contains_text("collection: blue bi", "blue bin"));
    assert!(contains_text("abc", ""));
    assert!(!contains_text("", "a"));
    assert!(contains_text("héllo wörld", "ö"));
}
