use dispute::utils::{capitalize, current_time, rgba_into_argb};

#[test]
fn capitalize_makes_first_letter_upper_case() {
    assert_eq!(capitalize("dispute"), "Dispute");
    assert_eq!(capitalize("a"), "A");
    assert_eq!(capitalize("zebra crossing"), "Zebra crossing");
}

#[test]
fn capitalize_of_empty_text_is_empty() {
    assert_eq!(capitalize(""), "");
}

#[test]
fn capitalize_leaves_other_first_characters() {
    assert_eq!(capitalize("Already"), "Already");
    assert_eq!(capitalize("1st place"), "1st place");
    assert_eq!(capitalize("élan"), "élan");
    assert_eq!(capitalize("{brace"), "{brace");
    assert_eq!(capitalize("`tick"), "`tick");
}

#[test]
fn capitalize_keeps_the_rest_and_is_idempotent() {
    let once = capitalize("hello wORLD ünïcode");
    assert_eq!(once, "Hello wORLD ünïcode");
    assert_eq!(capitalize(&once), once);
    assert_eq!(once.chars().count(), "hello wORLD ünïcode".chars().count());
}

#[test]
fn rgba_pixels_become_argb() {
    assert_eq!(rgba_into_argb(vec![1, 2, 3, 4]), vec![4, 1, 2, 3]);
    assert_eq!(
        rgba_into_argb(vec![10, 20, 30, 40, 50, 60, 70, 80]),
        vec![40, 10, 20, 30, 80, 50, 60, 70]
    );
}

#[test]
fn rgba_trailing_bytes_stay_put() {
    assert_eq!(rgba_into_argb(vec![1, 2, 3, 4, 9, 8]), vec![4, 1, 2, 3, 9, 8]);
    assert_eq!(rgba_into_argb(vec![7, 7, 5]), vec![7, 7, 5]);
    assert_eq!(rgba_into_argb(vec![]), Vec::<u8>::new());
}

#[test]
fn current_time_is_after_2020() {
    let t = current_time().expect("the clock reads a time after the epoch");
    assert!(t > 1_577_836_800_000);
}

use dispute::utils::fill_desktop_entry;

#[test]
fn desktop_entry_gets_the_executable_path() {
    let template = "[Desktop Entry]\nName=Dispute\nExec={}\nIcon=dispute\n";
    assert_eq!(
        fill_desktop_entry(template, "/home/me/.local/bin/dispute"),
        "[Desktop Entry]\nName=Dispute\nExec=/home/me/.local/bin/dispute\nIcon=dispute\n"
    );
}

#[test]
fn desktop_entry_replaces_like_str_replace() {
    for t in ["", "{}", "{{}}", "{}{}", "{", "}", "}{", "a{}b{c}d", "{}}{{}"] {
        assert_eq!(fill_desktop_entry(t, "X"), t.replace("{}", "X"));
    }
    assert_eq!(fill_desktop_entry("{{}}", "X"), "{X}");
    assert_eq!(fill_desktop_entry("no placeholder", "X"), "no placeholder");
}

use dispute::utils::timestamp_from_millis;

#[test]
fn timestamps_are_cut_like_as() {
    assert_eq!(timestamp_from_millis(Some(1_700_000_000_123)), Some(1_700_000_000_123));
    assert_eq!(timestamp_from_millis(Some(u128::from(u64::MAX))), Some(-1));
    assert_eq!(timestamp_from_millis(Some(1u128 << 64)), Some(0));
    assert_eq!(timestamp_from_millis(None), None);
}

use dispute::utils::{millis_of, to_ascii_upper};

#[test]
fn millis_drop_the_rest_of_a_millisecond() {
    assert_eq!(millis_of(0, 0), 0);
    assert_eq!(millis_of(1, 999_999), 1000);
    assert_eq!(millis_of(1, 1_000_000), 1001);
    assert_eq!(millis_of(2, 999_999_999), 2999);
    assert_eq!(millis_of(u64::MAX, 999_999_999), u128::from(u64::MAX) * 1000 + 999);
    let d = std::time::Duration::new(1_700_000_000, 123_456_789);
    assert_eq!(millis_of(d.as_secs(), d.subsec_nanos()), d.as_millis());
}

#[test]
fn ascii_upper_matches_std() {
    for c in ['a', 'm', 'z', 'A', 'Z', '0', '`', '{', 'é', 'ß', '\u{10FFFF}'] {
        assert_eq!(to_ascii_upper(c), c.to_ascii_uppercase());
    }
}
