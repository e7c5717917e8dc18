use use_ffmpeg::text::{
    chars_contain, chars_end_with, chars_occur_at, first_line, str_contains, str_ends_with,
    to_chars,
};

fn chars(s: &str) -> Vec<char> {
    s.chars().collect()
}

#[test]
fn to_chars_gives_the_characters_in_order() {
    assert_eq!(to_chars(""), Vec::<char>::new());
    assert_eq!(to_chars("abc"), vec!['a', 'b', 'c']);
    assert_eq!(to_chars("é√x"), vec!['é', '√', 'x']);
}

#[test]
fn occurrence_at_a_position() {
    let hay = chars("ffmpeg-8.0/bin/ffmpeg");
    assert!(chars_occur_at(&hay, &chars("ffmpeg"), 0));
    assert!(chars_occur_at(&hay, &chars("ffmpeg"), 15));
    assert!(!chars_occur_at(&hay, &chars("ffmpeg"), 1));
    assert!(chars_occur_at(&hay, &chars(""), 21));
    assert!(chars_occur_at(&hay, &chars("bin"), 11));
}

#[test]
fn containment_agrees_with_std() {
    let hays = ["", "a", "ab", "abc", "ffmpeg-8.0/bin/ffmpeg", "aaa", "abab", "xéy", "bin/ffmpeg.exe"];
    let needles = ["", "a", "b", "ab", "bc", "abc", "abcd", "ffmpeg", "aa", "bab", "é", "bin/", "exe", "z"];
    for hay in hays {
        for needle in needles {
            assert_eq!(str_contains(hay, needle), hay.contains(needle), "{hay:?} {needle:?}");
            assert_eq!(str_ends_with(hay, needle), hay.ends_with(needle), "{hay:?} {needle:?}");
            assert_eq!(chars_contain(&chars(hay), &chars(needle)), hay.contains(needle));
            assert_eq!(chars_end_with(&chars(hay), &chars(needle)), hay.ends_with(needle));
        }
    }
}

#[test]
fn needle_longer_than_hay() {
    assert!(!str_contains("ff", "ffmpeg"));
    assert!(!str_ends_with("ff", "ffmpeg"));
}

#[test]
fn needle_only_at_the_very_end_is_found() {
    assert!(str_contains("xxab", "ab"));
    assert!(str_contains("ab", "ab"));
    assert!(!str_contains("xxa", "ab"));
}

#[test]
fn first_line_of_empty_text_is_nothing() {
    assert_eq!(first_line(""), None);
}

#[test]
fn first_line_stops_at_the_line_feed() {
    assert_eq!(first_line("ffmpeg version 8.0\nbuilt with gcc\n"), Some("ffmpeg version 8.0".to_string()));
    assert_eq!(first_line("one\ntwo"), Some("one".to_string()));
}

#[test]
fn first_line_without_terminator_is_the_whole_text() {
    assert_eq!(first_line("ffmpeg version 8.0"), Some("ffmpeg version 8.0".to_string()));
}

#[test]
fn first_line_drops_a_carriage_return_before_the_line_feed() {
    assert_eq!(first_line("ffmpeg version 8.0\r\nnext"), Some("ffmpeg version 8.0".to_string()));
    assert_eq!(first_line("a\r\r\nb"), Some("a\r".to_string()));
}

#[test]
fn first_line_keeps_a_carriage_return_without_line_feed() {
    assert_eq!(first_line("abc\r"), Some("abc\r".to_string()));
    assert_eq!(first_line("a\rb\nc"), Some("a\rb".to_string()));
}

#[test]
fn first_line_may_be_empty() {
    assert_eq!(first_line("\n"), Some(String::new()));
    assert_eq!(first_line("\r\n"), Some(String::new()));
    assert_eq!(first_line("\nrest"), Some(String::new()));
}

#[test]
fn first_line_agrees_with_std() {
    let texts = [
        "", "\n", "\r", "\r\n", "a", "a\n", "a\r\n", "a\r", "\ra\n", "a\nb\nc", "é√\r\nx", "\n\n",
        "ffmpeg version 8.0 Copyright (c) 2000-2025 the FFmpeg developers\nbuilt with Apple clang\n",
    ];
    for text in texts {
        assert_eq!(first_line(text), text.lines().next().map(|l| l.to_string()), "{text:?}");
    }
}
