use slamprust::text::{chars_of, same_text, split_on};
use slamprust::utils::{
    format_secs_as_duration, g_cmp_options, g_cmp_str_options, prettify_audio_format, settings_id,
    strip_filename_linux, AudioFormat, PrettyFormat, Sorting,
};

#[test]
fn durations_under_an_hour_show_minutes_and_seconds() {
    assert_eq!(format_secs_as_duration(0), "00:00");
    assert_eq!(format_secs_as_duration(5), "00:05");
    assert_eq!(format_secs_as_duration(59), "00:59");
    assert_eq!(format_secs_as_duration(60), "01:00");
    assert_eq!(format_secs_as_duration(215), "03:35");
    assert_eq!(format_secs_as_duration(3599), "59:59");
}

#[test]
fn durations_from_an_hour_show_hours() {
    assert_eq!(format_secs_as_duration(3600), "01:00:00");
    assert_eq!(format_secs_as_duration(3661), "01:01:01");
    assert_eq!(format_secs_as_duration(86399), "23:59:59");
}

#[test]
fn durations_from_a_day_show_days() {
    assert_eq!(format_secs_as_duration(86400), "1 days 00:00:00");
    assert_eq!(format_secs_as_duration(90061), "1 days 01:01:01");
    assert_eq!(format_secs_as_duration(86400 * 12 + 3600 * 5 + 7), "12 days 05:00:07");
    assert_eq!(format_secs_as_duration(u64::MAX), "213503982334601 days 07:00:15");
}

#[test]
fn one_bit_at_dsd_rates_is_dsd() {
    let dsd64 = AudioFormat { rate: 352800, bits: 1, chans: 2 };
    assert_eq!(
        prettify_audio_format(&dsd64),
        PrettyFormat::Dsd { multiple: 64, sample_rate: 2822400, chans: 2 }
    );
    let dsd128 = AudioFormat { rate: 705600, bits: 1, chans: 2 };
    assert_eq!(
        prettify_audio_format(&dsd128),
        PrettyFormat::Dsd { multiple: 128, sample_rate: 5644800, chans: 2 }
    );
    let top = AudioFormat { rate: u32::MAX, bits: 1, chans: 1 };
    assert_eq!(
        prettify_audio_format(&top),
        PrettyFormat::Dsd { multiple: 779132, sample_rate: 34359738360, chans: 1 }
    );
}

#[test]
fn everything_else_is_pcm() {
    let cd = AudioFormat { rate: 44100, bits: 16, chans: 2 };
    assert_eq!(prettify_audio_format(&cd), PrettyFormat::Pcm { bits: 16, rate: 44100, chans: 2 });
    let slow = AudioFormat { rate: 352799, bits: 1, chans: 2 };
    assert_eq!(prettify_audio_format(&slow), PrettyFormat::Pcm { bits: 1, rate: 352799, chans: 2 });
    let wide = AudioFormat { rate: 352800, bits: 2, chans: 6 };
    assert_eq!(prettify_audio_format(&wide), PrettyFormat::Pcm { bits: 2, rate: 352800, chans: 6 });
}

#[test]
fn missing_values_sort_as_nulls_first_says() {
    let one = 1;
    assert_eq!(g_cmp_options::<i32>(None, None, true, true), Sorting::Equal);
    assert_eq!(g_cmp_options::<i32>(None, None, false, false), Sorting::Equal);
    assert_eq!(g_cmp_options(None, Some(&one), true, true), Sorting::Larger);
    assert_eq!(g_cmp_options(None, Some(&one), false, true), Sorting::Smaller);
    assert_eq!(g_cmp_options(Some(&one), None, true, false), Sorting::Smaller);
    assert_eq!(g_cmp_options(Some(&one), None, false, false), Sorting::Larger);
}

#[test]
fn present_values_sort_by_their_order() {
    let (a, b) = (1u64, 2u64);
    assert_eq!(g_cmp_options(Some(&a), Some(&b), true, true), Sorting::Smaller);
    assert_eq!(g_cmp_options(Some(&b), Some(&a), true, true), Sorting::Larger);
    assert_eq!(g_cmp_options(Some(&a), Some(&a), false, true), Sorting::Equal);
    assert_eq!(g_cmp_options(Some(&a), Some(&b), true, false), Sorting::Larger);
    assert_eq!(g_cmp_options(Some(&b), Some(&a), false, false), Sorting::Smaller);
    let (x, y) = ("apple".to_string(), "banana".to_string());
    assert_eq!(g_cmp_options(Some(&x), Some(&y), true, true), Sorting::Smaller);
}

#[test]
fn missing_strings_sort_as_nulls_first_says() {
    assert_eq!(g_cmp_str_options(None, None, true, true, true), Sorting::Equal);
    assert_eq!(g_cmp_str_options(None, Some("a"), true, true, false), Sorting::Larger);
    assert_eq!(g_cmp_str_options(None, Some("a"), false, false, true), Sorting::Smaller);
    assert_eq!(g_cmp_str_options(Some("a"), None, true, false, false), Sorting::Smaller);
    assert_eq!(g_cmp_str_options(Some("a"), None, false, true, true), Sorting::Larger);
}

#[test]
fn strings_sort_by_code_points() {
    let cmp = |a, b| g_cmp_str_options(Some(a), Some(b), true, true, true);
    assert_eq!(cmp("a", "b"), Sorting::Smaller);
    assert_eq!(cmp("b", "a"), Sorting::Larger);
    assert_eq!(cmp("abc", "abc"), Sorting::Equal);
    assert_eq!(cmp("ab", "abc"), Sorting::Smaller);
    assert_eq!(cmp("abc", "ab"), Sorting::Larger);
    assert_eq!(cmp("", ""), Sorting::Equal);
    assert_eq!(cmp("", "a"), Sorting::Smaller);
    assert_eq!(cmp("B", "a"), Sorting::Smaller);
    assert_eq!(cmp("z", "é"), Sorting::Smaller);
    assert_eq!(cmp("\u{ffff}", "\u{10000}"), Sorting::Smaller);
    let desc = |a, b| g_cmp_str_options(Some(a), Some(b), true, false, true);
    assert_eq!(desc("a", "b"), Sorting::Larger);
    assert_eq!(desc("b", "a"), Sorting::Smaller);
    assert_eq!(desc("a", "a"), Sorting::Equal);
}

#[test]
fn strings_sort_without_regard_to_case_when_asked() {
    let cmp = |a, b| g_cmp_str_options(Some(a), Some(b), true, true, false);
    assert_eq!(cmp("B", "a"), Sorting::Larger);
    assert_eq!(cmp("ABC", "abc"), Sorting::Equal);
    assert_eq!(cmp("Apple", "banana"), Sorting::Smaller);
    assert_eq!(cmp("ÉCOLE", "école"), Sorting::Equal);
    let desc = |a, b| g_cmp_str_options(Some(a), Some(b), false, false, false);
    assert_eq!(desc("B", "a"), Sorting::Smaller);
    assert_eq!(desc("a", "B"), Sorting::Larger);
}

#[test]
fn folder_of_a_path_is_what_stands_before_the_last_slash() {
    assert_eq!(strip_filename_linux("Artist/Album/01 Track.flac"), "Artist/Album");
    assert_eq!(strip_filename_linux("Album/Track.flac"), "Album");
    assert_eq!(strip_filename_linux("Track.flac"), "Track.flac");
    assert_eq!(strip_filename_linux("/Track.flac"), "");
    assert_eq!(strip_filename_linux("a/b/"), "a/b");
    assert_eq!(strip_filename_linux(""), "");
    assert_eq!(strip_filename_linux("é/ü/x"), "é/ü");
}

#[test]
fn split_keeps_empty_fields() {
    assert_eq!(split_on("a-b-c", '-'), vec!["a", "b", "c"]);
    assert_eq!(split_on("abc", '-'), vec!["abc"]);
    assert_eq!(split_on("", '-'), vec![""]);
    assert_eq!(split_on("-", '-'), vec!["", ""]);
    assert_eq!(split_on("a--b", '-'), vec!["a", "", "b"]);
    assert_eq!(split_on("-a-", '-'), vec!["", "a", ""]);
    assert_eq!(split_on("é-ü", '-'), vec!["é", "ü"]);
}

#[test]
fn same_text_compares_characters() {
    assert!(same_text("", ""));
    assert!(same_text("album", "album"));
    assert!(!same_text("album", "albumartist"));
    assert!(!same_text("album", "Album"));
    assert!(!same_text("a", ""));
    assert_eq!(chars_of("aé"), vec!['a', 'é']);
}

#[test]
fn settings_are_shared_with_development_builds() {
    assert_eq!(settings_id("org.slamprust.Slamprust"), "org.slamprust.Slamprust");
    assert_eq!(settings_id("org.slamprust.Slamprust.Devel"), "org.slamprust.Slamprust");
    assert_eq!(settings_id("org.slamprust.Slamprust.Devel.Devel"), "org.slamprust.Slamprust");
    assert_eq!(settings_id("org.slamprust.Devel.Slamprust"), "org.slamprust.Devel.Slamprust");
    assert_eq!(settings_id("org.slamprust.Slamprust.devel"), "org.slamprust.Slamprust.devel");
    assert_eq!(settings_id("org.slamprust.SlamprustDevel"), "org.slamprust.SlamprustDevel");
    assert_eq!(settings_id(".Devel"), "");
    assert_eq!(settings_id("Devel"), "Devel");
    assert_eq!(settings_id(""), "");
    assert_eq!(settings_id("é.Devel"), "é");
}
