use slamprust::common::album::AlbumInfo;
use slamprust::common::date::{parse_date, ReleaseDate};
use slamprust::common::song::{QualityGrade, RawSong, Song, SongInfo, SongTags, TagError};
use slamprust::utils::AudioFormat;

fn raw(file: &str, tags: &[(&str, &str)]) -> RawSong {
    RawSong {
        file: file.to_string(),
        title: None,
        artist: None,
        duration: None,
        queue_id: None,
        tags: tags.iter().map(|(k, v)| (k.to_string(), v.to_string())).collect(),
    }
}

fn date(year: i32, month: u8, day: u8) -> ReleaseDate {
    ReleaseDate::from_calendar_date(year, month, day).unwrap()
}

#[test]
fn icon_names_of_quality_grades() {
    assert_eq!(QualityGrade::Unknown.to_icon_name(), None);
    assert_eq!(QualityGrade::Lossy.to_icon_name(), None);
    assert_eq!(QualityGrade::CD.to_icon_name(), Some("format-cd-symbolic"));
    assert_eq!(QualityGrade::HiRes.to_icon_name(), Some("format-hires-symbolic"));
    assert_eq!(QualityGrade::DSD.to_icon_name(), Some("format-dsd-symbolic"));
}

#[test]
fn calendar_dates_follow_the_gregorian_rules() {
    assert!(ReleaseDate::from_calendar_date(2019, 1, 1).is_some());
    assert!(ReleaseDate::from_calendar_date(2019, 12, 31).is_some());
    assert!(ReleaseDate::from_calendar_date(2019, 2, 29).is_none());
    assert!(ReleaseDate::from_calendar_date(2020, 2, 29).is_some());
    assert!(ReleaseDate::from_calendar_date(1900, 2, 29).is_none());
    assert!(ReleaseDate::from_calendar_date(2000, 2, 29).is_some());
    assert!(ReleaseDate::from_calendar_date(2021, 4, 31).is_none());
    assert!(ReleaseDate::from_calendar_date(2021, 4, 30).is_some());
    assert!(ReleaseDate::from_calendar_date(2021, 0, 1).is_none());
    assert!(ReleaseDate::from_calendar_date(2021, 13, 1).is_none());
    assert!(ReleaseDate::from_calendar_date(2021, 1, 0).is_none());
    assert!(ReleaseDate::from_calendar_date(2021, 1, 32).is_none());
    assert!(ReleaseDate::from_calendar_date(9999, 12, 31).is_some());
    assert!(ReleaseDate::from_calendar_date(10000, 1, 1).is_none());
    assert!(ReleaseDate::from_calendar_date(-9999, 1, 1).is_some());
    assert!(ReleaseDate::from_calendar_date(-10000, 1, 1).is_none());
    assert!(ReleaseDate::from_calendar_date(-4, 2, 29).is_some());
    let d = date(2024, 2, 29);
    assert_eq!((d.year(), d.month(), d.day()), (2024, 2, 29));
}

#[test]
fn dates_are_read_with_optional_month_and_day() {
    assert_eq!(parse_date("2003-07-21"), Some(date(2003, 7, 21)));
    assert_eq!(parse_date("2003-07"), Some(date(2003, 7, 1)));
    assert_eq!(parse_date("2003"), Some(date(2003, 1, 1)));
    assert_eq!(parse_date("2003-7-4"), Some(date(2003, 7, 4)));
    assert_eq!(parse_date("+2003-+7-+4"), Some(date(2003, 7, 4)));
    assert_eq!(parse_date("2003-07-21-extra"), Some(date(2003, 7, 21)));
}

#[test]
fn a_bad_month_counts_as_january_and_a_bad_day_as_the_first() {
    assert_eq!(parse_date("2003-13-05"), Some(date(2003, 1, 5)));
    assert_eq!(parse_date("2003-00-05"), Some(date(2003, 1, 5)));
    assert_eq!(parse_date("2003-xx-05"), Some(date(2003, 1, 5)));
    assert_eq!(parse_date("2003--05"), Some(date(2003, 1, 5)));
    assert_eq!(parse_date("2003-06-xx"), Some(date(2003, 6, 1)));
    assert_eq!(parse_date("2003-06-"), Some(date(2003, 6, 1)));
    assert_eq!(parse_date("2003-300-05"), Some(date(2003, 1, 5)));
}

#[test]
fn dates_without_a_year_or_off_the_calendar_are_none() {
    assert_eq!(parse_date(""), None);
    assert_eq!(parse_date("abcd"), None);
    assert_eq!(parse_date("-2003-01-01"), None);
    assert_eq!(parse_date(" 2003"), None);
    assert_eq!(parse_date("2003-02-30"), None);
    assert_eq!(parse_date("2003-06-00"), None);
    assert_eq!(parse_date("2003-06-31"), None);
    assert_eq!(parse_date("10000-01-01"), None);
    assert_eq!(parse_date("99999999999-01-01"), None);
    assert_eq!(parse_date("2003/07/21"), None);
}

#[test]
fn album_info_keeps_what_it_is_given() {
    let info = AlbumInfo::new("folder/sub", "Title", Some("Artist"));
    assert_eq!(info.uri(), "folder/sub");
    assert_eq!(info.title(), "Title");
    assert_eq!(info.artist(), Some("Artist".to_string()));
    assert_eq!(info.mbid(), None);
    assert_eq!(info.release_date(), None);
    assert!(info.artist_mbids().is_empty());
    let copy = info.clone();
    assert_eq!(copy.title(), "Title");
    let none = AlbumInfo::new("", "T", None);
    assert_eq!(none.artist(), None);
}

#[test]
fn default_album_is_untitled() {
    let info = AlbumInfo::default();
    assert_eq!(info.title(), "Untitled Album");
    assert_eq!(info.uri(), "");
    assert_eq!(info.artist(), None);
}

#[test]
fn album_setters_change_one_field() {
    let mut info = AlbumInfo::new("u", "t", None);
    info.set_title("t2");
    info.set_uri("u2");
    info.set_artist("a2");
    assert_eq!((info.uri(), info.title(), info.artist()), ("u2".into(), "t2".into(), Some("a2".into())));
}

#[test]
fn default_song_is_untitled() {
    let song = Song::from_info(SongInfo::new());
    assert_eq!(song.get_uri(), "");
    assert_eq!(song.get_name(), "Untitled Song");
    assert_eq!(song.get_duration(), 0);
    assert_eq!(song.get_queue_id(), 0);
    assert!(!song.is_queued());
    assert!(song.get_album().is_none());
    assert_eq!(song.get_album_title(), None);
    assert_eq!(song.get_track(), -1);
    assert_eq!(song.get_disc(), -1);
    assert_eq!(song.get_quality_grade(), QualityGrade::Unknown);
    assert_eq!(song.get_release_date(), None);
    assert_eq!(song.get_mbid(), None);
    assert_eq!(song.get_artist_str(), None);
    assert!(!song.is_playing());
    let other = Song::from_info(SongInfo::default());
    assert_eq!(other.get_name(), "Untitled Song");
}

#[test]
fn new_song_has_no_info() {
    let mut song = Song::new();
    assert!(!song.has_info());
    assert!(!song.is_playing());
    assert!(song.set_is_playing(true));
    assert!(song.is_playing());
}

#[test]
fn playing_mark_reports_changes_only() {
    let mut song = Song::from_info(SongInfo::new());
    assert!(!song.set_is_playing(false));
    assert!(song.set_is_playing(true));
    assert!(song.is_playing());
    assert!(!song.set_is_playing(true));
    assert!(song.set_is_playing(false));
    assert!(!song.is_playing());
}

#[test]
fn fixed_fields_are_taken_over() {
    let mut song = raw("Artist/Album/01 Track.flac", &[]);
    song.title = Some("Track".to_string());
    song.artist = Some("Someone; Else".to_string());
    song.duration = Some(215);
    song.queue_id = Some(42);
    let song = Song::from_song(&song).unwrap();
    assert_eq!(song.get_uri(), "Artist/Album/01 Track.flac");
    assert_eq!(song.get_name(), "Track");
    assert_eq!(song.get_artist_str(), Some("Someone; Else".to_string()));
    assert_eq!(song.get_duration(), 215);
    assert_eq!(song.get_queue_id(), 42);
    assert!(song.is_queued());
    assert!(!song.is_playing());
}

#[test]
fn a_song_without_title_is_called_by_its_file_stem() {
    let song = Song::from_song(&raw("Artist/Album/01 Track.flac", &[])).unwrap();
    assert_eq!(song.get_name(), "01 Track");
    let song = Song::from_song(&raw("a/b/archive.tar.gz", &[])).unwrap();
    assert_eq!(song.get_name(), "archive.tar");
    let song = Song::from_song(&raw("", &[])).unwrap();
    assert_eq!(song.get_name(), "Untitled Song");
    let song = Song::from_song(&raw("a/..", &[])).unwrap();
    assert_eq!(song.get_name(), "Untitled Song");
}

#[test]
fn dsd_extensions_grade_as_dsd() {
    for file in ["a/b.dsf", "a/b.dff", "a/b.wsd"] {
        let song = Song::from_song(&raw(file, &[])).unwrap();
        assert_eq!(song.get_quality_grade(), QualityGrade::DSD);
    }
    let song = Song::from_song(&raw("a/b.DSF", &[])).unwrap();
    assert_eq!(song.get_quality_grade(), QualityGrade::Unknown);
    let song = Song::from_song(&raw("a/b.flac", &[])).unwrap();
    assert_eq!(song.get_quality_grade(), QualityGrade::Unknown);
    let song = Song::from_song(&raw("a/dsf", &[])).unwrap();
    assert_eq!(song.get_quality_grade(), QualityGrade::Unknown);
}

#[test]
fn format_tag_grades_by_extension_rate_and_bits() {
    let grade = |file: &str, format: &str| {
        Song::from_song(&raw(file, &[("Format", format)])).unwrap().get_quality_grade()
    };
    assert_eq!(grade("a.flac", "44100:16:2"), QualityGrade::CD);
    assert_eq!(grade("a.flac", "48000:24:2"), QualityGrade::CD);
    assert_eq!(grade("a.flac", "96000:24:2"), QualityGrade::HiRes);
    assert_eq!(grade("a.flac", "48001:24:2"), QualityGrade::HiRes);
    assert_eq!(grade("a.flac", "96000:16:2"), QualityGrade::CD);
    assert_eq!(grade("a.flac", "96000:f:2"), QualityGrade::CD);
    assert_eq!(grade("a.alac", "192000:32:2"), QualityGrade::HiRes);
    assert_eq!(grade("a.wv", "44100:16:2"), QualityGrade::CD);
    assert_eq!(grade("a.ape", "44100:16:2"), QualityGrade::CD);
    assert_eq!(grade("a.mp3", "44100:16:2"), QualityGrade::Lossy);
    assert_eq!(grade("a.mp3", "96000:24:2"), QualityGrade::Lossy);
    assert_eq!(grade("a.dsf", "352800:1:2"), QualityGrade::Lossy);
    // A format that cannot be read, or a file without extension, changes nothing.
    assert_eq!(grade("a.flac", "44100:16"), QualityGrade::Unknown);
    assert_eq!(grade("a.flac", "dsd64:2"), QualityGrade::Unknown);
    assert_eq!(grade("a.flac", "44100:256:2"), QualityGrade::Unknown);
    assert_eq!(grade("a.dsf", "garbage"), QualityGrade::DSD);
    assert_eq!(grade("noext", "44100:16:2"), QualityGrade::Unknown);
    assert_eq!(grade("a.flac", "44100:16:2:extra"), QualityGrade::CD);
}

#[test]
fn quality_grade_decisions_on_plain_values() {
    let f = |rate, bits| AudioFormat { rate, bits, chans: 2 };
    assert_eq!(QualityGrade::of_format("flac", f(44100, 16)), QualityGrade::CD);
    assert_eq!(QualityGrade::of_format("flac", f(88200, 24)), QualityGrade::HiRes);
    assert_eq!(QualityGrade::of_format("ogg", f(88200, 24)), QualityGrade::Lossy);
    assert_eq!(QualityGrade::of_format("FLAC", f(88200, 24)), QualityGrade::Lossy);
    assert_eq!(QualityGrade::of_extension(Some("dsf")), QualityGrade::DSD);
    assert_eq!(QualityGrade::of_extension(Some("mp3")), QualityGrade::Unknown);
    assert_eq!(QualityGrade::of_extension(None), QualityGrade::Unknown);
}

#[test]
fn tags_fill_album_track_disc_date_and_ids() {
    let song = raw(
        "Artist/Album/01 Track.flac",
        &[
            ("Album", "The Album"),
            ("AlbumArtist", "The Artist"),
            ("Track", "7"),
            ("Disc", "2"),
            ("OriginalDate", "1999-10-05"),
            ("MUSICBRAINZ_TRACKID", "track-id"),
            ("MUSICBRAINZ_ALBUMID", "album-id"),
            ("MUSICBRAINZ_ARTISTID", "artist-1"),
            ("MUSICBRAINZ_ARTISTID", "artist-2"),
            ("MUSICBRAINZ_ALBUMARTISTID", "aa-1"),
            ("Genre", "Rock"),
        ],
    );
    let song = Song::from_song(&song).unwrap();
    assert_eq!(song.get_track(), 7);
    assert_eq!(song.get_disc(), 2);
    assert_eq!(song.get_release_date(), Some(date(1999, 10, 5)));
    assert_eq!(song.get_mbid(), Some("track-id"));
    assert_eq!(song.get_artist_mbids(), vec!["artist-1".to_string(), "artist-2".to_string()]);
    assert_eq!(song.get_album_title(), Some("The Album".to_string()));
    let album = song.get_album().unwrap();
    assert_eq!(album.uri(), "Artist/Album");
    assert_eq!(album.title(), "The Album");
    assert_eq!(album.artist(), Some("The Artist".to_string()));
    assert_eq!(album.artist_mbids(), vec!["aa-1".to_string()]);
    assert_eq!(album.mbid(), Some("album-id".to_string()));
    assert_eq!(album.release_date(), Some(date(1999, 10, 5)));
}

#[test]
fn album_details_wait_for_the_end_of_the_tags() {
    // The album's identifier and the date come before the album itself.
    let song = raw(
        "x/y.mp3",
        &[("musicbrainz_albumid", "id"), ("originaldate", "2001"), ("album", "A")],
    );
    let info = SongInfo::from_song(&song).unwrap();
    let album = info.into_album_info().unwrap();
    assert_eq!(album.mbid(), Some("id".to_string()));
    assert_eq!(album.release_date(), Some(date(2001, 1, 1)));
    assert_eq!(album.artist(), None);
    assert_eq!(album.uri(), "x");
}

#[test]
fn album_artist_ids_are_dropped_without_an_album_artist() {
    let song = raw("x/y.mp3", &[("album", "A"), ("musicbrainz_albumartistid", "aa")]);
    let album = SongInfo::from_song(&song).unwrap().into_album_info().unwrap();
    assert_eq!(album.artist(), None);
    assert!(album.artist_mbids().is_empty());
}

#[test]
fn album_tags_without_an_album_are_dropped() {
    let song = raw("x/y.mp3", &[("albumartist", "AA"), ("musicbrainz_albumid", "id")]);
    let info = SongInfo::from_song(&song).unwrap();
    assert!(info.into_album_info().is_none());
}

#[test]
fn album_of_a_file_without_folder_has_the_file_as_uri() {
    let song = raw("y.mp3", &[("album", "A")]);
    let album = SongInfo::from_song(&song).unwrap().into_album_info().unwrap();
    assert_eq!(album.uri(), "y.mp3");
}

#[test]
fn unreadable_numbers_and_dates_change_nothing_or_clear() {
    let song = raw(
        "x/y.mp3",
        &[("track", "3"), ("track", "3/12"), ("disc", ""), ("originaldate", "2001"), ("originaldate", "?")],
    );
    let song = Song::from_song(&song).unwrap();
    assert_eq!(song.get_track(), 3);
    assert_eq!(song.get_disc(), -1);
    assert_eq!(song.get_release_date(), None);
    let song = Song::from_song(&raw("x.mp3", &[("track", "-5"), ("disc", "+2")])).unwrap();
    assert_eq!(song.get_track(), -5);
    assert_eq!(song.get_disc(), 2);
    let song =
        Song::from_song(&raw("x.mp3", &[("track", "9223372036854775807"), ("disc", "9223372036854775808")]))
            .unwrap();
    assert_eq!(song.get_track(), i64::MAX);
    assert_eq!(song.get_disc(), -1);
}

#[test]
fn second_album_tag_is_an_error() {
    let song = raw("x/y.mp3", &[("album", "A"), ("ALBUM", "B")]);
    assert_eq!(SongInfo::from_song(&song).err(), Some(TagError::MultipleAlbums));
    let song = raw("x/y.mp3", &[("albumartist", "A"), ("AlbumArtist", "B"), ("album", "1"), ("album", "2")]);
    assert_eq!(Song::from_song(&song).err(), Some(TagError::MultipleAlbumArtists));
    let song = raw("x/y.mp3", &[("musicbrainz_albumid", "A"), ("musicbrainz_albumid", "B")]);
    assert_eq!(SongInfo::from_song(&song).err(), Some(TagError::MultipleAlbumIds));
}

#[test]
fn tags_can_be_applied_one_by_one() {
    let song = raw("a/b.flac", &[]);
    let mut tags = SongTags::start(&song, Some("b".to_string()), Some("flac".to_string()));
    assert_eq!(tags.apply_tag("format", "96000:24:2".to_string()), Ok(()));
    assert_eq!(tags.apply_tag("album", "Al".to_string()), Ok(()));
    assert_eq!(tags.apply_tag("Album", "ignored: not lower case".to_string()), Ok(()));
    assert_eq!(tags.apply_tag("album", "Again".to_string()), Err(TagError::MultipleAlbums));
    let info = Song::from_info(tags.finish());
    assert_eq!(info.get_name(), "b");
    assert_eq!(info.get_quality_grade(), QualityGrade::HiRes);
    assert_eq!(info.get_album_title(), Some("Al".to_string()));
}

fn track_of(value: &str) -> i64 {
    Song::from_song(&raw("x.mp3", &[("track", value)])).unwrap().get_track()
}

#[test]
fn track_numbers_are_whole_decimal_numbers_with_an_optional_sign() {
    assert_eq!(track_of("0"), 0);
    assert_eq!(track_of("0007"), 7);
    assert_eq!(track_of("+7"), 7);
    assert_eq!(track_of("-7"), -7);
    assert_eq!(track_of("-0"), 0);
    assert_eq!(track_of("+0"), 0);
    assert_eq!(track_of("000000000000000000000000012"), 12);
    assert_eq!(track_of("-9223372036854775808"), i64::MIN);
    assert_eq!(track_of("9223372036854775807"), i64::MAX);
    // Anything else leaves the track as it was: none.
    for bad in [
        "", "+", "-", "+-1", "-+1", "--1", "++1", " 1", "1 ", "1_0", "1.0", "1e3", "0x10", "٣",
        "１", "7/12", "9223372036854775808", "-9223372036854775809", "99999999999999999999999",
    ] {
        assert_eq!(track_of(bad), -1, "{:?}", bad);
    }
}

#[test]
fn month_and_day_are_numbers_up_to_255_with_an_optional_plus() {
    assert_eq!(parse_date("2003-+12-+31"), Some(date(2003, 12, 31)));
    assert_eq!(parse_date("2003-012-031"), Some(date(2003, 12, 31)));
    // A day that is no number counts as the first.
    assert_eq!(parse_date("2003-12--1"), Some(date(2003, 12, 1)));
    assert_eq!(parse_date("2003-12-256"), Some(date(2003, 12, 1)));
    assert_eq!(parse_date("2003-12- 5"), Some(date(2003, 12, 1)));
    assert_eq!(parse_date("2003-12-+"), Some(date(2003, 12, 1)));
    // A day that is a number and no day of the month gives no date.
    assert_eq!(parse_date("2003-12-255"), None);
    assert_eq!(parse_date("2003-12-32"), None);
    // A month that is no month counts as January.
    assert_eq!(parse_date("2003-255-31"), Some(date(2003, 1, 31)));
    assert_eq!(parse_date("2003-256-31"), Some(date(2003, 1, 31)));
    assert_eq!(parse_date("2003-2-30"), None);
    assert_eq!(parse_date("2003-13-30"), Some(date(2003, 1, 30)));
}

#[test]
fn years_are_whole_numbers_within_the_calendar() {
    assert_eq!(parse_date("+2003"), Some(date(2003, 1, 1)));
    assert_eq!(parse_date("0"), Some(date(0, 1, 1)));
    assert_eq!(parse_date("00000002003"), Some(date(2003, 1, 1)));
    assert_eq!(parse_date("9999-12-31"), Some(date(9999, 12, 31)));
    assert_eq!(parse_date("2147483647"), None);
    assert_eq!(parse_date("2147483648"), None);
    assert_eq!(parse_date("20 03"), None);
}

#[test]
fn formats_are_three_numbers_between_colons() {
    let grade = |format: &str| {
        Song::from_song(&raw("a.flac", &[("format", format)])).unwrap().get_quality_grade()
    };
    assert_eq!(grade("+96000:+24:+2"), QualityGrade::HiRes);
    assert_eq!(grade("096000:024:002"), QualityGrade::HiRes);
    assert_eq!(grade("4294967295:255:255"), QualityGrade::HiRes);
    assert_eq!(grade("96000:f:2"), QualityGrade::CD);
    assert_eq!(grade("96000:24:2:"), QualityGrade::HiRes);
    for bad in [
        "", ":", "::", "96000", "96000:24", "96000:24:", ":24:2", "96000::2", "4294967296:24:2",
        "96000:256:2", "96000:24:256", "96000:F:2", "96000:24:f", "-96000:24:2", "96000:-24:2",
        " 96000:24:2", "96000 :24:2", "96000:24:2 ", "96000;24;2", "dsd64:2",
    ] {
        assert_eq!(grade(bad), QualityGrade::Unknown, "{:?}", bad);
    }
}
