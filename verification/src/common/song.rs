//! Songs, as the daemon describes them: a file, a few fixed fields and a
//! list of tags, turned into a record that the front end can show.

use vstd::prelude::*;
use crate::common::album::{AlbumInfo, AlbumInfoView};
use crate::common::date::{parse_date, parsed_date, DateView, ReleaseDate};
use crate::text::{
    clone_strings, lowercase, parse_i64, same_text, signed_value, to_lowercase, value_within,
};
use crate::utils::{
    parse_audio_format, parsed_audio_format, strip_filename_linux, without_filename, AudioFormat,
};

verus! {

/// How good the audio of a song is, as far as its container and format tell.
#[derive(Clone, Copy, Debug, PartialEq, Eq, Structural)]
pub enum QualityGrade {
    /// Nothing is known.
    Unknown,
    /// Anything that is not one of the grades below.
    Lossy,
    /// A lossless codec at up to 48 kHz.
    CD,
    /// A lossless codec above 48 kHz with at least 24 bits.
    HiRes,
    /// Direct Stream Digital.
    DSD,
}

/// Whether files of this extension hold Direct Stream Digital audio.
pub open spec fn is_dsd_extension(extension: Seq<char>) -> bool {
    extension == "dsf"@ || extension == "dff"@ || extension == "wsd"@
}

/// Whether files of this extension hold audio of a lossless codec.
pub open spec fn is_lossless_extension(extension: Seq<char>) -> bool {
    extension == "flac"@ || extension == "alac"@ || extension == "wv"@ || extension == "ape"@
}

impl QualityGrade {
    /// The icon that stands for this grade, where it has one.
    pub open spec fn icon_name(self) -> Option<Seq<char>> {
        match self {
            QualityGrade::Unknown => None,
            QualityGrade::Lossy => None,
            QualityGrade::CD => Some("format-cd-symbolic"@),
            QualityGrade::HiRes => Some("format-hires-symbolic"@),
            QualityGrade::DSD => Some("format-dsd-symbolic"@),
        }
    }

    pub fn to_icon_name(self) -> (name: Option<&'static str>)
        ensures
            name is Some == self.icon_name() is Some,
            name matches Some(s) ==> Some(s@) == self.icon_name(),
    {
        match self {
            QualityGrade::Unknown => None,
            QualityGrade::Lossy => None,
            QualityGrade::CD => Some("format-cd-symbolic"),
            QualityGrade::HiRes => Some("format-hires-symbolic"),
            QualityGrade::DSD => Some("format-dsd-symbolic"),
        }
    }

    /// The grade of a file with this extension whose audio has this format.
    pub open spec fn graded(extension: Seq<char>, format: AudioFormat) -> QualityGrade {
        if is_lossless_extension(extension) {
            if format.rate > 48000 && format.bits >= 24 {
                QualityGrade::HiRes
            } else {
                QualityGrade::CD
            }
        } else {
            QualityGrade::Lossy
        }
    }

    /// The grade of a file with this extension whose audio has this format:
    /// lossy unless the extension is that of a lossless codec, and then high
    /// resolution above 48 kHz with at least 24 bits.
    pub fn of_format(extension: &str, format: AudioFormat) -> (grade: QualityGrade)
        ensures
            grade == QualityGrade::graded(extension@, format),
    {
        if same_text(extension, "flac") || same_text(extension, "alac") || same_text(
            extension,
            "wv",
        ) || same_text(extension, "ape") {
            if format.rate > 48000 && format.bits >= 24 {
                QualityGrade::HiRes
            } else {
                QualityGrade::CD
            }
        } else {
            QualityGrade::Lossy
        }
    }

    /// The grade that the extension alone gives.
    pub open spec fn initial(extension: Option<Seq<char>>) -> QualityGrade {
        match extension {
            Some(e) => if is_dsd_extension(e) {
                QualityGrade::DSD
            } else {
                QualityGrade::Unknown
            },
            None => QualityGrade::Unknown,
        }
    }

    /// The grade that the extension alone gives: Direct Stream Digital for
    /// the extensions of that format, and nothing known otherwise.
    pub fn of_extension(extension: Option<&str>) -> (grade: QualityGrade)
        ensures
            grade == QualityGrade::initial(
                match extension {
                    Some(e) => Some(e@),
                    None => None,
                },
            ),
    {
        match extension {
            Some(e) => {
                if same_text(e, "dsf") || same_text(e, "dff") || same_text(e, "wsd") {
                    QualityGrade::DSD
                } else {
                    QualityGrade::Unknown
                }
            },
            None => QualityGrade::Unknown,
        }
    }
}

/// What `std::path::Path::file_stem` gives for a path: the name of the last
/// component without its extension, where the path has a last component.
pub uninterp spec fn path_file_stem(path: Seq<char>) -> Option<Seq<char>>;

/// What `std::path::Path::extension` gives for a path: what stands behind
/// the last dot of the last component's name, where there is such a dot and
/// it is not the name's first character.
pub uninterp spec fn path_extension(path: Seq<char>) -> Option<Seq<char>>;

/// `std::path::Path::file_stem`.
#[verifier::external_body]
fn file_stem(path: &str) -> (stem: Option<String>)
    ensures
        stem.deep_view() == path_file_stem(path@),
{
    std::path::Path::new(path).file_stem().and_then(|stem| stem.to_str()).map(|stem| stem.to_owned())
}

/// `std::path::Path::extension`.
#[verifier::external_body]
fn extension(path: &str) -> (extension: Option<String>)
    ensures
        extension.deep_view() == path_extension(path@),
{
    std::path::Path::new(path).extension().and_then(|ext| ext.to_str()).map(|ext| ext.to_owned())
}

/// A song as the daemon describes it, by what it holds.
pub struct RawSongView {
    pub file: Seq<char>,
    pub title: Option<Seq<char>>,
    pub artist: Option<Seq<char>>,
    pub duration: Option<u64>,
    pub queue_id: Option<u32>,
    pub tags: Seq<(Seq<char>, Seq<char>)>,
}

/// A song as the daemon describes it.
#[derive(Clone, Debug, PartialEq, Eq)]
pub struct RawSong {
    /// The file's path in the daemon's library.
    pub file: String,
    pub title: Option<String>,
    pub artist: Option<String>,
    /// The duration in seconds.
    pub duration: Option<u64>,
    /// The song's identifier in the queue, where it is queued.
    pub queue_id: Option<u32>,
    /// All other tags, by name and value, in the daemon's order.
    pub tags: Vec<(String, String)>,
}

impl DeepView for RawSong {
    type V = RawSongView;

    open spec fn deep_view(&self) -> RawSongView {
        self@
    }
}

impl View for RawSong {
    type V = RawSongView;

    open spec fn view(&self) -> RawSongView {
        RawSongView {
            file: self.file@,
            title: self.title.deep_view(),
            artist: self.artist.deep_view(),
            duration: self.duration,
            queue_id: self.queue_id,
            tags: self.tags.deep_view(),
        }
    }
}

/// A song, by what it holds.
pub struct SongInfoView {
    pub uri: Seq<char>,
    pub title: Seq<char>,
    pub artist: Option<Seq<char>>,
    pub artist_mbids: Seq<Seq<char>>,
    pub duration: Option<u64>,
    pub queue_id: Option<u32>,
    pub album: Option<AlbumInfoView>,
    pub track: i64,
    pub disc: i64,
    pub release_date: Option<DateView>,
    pub quality_grade: QualityGrade,
    pub mbid: Option<Seq<char>>,
}

/// What is known of a song.
#[derive(Debug)]
pub struct SongInfo {
    uri: String,
    // May be the file's name, where the song has no title.
    title: String,
    // The artist tag, as the daemon gives it.
    artist: Option<String>,
    artist_mbids: Vec<String>,
    duration: Option<u64>,
    queue_id: Option<u32>,
    album: Option<AlbumInfo>,
    // A negative number stands for none.
    track: i64,
    disc: i64,
    release_date: Option<ReleaseDate>,
    quality_grade: QualityGrade,
    mbid: Option<String>,
}

impl View for SongInfo {
    type V = SongInfoView;

    closed spec fn view(&self) -> SongInfoView {
        SongInfoView {
            uri: self.uri@,
            title: self.title@,
            artist: self.artist.deep_view(),
            artist_mbids: self.artist_mbids.deep_view(),
            duration: self.duration,
            queue_id: self.queue_id,
            album: self.album.deep_view(),
            track: self.track,
            disc: self.disc,
            release_date: match self.release_date {
                Some(date) => Some(date@),
                None => None,
            },
            quality_grade: self.quality_grade,
            mbid: self.mbid.deep_view(),
        }
    }
}

impl DeepView for SongInfo {
    type V = SongInfoView;

    open spec fn deep_view(&self) -> SongInfoView {
        self@
    }
}

impl Clone for SongInfo {
    fn clone(&self) -> (copy: SongInfo)
        ensures
            copy@ == self@,
    {
        SongInfo {
            uri: self.uri.clone(),
            title: self.title.clone(),
            artist: match &self.artist {
                Some(artist) => Some(artist.clone()),
                None => None,
            },
            artist_mbids: clone_strings(&self.artist_mbids),
            duration: self.duration,
            queue_id: self.queue_id,
            album: match &self.album {
                Some(album) => Some(album.clone()),
                None => None,
            },
            track: self.track,
            disc: self.disc,
            release_date: self.release_date,
            quality_grade: self.quality_grade,
            mbid: match &self.mbid {
                Some(mbid) => Some(mbid.clone()),
                None => None,
            },
        }
    }
}

/// A tag that a song may hold once and holds twice.
#[derive(Clone, Copy, Debug, PartialEq, Eq, Structural)]
pub enum TagError {
    MultipleAlbums,
    MultipleAlbumArtists,
    MultipleAlbumIds,
}

/// What has been gathered from a song's tags so far, by what it holds.
pub struct TagsView {
    pub info: SongInfoView,
    /// The extension of the song's file.
    pub extension: Option<Seq<char>>,
    pub album_artist: Option<Seq<char>>,
    pub album_artist_mbids: Seq<Seq<char>>,
    pub album_mbid: Option<Seq<char>>,
}

impl SongInfoView {
    /// A song of which nothing is known.
    pub open spec fn untitled() -> SongInfoView {
        SongInfoView {
            uri: Seq::empty(),
            title: "Untitled Song"@,
            artist: None,
            artist_mbids: Seq::empty(),
            duration: None,
            queue_id: None,
            album: None,
            track: -1i64,
            disc: -1i64,
            release_date: None,
            quality_grade: QualityGrade::Unknown,
            mbid: None,
        }
    }
}

impl TagsView {
    /// What the fixed fields of a song give, before any tag is looked at.
    /// `stem` and `extension` are those of the song's file. A song without a
    /// title is called by its file's stem, and lacking that, untitled.
    pub open spec fn start(
        song: RawSongView,
        stem: Option<Seq<char>>,
        extension: Option<Seq<char>>,
    ) -> TagsView {
        TagsView {
            info: SongInfoView {
                uri: song.file,
                title: match song.title {
                    Some(title) => title,
                    None => match stem {
                        Some(stem) => stem,
                        None => "Untitled Song"@,
                    },
                },
                artist: song.artist,
                duration: song.duration,
                queue_id: song.queue_id,
                quality_grade: QualityGrade::initial(extension),
                ..SongInfoView::untitled()
            },
            extension,
            album_artist: None,
            album_artist_mbids: Seq::empty(),
            album_mbid: None,
        }
    }

    /// What one more tag gives. `key` is the tag's name in lower case.
    pub open spec fn with_tag(self, key: Seq<char>, val: Seq<char>) -> Result<TagsView, TagError> {
        if key == "album"@ {
            if self.info.album is None {
                Ok(
                    TagsView {
                        info: SongInfoView {
                            album: Some(
                                AlbumInfoView::new(without_filename(self.info.uri), val, None),
                            ),
                            ..self.info
                        },
                        ..self
                    },
                )
            } else {
                Err(TagError::MultipleAlbums)
            }
        } else if key == "albumartist"@ {
            if self.album_artist is None {
                Ok(TagsView { album_artist: Some(val), ..self })
            } else {
                Err(TagError::MultipleAlbumArtists)
            }
        } else if key == "format"@ {
            match (self.extension, parsed_audio_format(val)) {
                (Some(extension), Some(format)) => Ok(
                    TagsView {
                        info: SongInfoView {
                            quality_grade: QualityGrade::graded(extension, format),
                            ..self.info
                        },
                        ..self
                    },
                ),
                _ => Ok(self),
            }
        } else if key == "originaldate"@ {
            Ok(TagsView { info: SongInfoView { release_date: parsed_date(val), ..self.info }, ..self })
        } else if key == "track"@ {
            match value_within(signed_value(val), i64::MIN as int, i64::MAX as int) {
                Some(track) => Ok(
                    TagsView { info: SongInfoView { track: track as i64, ..self.info }, ..self },
                ),
                None => Ok(self),
            }
        } else if key == "disc"@ {
            match value_within(signed_value(val), i64::MIN as int, i64::MAX as int) {
                Some(disc) => Ok(
                    TagsView { info: SongInfoView { disc: disc as i64, ..self.info }, ..self },
                ),
                None => Ok(self),
            }
        } else if key == "musicbrainz_trackid"@ {
            Ok(TagsView { info: SongInfoView { mbid: Some(val), ..self.info }, ..self })
        } else if key == "musicbrainz_albumid"@ {
            if self.album_mbid is None {
                Ok(TagsView { album_mbid: Some(val), ..self })
            } else {
                Err(TagError::MultipleAlbumIds)
            }
        } else if key == "musicbrainz_artistid"@ {
            Ok(
                TagsView {
                    info: SongInfoView {
                        artist_mbids: self.info.artist_mbids.push(val),
                        ..self.info
                    },
                    ..self
                },
            )
        } else if key == "musicbrainz_albumartistid"@ {
            Ok(TagsView { album_artist_mbids: self.album_artist_mbids.push(val), ..self })
        } else {
            Ok(self)
        }
    }

    /// What a list of tags gives, taken in order. Tag names count without
    /// regard to case. The first tag that is there twice and may be there
    /// once ends it.
    pub open spec fn with_tags(self, tags: Seq<(Seq<char>, Seq<char>)>) -> Result<
        TagsView,
        TagError,
    >
        decreases tags.len(),
    {
        if tags.len() == 0 {
            Ok(self)
        } else {
            match self.with_tags(tags.drop_last()) {
                Ok(before) => before.with_tag(lowercase(tags.last().0), tags.last().1),
                Err(error) => Err(error),
            }
        }
    }

    /// The song that the gathered tags describe. What was gathered of the
    /// album is put into the album, if the song names one: its identifier
    /// and the song's release date, and the album artist with the artist's
    /// identifiers, if the song names an album artist.
    pub open spec fn finish(self) -> SongInfoView {
        SongInfoView {
            album: match self.info.album {
                Some(album) => Some(
                    AlbumInfoView {
                        mbid: self.album_mbid,
                        release_date: self.info.release_date,
                        artist: if self.album_artist is Some {
                            self.album_artist
                        } else {
                            album.artist
                        },
                        artist_mbids: if self.album_artist is Some {
                            self.album_artist_mbids
                        } else {
                            album.artist_mbids
                        },
                        ..album
                    },
                ),
                None => None,
            },
            ..self.info
        }
    }
}

/// The song that the daemon's description gives, or the tag that is there
/// twice and may be there once.
pub open spec fn song_info(song: RawSongView) -> Result<SongInfoView, TagError> {
    match TagsView::start(song, path_file_stem(song.file), path_extension(song.file)).with_tags(
        song.tags,
    ) {
        Ok(gathered) => Ok(gathered.finish()),
        Err(error) => Err(error),
    }
}

/// Once a tag has ended the gathering, what follows changes nothing.
pub proof fn lemma_error_stays(start: TagsView, tags: Seq<(Seq<char>, Seq<char>)>, n: int)
    requires
        0 <= n <= tags.len(),
        start.with_tags(tags.take(n)) is Err,
    ensures
        start.with_tags(tags) == start.with_tags(tags.take(n)),
    decreases tags.len(),
{
    if n == tags.len() {
        assert(tags.take(n) =~= tags);
    } else {
        assert(tags.drop_last().take(n) =~= tags.take(n));
        lemma_error_stays(start, tags.drop_last(), n);
    }
}

/// What has been gathered from a song's tags so far.
#[derive(Debug)]
pub struct SongTags {
    info: SongInfo,
    extension: Option<String>,
    album_artist: Option<String>,
    album_artist_mbids: Vec<String>,
    album_mbid: Option<String>,
}

impl View for SongTags {
    type V = TagsView;

    closed spec fn view(&self) -> TagsView {
        TagsView {
            info: self.info@,
            extension: self.extension.deep_view(),
            album_artist: self.album_artist.deep_view(),
            album_artist_mbids: self.album_artist_mbids.deep_view(),
            album_mbid: self.album_mbid.deep_view(),
        }
    }
}

fn push_string(list: &mut Vec<String>, s: String)
    ensures
        final(list).deep_view() == old(list).deep_view().push(s@),
{
    list.push(s);
    assert(list.deep_view() =~= old(list).deep_view().push(s@));
}

impl SongTags {
    /// Begins with the fixed fields of a song. `stem` and `extension` are
    /// those of the song's file.
    pub fn start(song: &RawSong, stem: Option<String>, extension: Option<String>) -> (tags:
        SongTags)
        ensures
            tags@ == TagsView::start(song@, stem.deep_view(), extension.deep_view()),
    {
        let title = match &song.title {
            Some(title) => title.clone(),
            None => match stem {
                Some(stem) => stem,
                None => "Untitled Song".to_owned(),
            },
        };
        let grade = match &extension {
            Some(e) => QualityGrade::of_extension(Some(e.as_str())),
            None => QualityGrade::of_extension(None),
        };
        let info = SongInfo {
            uri: song.file.clone(),
            title,
            artist: match &song.artist {
                Some(artist) => Some(artist.clone()),
                None => None,
            },
            artist_mbids: Vec::new(),
            duration: song.duration,
            queue_id: song.queue_id,
            album: None,
            track: -1,
            disc: -1,
            release_date: None,
            quality_grade: grade,
            mbid: None,
        };
        let tags = SongTags {
            info,
            extension,
            album_artist: None,
            album_artist_mbids: Vec::new(),
            album_mbid: None,
        };
        assert(tags.info.artist_mbids.deep_view() =~= Seq::<Seq<char>>::empty());
        assert(tags.album_artist_mbids.deep_view() =~= Seq::<Seq<char>>::empty());
        tags
    }

    /// Takes one more tag. `key` is the tag's name in lower case. Where the
    /// tag is one that may be there once and is there twice, nothing changes.
    pub fn apply_tag(&mut self, key: &str, val: String) -> (done: Result<(), TagError>)
        ensures
            match old(self)@.with_tag(key@, val@) {
                Ok(next) => done is Ok && final(self)@ == next,
                Err(error) => done == Err::<(), TagError>(error) && final(self)@ == old(self)@,
            },
    {
        if same_text(key, "album") {
            if self.info.album.is_none() {
                self.info.album = Some(
                    AlbumInfo::new(strip_filename_linux(self.info.uri.as_str()), val.as_str(), None),
                );
            } else {
                return Err(TagError::MultipleAlbums);
            }
        } else if same_text(key, "albumartist") {
            if self.album_artist.is_none() {
                self.album_artist = Some(val);
            } else {
                return Err(TagError::MultipleAlbumArtists);
            }
        } else if same_text(key, "format") {
            match &self.extension {
                Some(extension) => {
                    match parse_audio_format(val.as_str()) {
                        Some(format) => {
                            self.info.quality_grade = QualityGrade::of_format(
                                extension.as_str(),
                                format,
                            );
                        },
                        None => {},
                    }
                },
                None => {},
            }
        } else if same_text(key, "originaldate") {
            self.info.release_date = parse_date(val.as_str());
        } else if same_text(key, "track") {
            match parse_i64(val.as_str()) {
                Some(track) => {
                    self.info.track = track;
                },
                None => {},
            }
        } else if same_text(key, "disc") {
            match parse_i64(val.as_str()) {
                Some(disc) => {
                    self.info.disc = disc;
                },
                None => {},
            }
        } else if same_text(key, "musicbrainz_trackid") {
            self.info.mbid = Some(val);
        } else if same_text(key, "musicbrainz_albumid") {
            if self.album_mbid.is_none() {
                self.album_mbid = Some(val);
            } else {
                return Err(TagError::MultipleAlbumIds);
            }
        } else if same_text(key, "musicbrainz_artistid") {
            push_string(&mut self.info.artist_mbids, val);
        } else if same_text(key, "musicbrainz_albumartistid") {
            push_string(&mut self.album_artist_mbids, val);
        }
        Ok(())
    }

    /// Ends the gathering: the song that the tags describe.
    pub fn finish(self) -> (info: SongInfo)
        ensures
            info@ == self@.finish(),
    {
        let mut info = self.info;
        let mut album = None;
        std::mem::swap(&mut album, &mut info.album);
        match album {
            Some(mut album) => {
                album.set_details(
                    self.album_mbid,
                    info.release_date,
                    self.album_artist,
                    self.album_artist_mbids,
                );
                info.album = Some(album);
            },
            None => {},
        }
        info
    }
}

impl SongInfo {
    /// A song of which nothing is known.
    pub fn new() -> (info: SongInfo)
        ensures
            info@ == SongInfoView::untitled(),
    {
        let info = SongInfo {
            uri: String::new(),
            title: "Untitled Song".to_owned(),
            artist: None,
            artist_mbids: Vec::new(),
            duration: None,
            queue_id: None,
            album: None,
            track: -1,
            disc: -1,
            release_date: None,
            quality_grade: QualityGrade::Unknown,
            mbid: None,
        };
        assert(info.artist_mbids.deep_view() =~= Seq::<Seq<char>>::empty());
        info
    }

    /// The song that the daemon's description gives. A song may name one
    /// album, one album artist and one album identifier: a second one is an
    /// error.
    pub fn from_song(song: &RawSong) -> (info: Result<SongInfo, TagError>)
        ensures
            match song_info(song@) {
                Ok(expected) => info matches Ok(i) && i@ == expected,
                Err(error) => info matches Err(e) && e == error,
            },
    {
        let stem = file_stem(song.file.as_str());
        let extension = extension(song.file.as_str());
        let mut gathered = SongTags::start(song, stem, extension);
        let ghost start = gathered@;
        let mut i: usize = 0;
        while i < song.tags.len()
            invariant
                i <= song.tags.len(),
                start == TagsView::start(
                    song@,
                    path_file_stem(song@.file),
                    path_extension(song@.file),
                ),
                start.with_tags(song@.tags.take(i as int)) == Ok::<TagsView, TagError>(gathered@),
            decreases song.tags.len() - i,
        {
            let key = to_lowercase(song.tags[i].0.as_str());
            let val = song.tags[i].1.clone();
            proof {
                let next = song@.tags.take(i + 1);
                assert(next.drop_last() =~= song@.tags.take(i as int));
                assert(next.last() == song@.tags[i as int]);
                assert(song@.tags[i as int] == (song.tags@[i as int].0@, song.tags@[i as int].1@));
            }
            match gathered.apply_tag(key.as_str(), val) {
                Ok(()) => {},
                Err(error) => {
                    proof {
                        lemma_error_stays(start, song@.tags, i + 1);
                    }
                    return Err(error);
                },
            }
            i += 1;
        }
        assert(song@.tags.take(i as int) =~= song@.tags);
        Ok(gathered.finish())
    }

    pub fn into_album_info(self) -> (album: Option<AlbumInfo>)
        ensures
            album.deep_view() == self@.album,
    {
        self.album
    }
}

impl Default for SongInfo {
    fn default() -> (info: SongInfo)
        ensures
            info@ == SongInfoView::untitled(),
    {
        SongInfo::new()
    }
}

/// A song as the front end holds it: what is known of it, once that has
/// been set, and whether it is the one that plays.
#[derive(Debug)]
pub struct Song {
    info: Option<SongInfo>,
    is_playing: bool,
}

impl Song {
    /// What is known of the song, once it has been set.
    pub closed spec fn info(&self) -> Option<SongInfoView> {
        self.info.deep_view()
    }

    /// Whether the song is the one that plays.
    pub closed spec fn playing(&self) -> bool {
        self.is_playing
    }

    /// A song of which nothing has been set yet.
    pub fn new() -> (song: Song)
        ensures
            song.info() is None,
            !song.playing(),
    {
        Song { info: None, is_playing: false }
    }

    /// A song of which `info` is known.
    pub fn from_info(info: SongInfo) -> (song: Song)
        ensures
            song.info() == Some(info@),
            !song.playing(),
    {
        Song { info: Some(info), is_playing: false }
    }

    /// The song that the daemon's description gives.
    pub fn from_song(song: &RawSong) -> (made: Result<Song, TagError>)
        ensures
            match song_info(song@) {
                Ok(expected) => made matches Ok(s) && s.info() == Some(expected) && !s.playing(),
                Err(error) => made matches Err(e) && e == error,
            },
    {
        match SongInfo::from_song(song) {
            Ok(info) => Ok(Song::from_info(info)),
            Err(error) => Err(error),
        }
    }

    /// Whether what is known of the song has been set. Everything below but
    /// the playing mark asks for that.
    pub fn has_info(&self) -> (has: bool)
        ensures
            has == self.info() is Some,
    {
        self.info.is_some()
    }

    pub fn get_info(&self) -> (info: &SongInfo)
        requires
            self.info() is Some,
        ensures
            Some(info@) == self.info(),
    {
        self.info.as_ref().unwrap()
    }

    pub fn get_uri(&self) -> (uri: &str)
        requires
            self.info() is Some,
        ensures
            uri@ == self.info()->0.uri,
    {
        self.get_info().uri.as_str()
    }

    pub fn get_name(&self) -> (name: &str)
        requires
            self.info() is Some,
        ensures
            name@ == self.info()->0.title,
    {
        self.get_info().title.as_str()
    }

    /// The duration in seconds; 0 where it is not known.
    pub fn get_duration(&self) -> (seconds: u64)
        requires
            self.info() is Some,
        ensures
            seconds == match self.info()->0.duration {
                Some(d) => d,
                None => 0,
            },
    {
        match self.get_info().duration {
            Some(duration) => duration,
            None => 0,
        }
    }

    /// The artist tag, as the daemon gives it.
    pub fn get_artist_str(&self) -> (artist: Option<String>)
        requires
            self.info() is Some,
        ensures
            artist.deep_view() == self.info()->0.artist,
    {
        match &self.get_info().artist {
            Some(artist) => Some(artist.clone()),
            None => None,
        }
    }

    /// The identifiers of the song's artists, in the order of the tags.
    pub fn get_artist_mbids(&self) -> (mbids: Vec<String>)
        requires
            self.info() is Some,
        ensures
            mbids.deep_view() == self.info()->0.artist_mbids,
    {
        clone_strings(&self.get_info().artist_mbids)
    }

    /// The song's identifier in the queue; 0 where it is not queued.
    pub fn get_queue_id(&self) -> (id: u32)
        requires
            self.info() is Some,
        ensures
            id == match self.info()->0.queue_id {
                Some(id) => id,
                None => 0,
            },
    {
        match self.get_info().queue_id {
            Some(id) => id,
            None => 0,
        }
    }

    pub fn is_queued(&self) -> (queued: bool)
        requires
            self.info() is Some,
        ensures
            queued == self.info()->0.queue_id is Some,
    {
        self.get_info().queue_id.is_some()
    }

    pub fn get_album(&self) -> (album: Option<&AlbumInfo>)
        requires
            self.info() is Some,
        ensures
            album is Some == self.info()->0.album is Some,
            album matches Some(a) ==> Some(a@) == self.info()->0.album,
    {
        self.get_info().album.as_ref()
    }

    pub fn get_album_title(&self) -> (title: Option<String>)
        requires
            self.info() is Some,
        ensures
            title is Some == self.info()->0.album is Some,
            title matches Some(t) ==> t@ == self.info()->0.album->0.title,
    {
        match &self.get_info().album {
            Some(album) => Some(album.title()),
            None => None,
        }
    }

    /// The track number; negative where the song has none.
    pub fn get_track(&self) -> (track: i64)
        requires
            self.info() is Some,
        ensures
            track == self.info()->0.track,
    {
        self.get_info().track
    }

    /// The disc number; negative where the song has none.
    pub fn get_disc(&self) -> (disc: i64)
        requires
            self.info() is Some,
        ensures
            disc == self.info()->0.disc,
    {
        self.get_info().disc
    }

    pub fn is_playing(&self) -> (playing: bool)
        ensures
            playing == self.playing(),
    {
        self.is_playing
    }

    /// Marks the song as the one that plays, or not. Says whether that
    /// changed anything, so that those who watch the mark are told only of
    /// changes.
    pub fn set_is_playing(&mut self, new: bool) -> (changed: bool)
        ensures
            final(self).playing() == new,
            final(self).info() == old(self).info(),
            changed == (old(self).playing() != new),
    {
        let old = self.is_playing;
        self.is_playing = new;
        old != new
    }

    pub fn get_quality_grade(&self) -> (grade: QualityGrade)
        requires
            self.info() is Some,
        ensures
            grade == self.info()->0.quality_grade,
    {
        self.get_info().quality_grade
    }

    pub fn get_release_date(&self) -> (date: Option<ReleaseDate>)
        requires
            self.info() is Some,
        ensures
            date is Some == self.info()->0.release_date is Some,
            date matches Some(d) ==> Some(d@) == self.info()->0.release_date,
    {
        self.get_info().release_date
    }

    pub fn get_mbid(&self) -> (mbid: Option<&str>)
        requires
            self.info() is Some,
        ensures
            mbid is Some == self.info()->0.mbid is Some,
            mbid matches Some(m) ==> Some(m@) == self.info()->0.mbid,
    {
        match &self.get_info().mbid {
            Some(mbid) => Some(mbid.as_str()),
            None => None,
        }
    }
}

/// The songs that a list of descriptions gives, in the same order, or the
/// error of the first description that has one.
pub open spec fn song_infos(songs: Seq<RawSongView>) -> Result<Seq<SongInfoView>, TagError>
    decreases songs.len(),
{
    if songs.len() == 0 {
        Ok(Seq::empty())
    } else {
        match (song_infos(songs.drop_last()), song_info(songs.last())) {
            (Ok(before), Ok(last)) => Ok(before.push(last)),
            (Err(error), _) => Err(error),
            (Ok(_), Err(error)) => Err(error),
        }
    }
}

/// Once a description has an error, those behind it change nothing.
pub proof fn lemma_song_error_stays(songs: Seq<RawSongView>, n: int)
    requires
        0 <= n <= songs.len(),
        song_infos(songs.take(n)) is Err,
    ensures
        song_infos(songs) == song_infos(songs.take(n)),
    decreases songs.len(),
{
    if n == songs.len() {
        assert(songs.take(n) =~= songs);
    } else {
        assert(songs.drop_last().take(n) =~= songs.take(n));
        lemma_song_error_stays(songs.drop_last(), n);
    }
}

/// The songs of the queue as the daemon lists them, turned into the songs
/// that the front end shows: one for each, in the daemon's order, none of
/// them playing.
pub fn songs_of_queue(queue: &Vec<RawSong>) -> (songs: Result<Vec<Song>, TagError>)
    ensures
        match song_infos(queue.deep_view()) {
            Ok(expected) => songs matches Ok(list) && list.len() == expected.len() && forall|
                i: int,
            |
                0 <= i < list.len() ==> (#[trigger] list@[i]).info() == Some(expected[i])
                    && !list@[i].playing(),
            Err(error) => songs matches Err(e) && e == error,
        },
{
    let mut songs: Vec<Song> = Vec::new();
    let mut i: usize = 0;
    assert(queue.deep_view().take(0) =~= Seq::<RawSongView>::empty());
    while i < queue.len()
        invariant
            i <= queue.len(),
            songs.len() == i,
            song_infos(queue.deep_view().take(i as int)) matches Ok(done) && done.len() == i
                && forall|j: int|
                0 <= j < i ==> (#[trigger] songs@[j]).info() == Some(done[j]) && !songs@[j].playing(),
        decreases queue.len() - i,
    {
        proof {
            let next = queue.deep_view().take(i + 1);
            assert(next.drop_last() =~= queue.deep_view().take(i as int));
            assert(next.last() == queue@[i as int]@);
        }
        match Song::from_song(&queue[i]) {
            Ok(song) => {
                songs.push(song);
            },
            Err(error) => {
                proof {
                    lemma_song_error_stays(queue.deep_view(), i + 1);
                }
                return Err(error);
            },
        }
        i += 1;
    }
    assert(queue.deep_view().take(i as int) =~= queue.deep_view());
    Ok(songs)
}

} // verus!
