//! Albums, as the tags of their songs describe them.

use vstd::prelude::*;
use crate::common::date::{DateView, ReleaseDate};
use crate::text::clone_strings;

verus! {

/// An album, by what it holds.
pub struct AlbumInfoView {
    pub title: Seq<char>,
    pub uri: Seq<char>,
    pub artist: Option<Seq<char>>,
    pub artist_mbids: Seq<Seq<char>>,
    pub mbid: Option<Seq<char>>,
    pub release_date: Option<DateView>,
}

/// What is known of an album.
#[derive(Debug)]
pub struct AlbumInfo {
    title: String,
    // The folder of the first song that was found with this album's tag.
    uri: String,
    // The album artist tag, as the daemon gives it.
    artist: Option<String>,
    artist_mbids: Vec<String>,
    mbid: Option<String>,
    release_date: Option<ReleaseDate>,
}

impl View for AlbumInfo {
    type V = AlbumInfoView;

    closed spec fn view(&self) -> AlbumInfoView {
        AlbumInfoView {
            title: self.title@,
            uri: self.uri@,
            artist: self.artist.deep_view(),
            artist_mbids: self.artist_mbids.deep_view(),
            mbid: self.mbid.deep_view(),
            release_date: match self.release_date {
                Some(date) => Some(date@),
                None => None,
            },
        }
    }
}

impl DeepView for AlbumInfo {
    type V = AlbumInfoView;

    open spec fn deep_view(&self) -> AlbumInfoView {
        self@
    }
}

impl Clone for AlbumInfo {
    fn clone(&self) -> (copy: AlbumInfo)
        ensures
            copy@ == self@,
    {
        AlbumInfo {
            title: self.title.clone(),
            uri: self.uri.clone(),
            artist: match &self.artist {
                Some(artist) => Some(artist.clone()),
                None => None,
            },
            artist_mbids: clone_strings(&self.artist_mbids),
            mbid: match &self.mbid {
                Some(mbid) => Some(mbid.clone()),
                None => None,
            },
            release_date: self.release_date,
        }
    }
}

impl AlbumInfoView {
    /// An album of which folder, title and artist are known.
    pub open spec fn new(uri: Seq<char>, title: Seq<char>, artist: Option<Seq<char>>) -> AlbumInfoView {
        AlbumInfoView {
            title,
            uri,
            artist,
            artist_mbids: Seq::empty(),
            mbid: None,
            release_date: None,
        }
    }

    /// An album of which nothing is known.
    pub open spec fn untitled() -> AlbumInfoView {
        AlbumInfoView::new(Seq::empty(), "Untitled Album"@, None)
    }
}

impl AlbumInfo {
    pub fn new(uri: &str, title: &str, artist: Option<&str>) -> (info: AlbumInfo)
        ensures
            info@ == AlbumInfoView::new(
                uri@,
                title@,
                match artist {
                    Some(a) => Some(a@),
                    None => None,
                },
            ),
    {
        let info = AlbumInfo {
            uri: uri.to_owned(),
            artist: match artist {
                Some(a) => Some(a.to_owned()),
                None => None,
            },
            title: title.to_owned(),
            artist_mbids: Vec::new(),
            mbid: None,
            release_date: None,
        };
        assert(info.artist_mbids.deep_view() =~= Seq::<Seq<char>>::empty());
        info
    }

    pub fn title(&self) -> (title: String)
        ensures
            title@ == self@.title,
    {
        self.title.clone()
    }

    pub fn artist(&self) -> (artist: Option<String>)
        ensures
            artist.deep_view() == self@.artist,
    {
        match &self.artist {
            Some(artist) => Some(artist.clone()),
            None => None,
        }
    }

    pub fn uri(&self) -> (uri: String)
        ensures
            uri@ == self@.uri,
    {
        self.uri.clone()
    }

    /// The identifiers of the album's artists, in the order of the tags.
    pub fn artist_mbids(&self) -> (mbids: Vec<String>)
        ensures
            mbids.deep_view() == self@.artist_mbids,
    {
        clone_strings(&self.artist_mbids)
    }

    /// The album's identifier.
    pub fn mbid(&self) -> (mbid: Option<String>)
        ensures
            mbid.deep_view() == self@.mbid,
    {
        match &self.mbid {
            Some(mbid) => Some(mbid.clone()),
            None => None,
        }
    }

    pub fn release_date(&self) -> (date: Option<ReleaseDate>)
        ensures
            date is Some == self@.release_date is Some,
            date matches Some(d) ==> self@.release_date == Some(d@),
    {
        self.release_date
    }

    pub fn set_title(&mut self, title: &str)
        ensures
            final(self)@ == (AlbumInfoView { title: title@, ..old(self)@ }),
    {
        self.title = title.to_owned();
    }

    pub fn set_uri(&mut self, uri: &str)
        ensures
            final(self)@ == (AlbumInfoView { uri: uri@, ..old(self)@ }),
    {
        self.uri = uri.to_owned();
    }

    pub fn set_artist(&mut self, artist: &str)
        ensures
            final(self)@ == (AlbumInfoView { artist: Some(artist@), ..old(self)@ }),
    {
        self.artist = Some(artist.to_owned());
    }

    /// Adds what the tags of a song say of the album beyond its title.
    pub fn set_details(
        &mut self,
        mbid: Option<String>,
        release_date: Option<ReleaseDate>,
        artist: Option<String>,
        artist_mbids: Vec<String>,
    )
        ensures
            final(self)@ == (AlbumInfoView {
                mbid: mbid.deep_view(),
                release_date: match release_date {
                    Some(date) => Some(date@),
                    None => None,
                },
                artist: if artist is Some {
                    artist.deep_view()
                } else {
                    old(self)@.artist
                },
                artist_mbids: if artist is Some {
                    artist_mbids.deep_view()
                } else {
                    old(self)@.artist_mbids
                },
                ..old(self)@
            }),
    {
        self.mbid = mbid;
        self.release_date = release_date;
        if artist.is_some() {
            self.artist = artist;
            self.artist_mbids = artist_mbids;
        }
    }
}

impl Default for AlbumInfo {
    fn default() -> (info: AlbumInfo)
        ensures
            info@ == AlbumInfoView::untitled(),
    {
        proof {
            reveal_strlit("");
            assert(""@ =~= Seq::<char>::empty());
        }
        AlbumInfo::new("", "Untitled Album", None)
    }
}

/// An album as the front end holds it.
#[derive(Debug)]
pub struct Album {
    info: AlbumInfo,
}

impl View for Album {
    type V = AlbumInfoView;

    closed spec fn view(&self) -> AlbumInfoView {
        self.info@
    }
}

impl Album {
    pub fn from_info(info: AlbumInfo) -> (album: Album)
        ensures
            album@ == info@,
    {
        Album { info }
    }

    pub fn get_info(&self) -> (info: AlbumInfo)
        ensures
            info@ == self@,
    {
        self.info.clone()
    }

    pub fn get_uri(&self) -> (uri: String)
        ensures
            uri@ == self@.uri,
    {
        self.info.uri()
    }

    pub fn get_title(&self) -> (title: String)
        ensures
            title@ == self@.title,
    {
        self.info.title()
    }

    pub fn get_artist(&self) -> (artist: Option<String>)
        ensures
            artist.deep_view() == self@.artist,
    {
        self.info.artist()
    }
}

impl Default for Album {
    fn default() -> (album: Album)
        ensures
            album@ == AlbumInfoView::untitled(),
    {
        Album { info: AlbumInfo::default() }
    }
}

} // verus!
