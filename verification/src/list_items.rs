//! The items that the interface's lists display: albums, songs and artists,
//! each holding the text it shows.
use vstd::prelude::*;
use crate::text::{decimal, decimal_pad2, push_char, push_decimal, push_decimal_pad2};

verus! {

/// Text of an optional string.
pub open spec fn opt_text(o: Option<String>) -> Option<Seq<char>> {
    match o {
        Some(s) => Some(s@),
        None => None,
    }
}

/// An owned copy of a string slice.
pub fn own_str(s: &str) -> (r: String)
    ensures
        r@ == s@,
{
    let mut r = String::new();
    r.append(s);
    r
}

/// A copy of an optional string.
pub fn clone_opt_string(o: &Option<String>) -> (r: Option<String>)
    ensures
        opt_text(r) == opt_text(*o),
{
    match o {
        Some(s) => Some(s.clone()),
        None => None,
    }
}

/// Minutes and zero-padded seconds of a duration given in milliseconds, as in "3:07".
pub open spec fn duration_text(millis: nat) -> Seq<char> {
    let secs = millis / 1000;
    decimal(secs / 60) + seq![':'] + decimal_pad2(secs % 60)
}

/// Renders a duration in milliseconds as minutes and two-digit seconds ("3:07");
/// the milliseconds below a whole second are dropped.
pub fn format_duration(millis: u32) -> (r: String)
    ensures
        r@ == duration_text(millis as nat),
{
    let secs: u64 = (millis as u64) / 1000;
    let mut s = String::new();
    push_decimal(&mut s, secs / 60);
    push_char(&mut s, ':');
    push_decimal_pad2(&mut s, secs % 60);
    assert(s@ =~= duration_text(millis as nat));
    s
}

/// What an album item shows.
pub struct AlbumModelView {
    pub artist: Seq<char>,
    pub album: Seq<char>,
    pub cover: Option<Seq<char>>,
    pub uri: Seq<char>,
}

/// An album as a list item: its artists' names, its title, its cover's address and its id.
#[derive(Clone, Debug)]
pub struct AlbumModel {
    pub artist: String,
    pub album: String,
    pub cover: Option<String>,
    pub uri: String,
}

impl View for AlbumModel {
    type V = AlbumModelView;

    open spec fn view(&self) -> AlbumModelView {
        AlbumModelView {
            artist: self.artist@,
            album: self.album@,
            cover: opt_text(self.cover),
            uri: self.uri@,
        }
    }
}

impl AlbumModel {
    pub fn new(artist: &str, album: &str, cover: &Option<String>, uri: &str) -> (r: AlbumModel)
        ensures
            r@ == (AlbumModelView {
                artist: artist@,
                album: album@,
                cover: opt_text(*cover),
                uri: uri@,
            }),
    {
        AlbumModel {
            artist: own_str(artist),
            album: own_str(album),
            cover: clone_opt_string(cover),
            uri: own_str(uri),
        }
    }
}

/// What a song item shows.
pub struct SongModelView {
    pub id: Seq<char>,
    pub index: u32,
    pub title: Seq<char>,
    pub artist: Seq<char>,
    pub duration: Seq<char>,
}

/// A song as a list item: its id, its 1-based place in the list, its title,
/// its artists' names and its rendered duration.
#[derive(Clone, Debug)]
pub struct SongModel {
    pub id: String,
    pub index: u32,
    pub title: String,
    pub artist: String,
    pub duration: String,
}

impl View for SongModel {
    type V = SongModelView;

    open spec fn view(&self) -> SongModelView {
        SongModelView {
            id: self.id@,
            index: self.index,
            title: self.title@,
            artist: self.artist@,
            duration: self.duration@,
        }
    }
}

impl SongModel {
    pub fn new(id: &str, index: u32, title: &str, artist: &str, duration: &str) -> (r: SongModel)
        ensures
            r@ == (SongModelView {
                id: id@,
                index: index,
                title: title@,
                artist: artist@,
                duration: duration@,
            }),
    {
        SongModel {
            id: own_str(id),
            index,
            title: own_str(title),
            artist: own_str(artist),
            duration: own_str(duration),
        }
    }
}

/// What an artist item shows.
pub struct ArtistModelView {
    pub artist: Seq<char>,
    pub image: Option<Seq<char>>,
    pub id: Seq<char>,
}

/// An artist as a list item: name, photo address and id.
#[derive(Clone, Debug)]
pub struct ArtistModel {
    pub artist: String,
    pub image: Option<String>,
    pub id: String,
}

impl View for ArtistModel {
    type V = ArtistModelView;

    open spec fn view(&self) -> ArtistModelView {
        ArtistModelView { artist: self.artist@, image: opt_text(self.image), id: self.id@ }
    }
}

impl ArtistModel {
    pub fn new(artist: &str, image: &Option<String>, id: &str) -> (r: ArtistModel)
        ensures
            r@ == (ArtistModelView { artist: artist@, image: opt_text(*image), id: id@ }),
    {
        ArtistModel { artist: own_str(artist), image: clone_opt_string(image), id: own_str(id) }
    }
}

} // verus!
