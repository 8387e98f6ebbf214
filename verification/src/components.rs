//! What the interface's components decide: how they react to application events,
//! the labels they show, and the list items they display for search results.
use vstd::prelude::*;
use crate::list_items::{AlbumModel, ArtistModel, ArtistModelView, opt_text};
use crate::models::{AlbumDescription, ArtistSummary, album_item};

verus! {

/// Events about playback.
#[derive(Clone, Debug)]
pub enum PlaybackEvent {
    /// Another track started; it carries the track's id.
    TrackChanged(String),
    PlaylistChanged,
    PlaybackStopped,
    PlaybackPaused,
    PlaybackResumed,
}

/// Events about what is being browsed.
#[derive(Clone, Copy, Debug, PartialEq, Eq, Structural)]
pub enum BrowserEvent {
    SearchUpdated,
    SearchResultsUpdated,
    AlbumInfoUpdated,
}

/// Events that the application broadcasts to its components.
#[derive(Clone, Debug)]
pub enum AppEvent {
    PlaybackEvent(PlaybackEvent),
    BrowserEvent(BrowserEvent),
    MiniPlayerShown,
    MiniPlayerDestroy,
}

// ---------------------------------------------------------------------------
// The "now playing" page

/// What becomes of the page's mini player window.
#[derive(Clone, Copy, Debug, PartialEq, Eq, Structural)]
pub enum MiniPlayerChange {
    Keep,
    /// A new mini player is opened (replacing any open one).
    Open,
    /// The mini player is dropped.
    Close,
}

/// The page's reaction to an event, carried out in field order: load more of the
/// queue, change the mini player, refresh the mini player's song, pass the event
/// on to the mini player's controls. The event is always passed on to the page's
/// children afterwards.
#[derive(Clone, Copy, Debug, PartialEq, Eq, Structural)]
pub struct NowPlayingReaction {
    pub load_more: bool,
    pub mini_player: MiniPlayerChange,
    pub refresh_mini_player: bool,
    pub forward_to_mini_player: bool,
}

pub open spec fn now_playing_reaction_spec(event: AppEvent) -> NowPlayingReaction {
    match event {
        AppEvent::PlaybackEvent(p) => NowPlayingReaction {
            load_more: p is TrackChanged,
            mini_player: MiniPlayerChange::Keep,
            refresh_mini_player: p is TrackChanged || p is PlaylistChanged || p is PlaybackStopped,
            forward_to_mini_player: true,
        },
        AppEvent::MiniPlayerShown => NowPlayingReaction {
            load_more: false,
            mini_player: MiniPlayerChange::Open,
            refresh_mini_player: true,
            forward_to_mini_player: true,
        },
        AppEvent::MiniPlayerDestroy => NowPlayingReaction {
            load_more: false,
            mini_player: MiniPlayerChange::Close,
            refresh_mini_player: false,
            forward_to_mini_player: false,
        },
        _ => NowPlayingReaction {
            load_more: false,
            mini_player: MiniPlayerChange::Keep,
            refresh_mini_player: false,
            forward_to_mini_player: false,
        },
    }
}

/// How the "now playing" page reacts to `event`: a new track loads more of the
/// queue and refreshes the mini player, as do a changed playlist and a stop (without
/// loading); every playback event reaches the mini player's controls; showing the
/// mini player opens a fresh one and fills it; destroying it drops it.
pub fn now_playing_reaction(event: &AppEvent) -> (r: NowPlayingReaction)
    ensures
        r == now_playing_reaction_spec(*event),
        event is PlaybackEvent ==> r.forward_to_mini_player && r.mini_player == MiniPlayerChange::Keep,
        r.load_more <==> (event matches AppEvent::PlaybackEvent(p) && p is TrackChanged),
{
    match event {
        AppEvent::PlaybackEvent(p) => {
            let (load_more, refresh) = match p {
                PlaybackEvent::TrackChanged(_) => (true, true),
                PlaybackEvent::PlaylistChanged | PlaybackEvent::PlaybackStopped => (false, true),
                _ => (false, false),
            };
            NowPlayingReaction {
                load_more,
                mini_player: MiniPlayerChange::Keep,
                refresh_mini_player: refresh,
                forward_to_mini_player: true,
            }
        },
        AppEvent::MiniPlayerShown => NowPlayingReaction {
            load_more: false,
            mini_player: MiniPlayerChange::Open,
            refresh_mini_player: true,
            forward_to_mini_player: true,
        },
        AppEvent::MiniPlayerDestroy => NowPlayingReaction {
            load_more: false,
            mini_player: MiniPlayerChange::Close,
            refresh_mini_player: false,
            forward_to_mini_player: false,
        },
        _ => NowPlayingReaction {
            load_more: false,
            mini_player: MiniPlayerChange::Keep,
            refresh_mini_player: false,
            forward_to_mini_player: false,
        },
    }
}

// ---------------------------------------------------------------------------
// The search page

/// What the search page refreshes on an event.
#[derive(Clone, Copy, Debug, PartialEq, Eq, Structural)]
pub enum SearchReaction {
    /// The query changed: schedule a new search and retitle the page.
    Query,
    /// New results arrived: rebuild the result lists.
    Results,
    Nothing,
}

pub open spec fn search_reaction_spec(event: AppEvent) -> SearchReaction {
    match event {
        AppEvent::BrowserEvent(BrowserEvent::SearchUpdated) => SearchReaction::Query,
        AppEvent::BrowserEvent(BrowserEvent::SearchResultsUpdated) => SearchReaction::Results,
        _ => SearchReaction::Nothing,
    }
}

/// How the search page reacts to `event`.
pub fn search_reaction(event: &AppEvent) -> (r: SearchReaction)
    ensures
        r == search_reaction_spec(*event),
        r == SearchReaction::Query <==> *event == AppEvent::BrowserEvent(BrowserEvent::SearchUpdated),
        r == SearchReaction::Results <==> *event == AppEvent::BrowserEvent(
            BrowserEvent::SearchResultsUpdated,
        ),
{
    match event {
        AppEvent::BrowserEvent(BrowserEvent::SearchUpdated) => SearchReaction::Query,
        AppEvent::BrowserEvent(BrowserEvent::SearchResultsUpdated) => SearchReaction::Results,
        _ => SearchReaction::Nothing,
    }
}

/// Whether the album information page shows its information again on `event`:
/// only when that information was updated.
pub fn album_info_reaction(event: &AppEvent) -> (r: bool)
    ensures
        r == (*event == AppEvent::BrowserEvent(BrowserEvent::AlbumInfoUpdated)),
{
    match event {
        AppEvent::BrowserEvent(BrowserEvent::AlbumInfoUpdated) => true,
        _ => false,
    }
}

/// The search page's title: a prefix, then the query between guillemets, as in
/// "Search results for « abba »".
pub open spec fn search_title(prefix: Seq<char>, query: Seq<char>) -> Seq<char> {
    prefix + seq![' ', '«', ' '] + query + seq![' ', '»']
}

/// The search page's title from the words before the query (in the user's
/// language) and the query.
pub fn search_label(prefix: &str, query: &str) -> (r: String)
    ensures
        r@ == search_title(prefix@, query@),
{
    let mut s = String::new();
    s.append(prefix);
    crate::text::push_char(&mut s, ' ');
    crate::text::push_char(&mut s, '«');
    crate::text::push_char(&mut s, ' ');
    s.append(query);
    crate::text::push_char(&mut s, ' ');
    crate::text::push_char(&mut s, '»');
    assert(s@ =~= search_title(prefix@, query@));
    s
}

/// The album items for search results, in order.
pub fn album_models(albums: &Vec<AlbumDescription>) -> (r: Vec<AlbumModel>)
    ensures
        r@.len() == albums@.len(),
        forall|i: int| 0 <= i < albums@.len() ==> #[trigger] r@[i]@ == album_item(albums@[i]),
{
    let mut r: Vec<AlbumModel> = Vec::new();
    let mut i: usize = 0;
    while i < albums.len()
        invariant
            i <= albums.len(),
            r@.len() == i,
            forall|j: int| 0 <= j < i ==> #[trigger] r@[j]@ == album_item(albums@[j]),
        decreases albums.len() - i,
    {
        r.push(AlbumModel::from_album(&albums[i]));
        i = i + 1;
    }
    r
}

/// What an artist from search results looks like as a list item.
pub open spec fn artist_item(artist: ArtistSummary) -> ArtistModelView {
    ArtistModelView { artist: artist.name@, image: opt_text(artist.photo), id: artist.id@ }
}

/// The artist items for search results, in order.
pub fn artist_models(artists: &Vec<ArtistSummary>) -> (r: Vec<ArtistModel>)
    ensures
        r@.len() == artists@.len(),
        forall|i: int| 0 <= i < artists@.len() ==> #[trigger] r@[i]@ == artist_item(artists@[i]),
{
    let mut r: Vec<ArtistModel> = Vec::new();
    let mut i: usize = 0;
    while i < artists.len()
        invariant
            i <= artists.len(),
            r@.len() == i,
            forall|j: int| 0 <= j < i ==> #[trigger] r@[j]@ == artist_item(artists@[j]),
        decreases artists.len() - i,
    {
        let artist = &artists[i];
        r.push(ArtistModel::new(artist.name.as_str(), &artist.photo, artist.id.as_str()));
        i = i + 1;
    }
    r
}

// ---------------------------------------------------------------------------
// The mini player

/// The mini player's song line: the title in bold, then the artists on the next line.
pub open spec fn mini_player_text(title: Seq<char>, artist: Seq<char>) -> Seq<char> {
    seq!['<', 'b', '>'] + title + seq!['<', '/', 'b', '>', '\n'] + artist
}

/// The mini player's song line from markup-escaped title and artists.
pub fn mini_player_label(title: &str, artist: &str) -> (r: String)
    ensures
        r@ == mini_player_text(title@, artist@),
{
    let mut s = String::new();
    crate::text::push_char(&mut s, '<');
    crate::text::push_char(&mut s, 'b');
    crate::text::push_char(&mut s, '>');
    s.append(title);
    crate::text::push_char(&mut s, '<');
    crate::text::push_char(&mut s, '/');
    crate::text::push_char(&mut s, 'b');
    crate::text::push_char(&mut s, '>');
    crate::text::push_char(&mut s, '\n');
    s.append(artist);
    assert(s@ =~= mini_player_text(title@, artist@));
    s
}

/// Every playback event, whatever its kind, reaches the mini player's controls
/// and leaves the mini player open or closed as it was; only a track change loads
/// more of the queue; the mini player is refreshed on a track change, a changed
/// playlist or a stop, and on nothing else among playback events.
pub proof fn lemma_playback_events_reach_mini_player(p: PlaybackEvent)
    ensures
        now_playing_reaction_spec(AppEvent::PlaybackEvent(p)).forward_to_mini_player,
        now_playing_reaction_spec(AppEvent::PlaybackEvent(p)).mini_player == MiniPlayerChange::Keep,
        now_playing_reaction_spec(AppEvent::PlaybackEvent(p)).load_more <==> p is TrackChanged,
        now_playing_reaction_spec(AppEvent::PlaybackEvent(p)).refresh_mini_player <==> (
        p is TrackChanged || p is PlaylistChanged || p is PlaybackStopped),
{
}

/// Showing the mini player opens and fills one; destroying it closes it and
/// nothing else happens.
pub proof fn lemma_mini_player_events()
    ensures
        now_playing_reaction_spec(AppEvent::MiniPlayerShown) == (NowPlayingReaction {
            load_more: false,
            mini_player: MiniPlayerChange::Open,
            refresh_mini_player: true,
            forward_to_mini_player: true,
        }),
        now_playing_reaction_spec(AppEvent::MiniPlayerDestroy) == (NowPlayingReaction {
            load_more: false,
            mini_player: MiniPlayerChange::Close,
            refresh_mini_player: false,
            forward_to_mini_player: false,
        }),
{
}

/// The search page starts a new search only when the query changed, rebuilds its
/// lists only when results arrived, and ignores every other event.
pub proof fn lemma_search_reacts_only_to_search_events(event: AppEvent)
    ensures
        search_reaction_spec(event) == SearchReaction::Query <==> event == AppEvent::BrowserEvent(
            BrowserEvent::SearchUpdated,
        ),
        search_reaction_spec(event) == SearchReaction::Results <==> event == AppEvent::BrowserEvent(
            BrowserEvent::SearchResultsUpdated,
        ),
        !(event is BrowserEvent) ==> search_reaction_spec(event) == SearchReaction::Nothing,
{
}

/// An artist's search-result item shows exactly the artist's name, photo and id.
pub proof fn lemma_artist_item_fields(a: ArtistSummary)
    ensures
        artist_item(a).artist == a.name@,
        artist_item(a).image is Some <==> a.photo is Some,
        artist_item(a).image matches Some(c) ==> c == a.photo->0@,
        artist_item(a).id == a.id@,
{
}

} // verus!
