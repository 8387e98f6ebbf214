use std::rc::Rc;

use spot_models::components::{
    album_info_reaction, album_models, artist_models, mini_player_label, now_playing_reaction,
    search_label, search_reaction, AppEvent, BrowserEvent,
    MiniPlayerChange, NowPlayingReaction, PlaybackEvent, SearchReaction,
};
use spot_models::models::{AlbumDescription, ArtistRef, ArtistSummary, PlaylistSummary};
use spot_models::settings_model::{
    AddSelectionTool, AppAction, AppModel, SelectionContext, SelectionState, SelectionTool,
    SettingsModel, SimpleSelectionTool, ToolResponse,
};

fn reaction(load_more: bool, mini: MiniPlayerChange, refresh: bool, forward: bool) -> NowPlayingReaction {
    NowPlayingReaction {
        load_more,
        mini_player: mini,
        refresh_mini_player: refresh,
        forward_to_mini_player: forward,
    }
}

#[test]
fn now_playing_reacts_to_playback() {
    let keep = MiniPlayerChange::Keep;
    assert_eq!(
        now_playing_reaction(&AppEvent::PlaybackEvent(PlaybackEvent::TrackChanged("t".to_string()))),
        reaction(true, keep, true, true)
    );
    assert_eq!(
        now_playing_reaction(&AppEvent::PlaybackEvent(PlaybackEvent::PlaylistChanged)),
        reaction(false, keep, true, true)
    );
    assert_eq!(
        now_playing_reaction(&AppEvent::PlaybackEvent(PlaybackEvent::PlaybackStopped)),
        reaction(false, keep, true, true)
    );
    assert_eq!(
        now_playing_reaction(&AppEvent::PlaybackEvent(PlaybackEvent::PlaybackPaused)),
        reaction(false, keep, false, true)
    );
}

#[test]
fn now_playing_reacts_to_mini_player_events() {
    assert_eq!(
        now_playing_reaction(&AppEvent::MiniPlayerShown),
        reaction(false, MiniPlayerChange::Open, true, true)
    );
    assert_eq!(
        now_playing_reaction(&AppEvent::MiniPlayerDestroy),
        reaction(false, MiniPlayerChange::Close, false, false)
    );
    assert_eq!(
        now_playing_reaction(&AppEvent::BrowserEvent(BrowserEvent::SearchUpdated)),
        reaction(false, MiniPlayerChange::Keep, false, false)
    );
}

#[test]
fn search_page_reactions() {
    assert_eq!(search_reaction(&AppEvent::BrowserEvent(BrowserEvent::SearchUpdated)), SearchReaction::Query);
    assert_eq!(
        search_reaction(&AppEvent::BrowserEvent(BrowserEvent::SearchResultsUpdated)),
        SearchReaction::Results
    );
    assert_eq!(search_reaction(&AppEvent::MiniPlayerShown), SearchReaction::Nothing);
    assert_eq!(
        search_reaction(&AppEvent::BrowserEvent(BrowserEvent::AlbumInfoUpdated)),
        SearchReaction::Nothing
    );
}

#[test]
fn album_info_reacts_only_to_its_update() {
    assert!(album_info_reaction(&AppEvent::BrowserEvent(BrowserEvent::AlbumInfoUpdated)));
    assert!(!album_info_reaction(&AppEvent::BrowserEvent(BrowserEvent::SearchUpdated)));
    assert!(!album_info_reaction(&AppEvent::MiniPlayerDestroy));
}

#[test]
fn search_titles() {
    assert_eq!(search_label("Search results for", "abba"), "Search results for « abba »");
    assert_eq!(search_label("Résultats pour", "queen"), "Résultats pour « queen »");
    assert_eq!(search_label("", ""), " «  »");
}

#[test]
fn mini_player_song_line() {
    assert_eq!(mini_player_label("Song &amp; Co", "X, Y"), "<b>Song &amp; Co</b>\nX, Y");
}

#[test]
fn search_result_items() {
    let albums = vec![AlbumDescription {
        id: "a1".to_string(),
        title: "T".to_string(),
        artists: vec![
            ArtistRef { id: "1".to_string(), name: "A".to_string() },
            ArtistRef { id: "2".to_string(), name: "B".to_string() },
        ],
        art: None,
        songs: vec![],
        is_liked: true,
    }];
    let items = album_models(&albums);
    assert_eq!(items.len(), 1);
    assert_eq!(items[0].artist, "A, B");
    assert_eq!(items[0].album, "T");
    assert_eq!(items[0].uri, "a1");
    let artists = vec![
        ArtistSummary { id: "x".to_string(), name: "X".to_string(), photo: Some("p".to_string()) },
        ArtistSummary { id: "y".to_string(), name: "Y".to_string(), photo: None },
    ];
    let items = artist_models(&artists);
    assert_eq!(items.len(), 2);
    assert_eq!((items[0].artist.as_str(), items[0].image.as_deref(), items[0].id.as_str()), ("X", Some("p"), "x"));
    assert_eq!((items[1].artist.as_str(), items[1].image.as_deref(), items[1].id.as_str()), ("Y", None, "y"));
}

fn settings_model(context: SelectionContext) -> SettingsModel<String, u8> {
    let app = AppModel { settings: "dark".to_string(), selection: SelectionState { context } };
    SettingsModel::new(Rc::new(app), 7u8)
}

#[test]
fn settings_model_reads_settings_and_queue_selection() {
    let m = settings_model(SelectionContext::Queue);
    assert_eq!(m.settings(), "dark");
    assert_eq!(*m.dispatcher(), 7u8);
    assert_eq!(m.selection().map(|s| s.context), Some(SelectionContext::Queue));
    let m = settings_model(SelectionContext::Default);
    assert!(m.selection().is_none());
}

#[test]
fn settings_model_tools() {
    let m = settings_model(SelectionContext::Queue);
    let sel = SelectionState { context: SelectionContext::Queue };
    let tools = m.tools_visible(&sel);
    let simple: Vec<SimpleSelectionTool> = tools
        .iter()
        .map(|t| match t {
            SelectionTool::Simple(s) => *s,
            SelectionTool::Add(_) => panic!("unexpected tool"),
        })
        .collect();
    assert_eq!(
        simple,
        vec![
            SimpleSelectionTool::SelectAll,
            SimpleSelectionTool::MoveDown,
            SimpleSelectionTool::MoveUp,
            SimpleSelectionTool::Remove
        ]
    );
    let resp = |t: SelectionTool| m.handle_tool_activated(&sel, &t);
    assert!(matches!(resp(SelectionTool::Simple(SimpleSelectionTool::SelectAll)), ToolResponse::Ignore));
    assert!(matches!(
        resp(SelectionTool::Simple(SimpleSelectionTool::Remove)),
        ToolResponse::Dispatch(AppAction::DequeueSelection)
    ));
    assert!(matches!(
        resp(SelectionTool::Simple(SimpleSelectionTool::MoveDown)),
        ToolResponse::Dispatch(AppAction::MoveDownSelection)
    ));
    assert!(matches!(
        resp(SelectionTool::Simple(SimpleSelectionTool::MoveUp)),
        ToolResponse::Dispatch(AppAction::MoveUpSelection)
    ));
    assert!(matches!(resp(SelectionTool::Add(AddSelectionTool::AddToQueue)), ToolResponse::Default));
    let pl = PlaylistSummary { id: "p".to_string(), title: "P".to_string() };
    assert!(matches!(resp(SelectionTool::Add(AddSelectionTool::AddToPlaylist(pl))), ToolResponse::Default));
}
