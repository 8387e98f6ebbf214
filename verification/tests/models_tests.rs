use spot_models::list_items::{format_duration, AlbumModel};
use spot_models::models::{
    AlbumDescription, AlbumInfo, AlbumRef, ArtistRef, Batch, Copyright, PlaylistDescription,
    SongDescription, UserRef,
};

fn artist(name: &str) -> ArtistRef {
    ArtistRef { id: format!("id-{}", name), name: name.to_string() }
}

fn song(id: &str, title: &str, artists: Vec<ArtistRef>, duration: u32) -> SongDescription {
    SongDescription {
        id: id.to_string(),
        uri: format!("spotify:track:{}", id),
        title: title.to_string(),
        artists,
        album: AlbumRef { id: "alb".to_string(), name: "Album".to_string() },
        duration,
        art: None,
    }
}

fn album(id: &str, artists: Vec<ArtistRef>, songs: Vec<SongDescription>) -> AlbumDescription {
    AlbumDescription {
        id: id.to_string(),
        title: format!("Title {}", id),
        artists,
        art: Some("http://img/cover.jpg".to_string()),
        songs,
        is_liked: false,
    }
}

#[test]
fn album_artists_name_joins_with_comma() {
    let a = album("a1", vec![artist("Abba"), artist("Queen"), artist("Muse")], vec![]);
    assert_eq!(a.artists_name(), "Abba, Queen, Muse");
}

#[test]
fn album_artists_name_single_and_empty() {
    assert_eq!(album("a1", vec![artist("Abba")], vec![]).artists_name(), "Abba");
    assert_eq!(album("a1", vec![], vec![]).artists_name(), "");
}

#[test]
fn song_artists_name_joins_with_comma() {
    let s = song("s1", "Song", vec![artist("X"), artist("Y")], 1000);
    assert_eq!(s.artists_name(), "X, Y");
}

#[test]
fn formatted_time_with_hours() {
    let songs = vec![
        song("1", "a", vec![], 61_000),
        song("2", "b", vec![], 3_600_000),
        song("3", "c", vec![], 4),
    ];
    assert_eq!(album("a", vec![], songs).formatted_time(), "1:01:01 + 4ms");
}

#[test]
fn formatted_time_under_an_hour() {
    let songs = vec![song("1", "a", vec![], 125_000), song("2", "b", vec![], 500)];
    assert_eq!(album("a", vec![], songs).formatted_time(), "2:05 + 500ms");
}

#[test]
fn formatted_time_long_minutes_are_not_padded_without_hours() {
    let songs = vec![song("1", "a", vec![], 59 * 60_000 + 9_123)];
    assert_eq!(album("a", vec![], songs).formatted_time(), "59:09 + 123ms");
}

#[test]
fn formatted_time_of_no_songs() {
    assert_eq!(album("a", vec![], vec![]).formatted_time(), "0:00 + 0ms");
}

#[test]
fn formatted_time_many_hours() {
    let songs = vec![song("1", "a", vec![], 4_000_000_000)];
    // 4_000_000 s = 1111 h 6 min 40 s
    assert_eq!(album("a", vec![], songs).formatted_time(), "1111:06:40 + 0ms");
}

#[test]
fn copyrights_joined_with_comma_newline_space() {
    let info = AlbumInfo {
        id: "a".to_string(),
        label: "Label".to_string(),
        release_date: "2020".to_string(),
        copyrights: vec![
            Copyright { text: "2020 X".to_string(), type_: 'C' },
            Copyright { text: "2021 Y".to_string(), type_: 'P' },
        ],
    };
    assert_eq!(info.copyrights(), "[C] 2020 X,\n [P] 2021 Y");
}

#[test]
fn copyrights_empty_and_single() {
    let mut info = AlbumInfo {
        id: "a".to_string(),
        label: "Label".to_string(),
        release_date: "2020".to_string(),
        copyrights: vec![],
    };
    assert_eq!(info.copyrights(), "");
    info.copyrights.push(Copyright { text: "t".to_string(), type_: 'P' });
    assert_eq!(info.copyrights(), "[P] t");
}

#[test]
fn batch_next_advances_by_one_page() {
    let b = Batch { offset: 0, batch_size: 10, total: 25 };
    let n = b.next().unwrap();
    assert_eq!((n.offset, n.batch_size, n.total), (10, 10, 25));
    let n2 = n.next().unwrap();
    assert_eq!(n2.offset, 20);
    assert!(n2.next().is_none());
}

#[test]
fn batch_next_stops_at_exact_end() {
    let b = Batch { offset: 10, batch_size: 10, total: 20 };
    assert!(b.next().is_none());
}

#[test]
fn batch_paging_visits_every_page_once() {
    // the pages reached by repeated `next` start at 0, 7, 14 and then stop
    let mut b = Batch { offset: 0, batch_size: 7, total: 20 };
    let mut starts = vec![b.offset];
    while let Some(n) = b.next() {
        starts.push(n.offset);
        b = n;
    }
    assert_eq!(starts, vec![0, 7, 14]);
}

#[test]
fn to_song_model_counts_from_one() {
    let s = song("s1", "Song", vec![artist("X"), artist("Y")], 187_000);
    let m = s.to_song_model(0);
    assert_eq!(m.id, "s1");
    assert_eq!(m.index, 1);
    assert_eq!(m.title, "Song");
    assert_eq!(m.artist, "X, Y");
    assert_eq!(m.duration, "3:07");
    assert_eq!(s.to_song_model(41).index, 42);
}

#[test]
fn format_duration_minutes_and_seconds() {
    assert_eq!(format_duration(0), "0:00");
    assert_eq!(format_duration(59_999), "0:59");
    assert_eq!(format_duration(600_000), "10:00");
    assert_eq!(format_duration(3_725_000), "62:05");
}

#[test]
fn album_equality_compares_ids() {
    let a = album("same", vec![artist("A")], vec![]);
    let mut b = album("same", vec![artist("B")], vec![song("1", "x", vec![], 1)]);
    b.title = "Other".to_string();
    let c = album("other", vec![artist("A")], vec![]);
    assert!(a == b);
    assert!(b == a);
    assert!(a == a);
    assert!(a != c);
}

#[test]
fn album_model_from_album_description() {
    let a = album("a7", vec![artist("Abba"), artist("Queen")], vec![]);
    let m1 = AlbumModel::from(&a);
    assert_eq!(m1.artist, "Abba, Queen");
    assert_eq!(m1.album, "Title a7");
    assert_eq!(m1.cover.as_deref(), Some("http://img/cover.jpg"));
    assert_eq!(m1.uri, "a7");
    let m2 = AlbumModel::from(a);
    assert_eq!((m2.artist, m2.album, m2.cover, m2.uri), (m1.artist, m1.album, m1.cover, m1.uri));
}

#[test]
fn album_model_from_playlist_description() {
    let p = PlaylistDescription {
        id: "p1".to_string(),
        title: "Mix".to_string(),
        art: None,
        songs: vec![],
        last_batch: Batch { offset: 0, batch_size: 50, total: 0 },
        owner: UserRef { id: "u".to_string(), display_name: "Alice".to_string() },
    };
    let m = AlbumModel::from(&p);
    assert_eq!(m.artist, "Alice");
    assert_eq!(m.album, "Mix");
    assert_eq!(m.cover, None);
    assert_eq!(m.uri, "p1");
    let m2 = AlbumModel::from(p);
    assert_eq!(m2.artist, "Alice");
}
