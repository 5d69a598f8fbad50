use zarumet::display::{
    album_toggle_plan, album_view_album, album_view_song, compute_album_display_list,
    context_add_plan, AddPlan, AlbumDisplayCache, DisplayItem, ExpandedAlbums, TogglePlan,
};
use zarumet::library::{
    albums_from_songs, sort_albums, sort_tracks, Album, ArtistData, LazyLibrary, LoadStart,
};
use zarumet::song::SongInfo;

fn track(title: &str, album: &str, disc: u64, number: u64, ms: Option<u64>) -> SongInfo {
    SongInfo {
        title: title.to_string(),
        artist: "Artist".to_string(),
        album: album.to_string(),
        file_path: format!("{}/{}.flac", album, title),
        format: Some("44100:16:2".to_string()),
        play_state: None,
        elapsed_ms: None,
        duration_ms: ms,
        disc_number: disc,
        track_number: number,
    }
}

fn titles(v: &[SongInfo]) -> Vec<String> {
    v.iter().map(|s| s.title.clone()).collect()
}

#[test]
fn sample_rate_of_a_format() {
    assert_eq!(track("a", "A", 1, 1, None).sample_rate(), Some(44100));
    let mut s = track("a", "A", 1, 1, None);
    s.format = Some("dsd64:1:2".to_string());
    assert_eq!(s.sample_rate(), None);
    s.format = None;
    assert_eq!(s.sample_rate(), None);
}

#[test]
fn tracks_are_ordered() {
    let v = vec![
        track("c", "A", 2, 1, None),
        track("b", "A", 1, 2, None),
        track("z", "A", 1, 1, None),
        track("a", "A", 1, 1, None),
    ];
    assert_eq!(titles(&sort_tracks(v)), vec!["a", "z", "b", "c"]);
}

#[test]
fn albums_are_grouped_and_ordered() {
    let songs = vec![
        track("two", "beta", 1, 2, Some(200_500)),
        track("one", "Alpha", 1, 1, Some(100_000)),
        track("one", "beta", 1, 1, None),
    ];
    let albums = albums_from_songs(songs);
    assert_eq!(albums.len(), 2);
    assert_eq!(albums[0].name, "Alpha");
    assert_eq!(albums[1].name, "beta");
    assert_eq!(titles(&albums[1].tracks), vec!["one", "two"]);
    assert_eq!(albums[1].total_duration(), Some(200));
    let none = Album { name: "x".to_string(), tracks: vec![track("t", "x", 1, 1, None)] };
    assert_eq!(none.total_duration(), None);
    let sorted = sort_albums(vec![
        Album { name: "b".to_string(), tracks: vec![] },
        Album { name: "A".to_string(), tracks: vec![] },
    ]);
    assert_eq!(sorted[0].name, "A");
}

#[test]
fn artists_load_on_demand() {
    let mut lib = LazyLibrary::from_artist_names(vec![
        "beta".to_string(),
        "".to_string(),
        "Alpha".to_string(),
    ]);
    assert_eq!(lib.artists.len(), 2);
    assert_eq!(lib.artists[0].name, "Alpha");
    assert!(matches!(lib.begin_load_artist(5), LoadStart::OutOfBounds));
    match lib.begin_load_artist(1) {
        LoadStart::Load(name) => assert_eq!(name, "beta"),
        other => panic!("unexpected {:?}", other),
    }
    assert!(lib.artists[1].is_loading());
    assert!(matches!(lib.begin_load_artist(1), LoadStart::Skip));
    lib.cancel_load_artist(1);
    assert!(!lib.artists[1].is_loading());
    assert!(!lib.artists[1].is_loaded());
    assert!(matches!(lib.begin_load_artist(1), LoadStart::Load(_)));
    lib.finish_load_artist(1, vec![track("t", "Record", 1, 1, Some(60_000))]);
    assert!(lib.artists[1].is_loaded());
    let artist = lib.get_artist(1).unwrap();
    assert_eq!(artist.albums.len(), 1);
    assert_eq!(artist.albums[0].name, "Record");
    assert_eq!(lib.all_albums.len(), 1);
    assert_eq!(lib.all_albums[0].0, "beta");
    // An artist not loaded has no albums yet.
    assert!(lib.get_artist(0).unwrap().albums.is_empty());
    assert!(lib.get_artist(2).is_none());
}

#[test]
fn all_songs_load_every_artist() {
    let mut lib = LazyLibrary::from_artist_names(vec!["b".to_string(), "a".to_string()]);
    lib.apply_all_songs(vec![
        ("a".to_string(), track("x", "Zeta", 1, 1, None)),
        ("b".to_string(), track("y", "eta", 1, 1, None)),
        ("a".to_string(), track("z", "Eta", 1, 1, None)),
    ]);
    assert!(lib.all_albums_complete);
    assert!(lib.artists.iter().all(|a| a.is_loaded()));
    let names: Vec<(String, String)> =
        lib.all_albums.iter().map(|(ar, al)| (al.name.clone(), ar.clone())).collect();
    assert_eq!(
        names,
        vec![
            ("Eta".to_string(), "a".to_string()),
            ("eta".to_string(), "b".to_string()),
            ("Zeta".to_string(), "a".to_string()),
        ]
    );
    assert!(matches!(lib.artists[0].albums, ArtistData::Loaded(_)));
}

fn loaded_artist() -> zarumet::library::Artist {
    let mut lib = LazyLibrary::from_artist_names(vec!["Band".to_string()]);
    lib.begin_load_artist(0);
    lib.finish_load_artist(
        0,
        vec![
            track("one", "First", 1, 1, Some(1000)),
            track("two", "First", 1, 2, None),
            track("solo", "Second", 1, 1, Some(2000)),
        ],
    );
    lib.get_artist(0).unwrap()
}

#[test]
fn album_list_with_expanded_albums() {
    let artist = loaded_artist();
    let mut expanded = ExpandedAlbums::new();
    let (rows, indices) = compute_album_display_list(&artist, &expanded);
    assert_eq!(rows.len(), 2);
    assert_eq!(indices, vec![Some(0), Some(1)]);
    expanded.toggle("Band".to_string(), "First".to_string());
    assert!(expanded.contains(&"Band".to_string(), &"First".to_string()));
    let (rows, indices) = compute_album_display_list(&artist, &expanded);
    assert_eq!(indices, vec![Some(0), None, None, Some(1)]);
    match &rows[1] {
        DisplayItem::Song(title, ms, path) => {
            assert_eq!(title, "one");
            assert_eq!(*ms, Some(1000));
            assert_eq!(path, "First/one.flac");
        }
        _ => panic!("expected a song row"),
    }
    expanded.toggle("Band".to_string(), "First".to_string());
    assert_eq!(expanded.len(), 0);
}

#[test]
fn display_cache_is_reused() {
    let artist = loaded_artist();
    let expanded = ExpandedAlbums::new();
    let mut cache = AlbumDisplayCache::new();
    assert!(!cache.is_valid_for(0, 0, 2));
    let n = cache.get_or_compute(0, &artist, &expanded).0.len();
    assert_eq!(n, 2);
    assert!(cache.is_valid_for(0, 0, 2));
    assert!(!cache.is_valid_for(1, 0, 2));
    cache.invalidate();
    assert!(!cache.is_valid_for(0, 0, 2));
}

#[test]
fn toggling_and_adding_rows() {
    let artist = loaded_artist();
    let mut expanded = ExpandedAlbums::new();
    match album_toggle_plan(&artist, &expanded, Some(1)) {
        TogglePlan::Toggle(ar, al) => {
            assert_eq!(ar, "Band");
            assert_eq!(al, "Second");
        }
        other => panic!("unexpected {:?}", other),
    }
    assert!(matches!(album_toggle_plan(&artist, &expanded, None), TogglePlan::Nothing));
    match context_add_plan(&artist, &expanded, Some(0)) {
        AddPlan::Album(paths) => assert_eq!(paths, vec!["First/one.flac", "First/two.flac"]),
        other => panic!("unexpected {:?}", other),
    }
    expanded.toggle("Band".to_string(), "First".to_string());
    match album_toggle_plan(&artist, &expanded, Some(2)) {
        TogglePlan::AddSong(path) => assert_eq!(path, "First/two.flac"),
        other => panic!("unexpected {:?}", other),
    }
    match context_add_plan(&artist, &expanded, Some(1)) {
        AddPlan::Song(path) => assert_eq!(path, "First/one.flac"),
        other => panic!("unexpected {:?}", other),
    }
    assert!(matches!(context_add_plan(&artist, &expanded, Some(9)), AddPlan::Nothing));
}

#[test]
fn albums_view_selections() {
    let mut lib = LazyLibrary::from_artist_names(vec!["Band".to_string()]);
    lib.apply_all_songs(vec![
        ("Band".to_string(), track("one", "First", 1, 1, None)),
        ("Band".to_string(), track("two", "First", 1, 2, None)),
    ]);
    assert_eq!(album_view_song(&lib, Some(0), Some(1)), Some("First/two.flac".to_string()));
    assert_eq!(album_view_song(&lib, Some(0), Some(5)), None);
    assert_eq!(album_view_song(&lib, None, Some(0)), None);
    assert_eq!(
        album_view_album(&lib, Some(0)),
        Some(vec!["First/one.flac".to_string(), "First/two.flac".to_string()])
    );
    assert_eq!(album_view_album(&lib, Some(3)), None);
}
