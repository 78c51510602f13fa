use artist_graph::catalog::{nonempty_discography, Album, Artist, Track, TrackArtist};
use artist_graph::compiler::{compile, UpsertOp};
use artist_graph::escape::escape;
use artist_graph::render::{render, render_all};

fn s(text: &str) -> String {
    String::from(text)
}

fn artist_a() -> Artist {
    Artist { uri: s("uri:A"), name: s("ArtistA"), genres: vec![s("art rock")] }
}

fn track(uri: &str, name: &str, artists: Vec<(&str, &str)>) -> Track {
    Track {
        uri: Some(s(uri)),
        name: s(name),
        artists: artists
            .into_iter()
            .map(|(u, n)| TrackArtist { uri: s(u), name: s(n) })
            .collect(),
    }
}

/// The seed scenario: one genre, one album with two tracks, each track with
/// one contributing artist equal to the album's artist, no images and no
/// album genres: exactly 1 + 1 + 1 + 0 + 0 + 2 = 5 operations.
#[test]
fn scenario_single_album_two_tracks() {
    let artist = artist_a();
    let albums = vec![Album {
        uri: s("uri:AL"),
        name: s("AlbumOne"),
        genres: vec![],
        images: vec![],
        tracks: vec![
            track("uri:T1", "TrackOne", vec![("uri:A", "ArtistA")]),
            track("uri:T2", "TrackTwo", vec![("uri:A", "ArtistA")]),
        ],
    }];
    let out = compile(&artist, &albums);
    assert_eq!(out.ops.len(), 5);
    assert!(out.skipped_tracks.is_empty());
    assert!(matches!(out.ops[0], UpsertOp::MergeArtist { .. }));
    assert!(matches!(out.ops[1], UpsertOp::MergeArtistGenre { .. }));
    assert!(matches!(out.ops[2], UpsertOp::MergeReleased { .. }));
    assert!(matches!(out.ops[3], UpsertOp::MergeTrack { .. }));
    assert!(matches!(out.ops[4], UpsertOp::MergeTrack { .. }));
    let stmts = render_all(&out.ops);
    assert_eq!(stmts.len(), 5);
    assert_eq!(stmts[0], "MERGE (artist:Artist {uri: 'uri:A', name: 'ArtistA'})");
    assert_eq!(
        stmts[1],
        "MERGE (artist:Artist {uri: 'uri:A', name: 'ArtistA'})\
         MERGE (genre:Genre {name: 'art rock'})\
         MERGE (artist)-[:genre]->(genre)"
    );
    assert_eq!(
        stmts[2],
        "MERGE (artist:Artist {uri: 'uri:A', name: 'ArtistA'})\
         MERGE (album:Album {uri: 'uri:AL', name: 'AlbumOne'})\
         MERGE (artist)-[:released]->(album)"
    );
    assert_eq!(
        stmts[3],
        "MERGE (artist:Artist {uri: 'uri:A', name: 'ArtistA'})\
         MERGE (album:Album {uri: 'uri:AL', name: 'AlbumOne'})\
         MERGE (track:Track {uri: 'uri:T1', name: 'TrackOne'})\
         MERGE (artist)-[:wrote]->(track)\
         MERGE (album)-[:has_track]->(track)"
    );
}

/// The operation-count formula over a fuller discography: with 2 artist
/// genres, a first album with 1 genre, 2 images and tracks with 2 and 1
/// contributing artists, and a bare second album, the compiler emits
/// 1 + 2 + (1 + 1 + 2 + 3) + 1 = 11 operations.
#[test]
fn operation_count_formula() {
    let artist = Artist {
        uri: s("uri:A"),
        name: s("ArtistA"),
        genres: vec![s("g1"), s("g2")],
    };
    let albums = vec![
        Album {
            uri: s("uri:AL1"),
            name: s("First"),
            genres: vec![s("k1")],
            images: vec![s("http://img/1"), s("http://img/2")],
            tracks: vec![
                track("uri:T1", "One", vec![("uri:A", "ArtistA"), ("uri:B", "ArtistB")]),
                track("uri:T2", "Two", vec![("uri:C", "ArtistC")]),
            ],
        },
        Album {
            uri: s("uri:AL2"),
            name: s("Second"),
            genres: vec![],
            images: vec![],
            tracks: vec![],
        },
    ];
    let out = compile(&artist, &albums);
    assert_eq!(out.ops.len(), 11);
    assert!(out.skipped_tracks.is_empty());
}

/// A track without its catalog identifier is a hard error for that track:
/// its operations are skipped and its name reported, while sibling tracks
/// are still compiled.
#[test]
fn malformed_track_skipped() {
    let artist = Artist { uri: s("uri:A"), name: s("ArtistA"), genres: vec![] };
    let albums = vec![Album {
        uri: s("uri:AL"),
        name: s("AlbumOne"),
        genres: vec![],
        images: vec![],
        tracks: vec![
            Track { uri: None, name: s("NoKey"), artists: vec![TrackArtist {
                uri: s("uri:A"),
                name: s("ArtistA"),
            }] },
            track("uri:T2", "Keyed", vec![("uri:A", "ArtistA")]),
        ],
    }];
    let out = compile(&artist, &albums);
    assert_eq!(out.skipped_tracks, vec![s("NoKey")]);
    assert_eq!(out.ops.len(), 3);
    let last = render(&out.ops[2]);
    assert!(last.contains("uri: 'uri:T2'"));
}

/// An album with zero tracks, genres and images yields just its "released"
/// operation — not an error.
#[test]
fn empty_album_yields_single_operation() {
    let artist = Artist { uri: s("uri:A"), name: s("ArtistA"), genres: vec![] };
    let albums = vec![Album {
        uri: s("uri:AL"),
        name: s("Bare"),
        genres: vec![],
        images: vec![],
        tracks: vec![],
    }];
    let out = compile(&artist, &albums);
    assert_eq!(out.ops.len(), 2);
    assert!(matches!(out.ops[1], UpsertOp::MergeReleased { .. }));
}

/// A retrieval that found no albums reports no discography; any other
/// retrieval is handed on unchanged.
#[test]
fn empty_discography_is_none() {
    assert!(nonempty_discography(Vec::new()).is_none());
    let albums = vec![Album {
        uri: s("uri:AL"),
        name: s("Only"),
        genres: vec![],
        images: vec![],
        tracks: vec![],
    }];
    let kept = nonempty_discography(albums).unwrap();
    assert_eq!(kept.len(), 1);
    assert_eq!(kept[0].uri, "uri:AL");
}

/// Escaping: the delimiter is preceded by a backslash, everything else is
/// unchanged.
#[test]
fn escape_inserts_backslash_before_delimiter() {
    assert_eq!(escape("radiohead"), "radiohead");
    assert_eq!(escape("it's"), "it\\'s");
    assert_eq!(escape("''"), "\\'\\'");
    assert_eq!(escape(""), "");
}

/// A name containing the statement delimiter is embedded escaped, so the
/// rendered statement refers to the literal name instead of ending early.
#[test]
fn delimiter_in_names_is_escaped_in_statements() {
    let artist = Artist { uri: s("uri:A"), name: s("L'Artiste"), genres: vec![] };
    let albums = vec![Album {
        uri: s("uri:AL"),
        name: s("C'est"),
        genres: vec![],
        images: vec![],
        tracks: vec![],
    }];
    let out = compile(&artist, &albums);
    let stmts = render_all(&out.ops);
    assert_eq!(stmts[0], "MERGE (artist:Artist {uri: 'uri:A', name: 'L\\'Artiste'})");
    assert_eq!(
        stmts[1],
        "MERGE (artist:Artist {uri: 'uri:A', name: 'L\\'Artiste'})\
         MERGE (album:Album {uri: 'uri:AL', name: 'C\\'est'})\
         MERGE (artist)-[:released]->(album)"
    );
}

/// Idempotence on concrete values: interpreting the compiled operations as
/// merges into a set of node and edge facts, a second application changes
/// nothing.
#[test]
fn applying_compiled_output_twice_is_idempotent() {
    let artist = artist_a();
    let albums = vec![Album {
        uri: s("uri:AL"),
        name: s("AlbumOne"),
        genres: vec![s("k1")],
        images: vec![s("http://img/1")],
        tracks: vec![track("uri:T1", "TrackOne", vec![("uri:B", "ArtistB")])],
    }];
    let out = compile(&artist, &albums);
    let stmts = render_all(&out.ops);

    let mut state: Vec<String> = Vec::new();
    let mut merge_all = |state: &mut Vec<String>| {
        for stmt in &stmts {
            for clause in stmt.split("MERGE ").filter(|c| !c.is_empty()) {
                let fact = String::from(clause);
                if !state.contains(&fact) {
                    state.push(fact);
                }
            }
        }
    };
    merge_all(&mut state);
    let once = state.clone();
    merge_all(&mut state);
    assert_eq!(state, once);
}
