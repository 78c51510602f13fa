use artist_graph::catalog::{Album, Artist, Track, TrackArtist};
use artist_graph::config::EnvVars;
use artist_graph::frontier::{remaining_artists_statement, Frontier};
use artist_graph::queries::construct_artist_queries;
use artist_graph::session::ApplySession;

fn s(text: &str) -> String {
    String::from(text)
}

/// After a round, every visited identifier has left the frontier, and every
/// discovered artist that was not just visited has entered it.
#[test]
fn visited_artists_leave_the_frontier() {
    let mut frontier = Frontier::new();
    frontier.insert_if_absent(s("uri:A"), s("ArtistA"));
    assert_eq!(frontier.len(), 1);
    let snapshot = frontier.snapshot();
    assert_eq!(snapshot, vec![(s("uri:A"), s("ArtistA"))]);

    let visited = vec![s("uri:A")];
    let discovered = vec![(s("uri:B"), s("ArtistB"))];
    frontier.update_after_round(&visited, &discovered);
    assert!(!frontier.contains(&s("uri:A")));
    assert!(frontier.contains(&s("uri:B")));
    assert_eq!(frontier.len(), 1);
}

/// An artist rediscovered in the same round it was visited still leaves the
/// frontier: removal happens last.
#[test]
fn rediscovered_visited_artist_is_still_removed() {
    let mut frontier = Frontier::new();
    frontier.insert_if_absent(s("uri:A"), s("ArtistA"));
    frontier.insert_if_absent(s("uri:B"), s("ArtistB"));
    let visited = vec![s("uri:A")];
    let discovered = vec![(s("uri:A"), s("ArtistA")), (s("uri:C"), s("ArtistC"))];
    frontier.update_after_round(&visited, &discovered);
    assert!(!frontier.contains(&s("uri:A")));
    assert!(frontier.contains(&s("uri:B")));
    assert!(frontier.contains(&s("uri:C")));
    assert_eq!(frontier.len(), 2);
}

/// Inserting an identifier already present keeps the existing display name.
#[test]
fn insert_if_absent_keeps_existing_entry() {
    let mut frontier = Frontier::new();
    frontier.insert_if_absent(s("uri:A"), s("first"));
    frontier.insert_if_absent(s("uri:A"), s("second"));
    assert_eq!(frontier.len(), 1);
    assert_eq!(frontier.snapshot(), vec![(s("uri:A"), s("first"))]);
}

/// The frontier-refresh statement lists every visited identifier, quoted and
/// comma-separated.
#[test]
fn remaining_artists_statement_text() {
    let visited = vec![s("uri:A"), s("uri:B")];
    assert_eq!(
        remaining_artists_statement(&visited),
        "MATCH (artist:Artist) WHERE NOT artist.uri IN ['uri:A', 'uri:B'] RETURN artist"
    );
    let none: Vec<String> = Vec::new();
    assert_eq!(
        remaining_artists_statement(&none),
        "MATCH (artist:Artist) WHERE NOT artist.uri IN [''] RETURN artist"
    );
}

fn twelve_queries() -> Vec<neo4rs::Query> {
    let artist = Artist {
        uri: s("uri:A"),
        name: s("ArtistA"),
        genres: vec![s("g1"), s("g2"), s("g3")],
    };
    let albums = vec![Album {
        uri: s("uri:AL"),
        name: s("AlbumOne"),
        genres: vec![s("k1"), s("k2")],
        images: vec![s("http://img/1"), s("http://img/2")],
        tracks: vec![
            Track {
                uri: Some(s("uri:T1")),
                name: s("One"),
                artists: vec![
                    TrackArtist { uri: s("uri:A"), name: s("ArtistA") },
                    TrackArtist { uri: s("uri:B"), name: s("ArtistB") },
                ],
            },
            Track {
                uri: Some(s("uri:T2")),
                name: s("Two"),
                artists: vec![TrackArtist { uri: s("uri:C"), name: s("ArtistC") }],
            },
        ],
    }];
    let batch = construct_artist_queries(&artist, &albums);
    assert!(batch.skipped_tracks.is_empty());
    batch.queries
}

/// Partial-failure isolation: when operation 5 of 12 fails, operations 6
/// through 12 are still attempted, and exactly the one failure is reported.
#[test]
fn failure_midway_does_not_stop_the_session() {
    let queries = twelve_queries();
    assert_eq!(queries.len(), 12);
    let mut session = ApplySession::new(queries);
    let mut attempted: usize = 0;
    while !session.is_done() {
        let _query = session.next_query();
        attempted += 1;
        let ok = attempted != 5;
        session.record(ok);
    }
    assert_eq!(attempted, 12);
    assert_eq!(session.failures(), 1);
}

/// A session over no operations is complete at once.
#[test]
fn empty_session_is_done() {
    let session = ApplySession::new(Vec::new());
    assert!(session.is_done());
    assert_eq!(session.failures(), 0);
}

/// The configuration is carried exactly as handed in.
#[test]
fn env_vars_carry_the_given_values() {
    let vars = EnvVars::new(
        s("id"),
        s("secret"),
        s("http://localhost/cb"),
        s("neo4j://localhost"),
        s("neo4j"),
        s("password"),
        s("instance"),
        s("name"),
    );
    assert_eq!(vars.client_id, "id");
    assert_eq!(vars.client_secret, "secret");
    assert_eq!(vars.redirect_uri, "http://localhost/cb");
    assert_eq!(vars.neo4j_uri, "neo4j://localhost");
    assert_eq!(vars.neo4j_username, "neo4j");
    assert_eq!(vars.neo4j_password, "password");
    assert_eq!(vars.aura_instance_id, "instance");
    assert_eq!(vars.aura_instance_name, "name");
}
