//! The graph driver's query values. The driver's `Query` type is opaque to
//! the verifier; [`query_text`] names the statement text a `Query` carries,
//! and [`construct_artist_queries`] builds one `Query` per compiled upsert
//! operation, in emission order.

use vstd::prelude::*;
use crate::catalog::{Album, Artist};
use crate::compiler::{albums_view, compile, spec_compile, spec_skipped, strs_view};
use crate::render::{render_all, render_views};

verus! {

#[verifier::external_type_specification]
#[verifier::external_body]
pub struct ExQuery(neo4rs::Query);

/// The statement text that a driver query value carries.
pub uninterp spec fn query_text(q: neo4rs::Query) -> Seq<char>;

/// Relies on `neo4rs::query`: builds a query value that carries exactly the
/// given statement text (and no bound parameters).
pub assume_specification[ neo4rs::query ](q: &str) -> (r: neo4rs::Query)
    ensures
        query_text(r) == q@,
;

/// The statement texts of the compiler's output for one discography.
pub open spec fn spec_statements(
    artist: crate::catalog::ArtistView,
    albums: Seq<crate::catalog::AlbumView>,
) -> Seq<Seq<char>> {
    render_views(spec_compile(artist, albums))
}

/// What one artist's visit hands to the graph store: one driver query per
/// compiled operation, and the names of the tracks skipped as malformed.
pub struct QueryBatch {
    /// One driver query per compiled upsert operation, in emission order.
    pub queries: Vec<neo4rs::Query>,
    /// Display names of tracks skipped as malformed, in encounter order.
    pub skipped_tracks: Vec<String>,
}

/// Compiles one artist's discography and renders each operation into a driver
/// query carrying that operation's statement text.
pub fn construct_artist_queries(artist: &Artist, albums: &Vec<Album>) -> (out: QueryBatch)
    ensures
        out.queries@.len() == spec_compile(artist@, albums_view(albums@)).len(),
        forall|i: int|
            0 <= i < out.queries@.len() ==> query_text(#[trigger] out.queries@[i])
                == spec_statements(artist@, albums_view(albums@))[i],
        strs_view(out.skipped_tracks@) == spec_skipped(albums_view(albums@)),
{
    let compiled = compile(artist, albums);
    let stmts = render_all(&compiled.ops);
    let mut queries: Vec<neo4rs::Query> = Vec::new();
    let mut i: usize = 0;
    while i < stmts.len()
        invariant
            i <= stmts.len(),
            queries@.len() == i,
            strs_view(stmts@) == spec_statements(artist@, albums_view(albums@)),
            forall|j: int|
                0 <= j < i ==> query_text(#[trigger] queries@[j]) == strs_view(stmts@)[j],
        decreases stmts.len() - i,
    {
        let q = neo4rs::query(stmts[i].as_str());
        queries.push(q);
        i = i + 1;
    }
    QueryBatch { queries, skipped_tracks: compiled.skipped_tracks }
}

} // verus!
