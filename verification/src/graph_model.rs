//! The model of the graph store's contents that the upsert semantics is
//! stated over: a set of facts, one per node or edge that the merge clauses
//! of the compiled operations can create. Merging a fact that is already
//! present is a no-op, which makes applying a compiled sequence idempotent.

use vstd::prelude::*;
use crate::compiler::OpView;

verus! {

/// One node or edge of the collaboration graph, keyed by the natural
/// identifiers the merge clauses use.
pub ghost enum GraphFact {
    /// An artist node, merged on its identifier and display name.
    ArtistNode { uri: Seq<char>, name: Seq<char> },
    /// An album node, merged on its identifier and display name.
    AlbumNode { uri: Seq<char>, name: Seq<char> },
    /// A track node, merged on its identifier and display name.
    TrackNode { uri: Seq<char>, name: Seq<char> },
    /// A genre node, identified by name only.
    GenreNode { name: Seq<char> },
    /// An image node, identified by URL only.
    ImageNode { url: Seq<char> },
    /// The artist-genre edge.
    ArtistHasGenre { artist_uri: Seq<char>, genre: Seq<char> },
    /// The artist-album "released" edge.
    Released { artist_uri: Seq<char>, album_uri: Seq<char> },
    /// The album-genre edge.
    AlbumHasGenre { album_uri: Seq<char>, genre: Seq<char> },
    /// The album-image artwork edge.
    HasAlbumArt { album_uri: Seq<char>, url: Seq<char> },
    /// The artist-track "wrote" edge.
    Wrote { artist_uri: Seq<char>, track_uri: Seq<char> },
    /// The album-track "contains" edge.
    HasTrack { album_uri: Seq<char>, track_uri: Seq<char> },
}

/// The facts one operation merges: its entity nodes and the edges between
/// them, so the operation is self-sufficient.
pub open spec fn op_facts(op: OpView) -> Set<GraphFact> {
    match op {
        OpView::MergeArtist { uri, name } => set![GraphFact::ArtistNode { uri, name }],
        OpView::MergeArtistGenre { artist_uri, artist_name, genre } => set![
            GraphFact::ArtistNode { uri: artist_uri, name: artist_name },
            GraphFact::GenreNode { name: genre },
            GraphFact::ArtistHasGenre { artist_uri, genre },
        ],
        OpView::MergeReleased { artist_uri, artist_name, album_uri, album_name } => set![
            GraphFact::ArtistNode { uri: artist_uri, name: artist_name },
            GraphFact::AlbumNode { uri: album_uri, name: album_name },
            GraphFact::Released { artist_uri, album_uri },
        ],
        OpView::MergeAlbumGenre { album_uri, album_name, genre } => set![
            GraphFact::AlbumNode { uri: album_uri, name: album_name },
            GraphFact::GenreNode { name: genre },
            GraphFact::AlbumHasGenre { album_uri, genre },
        ],
        OpView::MergeAlbumImage { album_uri, album_name, url } => set![
            GraphFact::AlbumNode { uri: album_uri, name: album_name },
            GraphFact::ImageNode { url },
            GraphFact::HasAlbumArt { album_uri, url },
        ],
        OpView::MergeTrack {
            artist_uri,
            artist_name,
            album_uri,
            album_name,
            track_uri,
            track_name,
        } => set![
            GraphFact::ArtistNode { uri: artist_uri, name: artist_name },
            GraphFact::AlbumNode { uri: album_uri, name: album_name },
            GraphFact::TrackNode { uri: track_uri, name: track_name },
            GraphFact::Wrote { artist_uri, track_uri },
            GraphFact::HasTrack { album_uri, track_uri },
        ],
    }
}

/// Applying one upsert: every fact the operation merges enters the state;
/// facts already present are left untouched.
pub open spec fn apply_op(state: Set<GraphFact>, op: OpView) -> Set<GraphFact> {
    state.union(op_facts(op))
}

/// Applying a compiled sequence in emission order.
pub open spec fn apply_ops(state: Set<GraphFact>, ops: Seq<OpView>) -> Set<GraphFact>
    decreases ops.len(),
{
    if ops.len() == 0 {
        state
    } else {
        apply_ops(apply_op(state, ops.first()), ops.drop_first())
    }
}

/// The facts of a whole sequence of operations.
pub open spec fn ops_facts(ops: Seq<OpView>) -> Set<GraphFact>
    decreases ops.len(),
{
    if ops.len() == 0 {
        Set::empty()
    } else {
        op_facts(ops.first()).union(ops_facts(ops.drop_first()))
    }
}

/// Applying a sequence adds exactly its facts.
proof fn lemma_apply_ops_union(state: Set<GraphFact>, ops: Seq<OpView>)
    ensures
        apply_ops(state, ops) == state.union(ops_facts(ops)),
    decreases ops.len(),
{
    if ops.len() == 0 {
        assert(state.union(Set::empty()) =~= state);
    } else {
        lemma_apply_ops_union(apply_op(state, ops.first()), ops.drop_first());
        assert(state.union(op_facts(ops.first())).union(ops_facts(ops.drop_first()))
            =~= state.union(op_facts(ops.first()).union(ops_facts(ops.drop_first()))));
    }
}

/// Idempotence: applying the same compiled sequence twice leaves the graph
/// state applying it once produces. Every operation merges on natural keys,
/// so a second application finds each of its facts already present.
pub proof fn lemma_apply_idempotent(state: Set<GraphFact>, ops: Seq<OpView>)
    ensures
        apply_ops(apply_ops(state, ops), ops) == apply_ops(state, ops),
{
    lemma_apply_ops_union(state, ops);
    lemma_apply_ops_union(state.union(ops_facts(ops)), ops);
    assert(state.union(ops_facts(ops)).union(ops_facts(ops)) =~= state.union(ops_facts(ops)));
}

/// Idempotence of the compiler's output: applying the upserts compiled for
/// one discography twice yields the state of applying them once.
pub proof fn lemma_compile_idempotent(
    state: Set<GraphFact>,
    artist: crate::catalog::ArtistView,
    albums: Seq<crate::catalog::AlbumView>,
)
    ensures
        apply_ops(
            apply_ops(state, crate::compiler::spec_compile(artist, albums)),
            crate::compiler::spec_compile(artist, albums),
        ) == apply_ops(state, crate::compiler::spec_compile(artist, albums)),
{
    lemma_apply_idempotent(state, crate::compiler::spec_compile(artist, albums));
}

} // verus!
