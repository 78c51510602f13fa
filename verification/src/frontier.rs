//! The frontier: the round-scoped mapping from artist identifier to display
//! name of the artists known but not yet visited. The expansion engine
//! snapshots it at round start, and after all visits adds every artist the
//! graph store reported that is not already present, then removes everything
//! visited this round — so a visited artist never re-enters the frontier in
//! the same update.

use vstd::prelude::*;
use crate::escape::spec_escape;
use crate::escape::escape;

verus! {

/// The models of a sequence of identifier/name pairs.
pub open spec fn pairs_view(s: Seq<(String, String)>) -> Seq<(Seq<char>, Seq<char>)> {
    s.map_values(|p: (String, String)| (p.0@, p.1@))
}

/// Whether some entry of `entries` carries the identifier `u`.
pub open spec fn has_uri(entries: Seq<(Seq<char>, Seq<char>)>, u: Seq<char>) -> bool {
    exists|i: int| 0 <= i < entries.len() && #[trigger] entries[i].0 == u
}

/// Well-formedness: no identifier occurs twice.
pub open spec fn uris_unique(entries: Seq<(Seq<char>, Seq<char>)>) -> bool {
    forall|i: int, j: int|
        0 <= i < j < entries.len() ==> #[trigger] entries[i].0 != #[trigger] entries[j].0
}

/// Adding one candidate entry: appended when its identifier is absent, a
/// no-op when it is already present (the existing name is kept).
pub open spec fn spec_insert(
    entries: Seq<(Seq<char>, Seq<char>)>,
    p: (Seq<char>, Seq<char>),
) -> Seq<(Seq<char>, Seq<char>)> {
    if has_uri(entries, p.0) {
        entries
    } else {
        entries.push(p)
    }
}

/// Adding a sequence of candidate entries, in order.
pub open spec fn spec_insert_all(
    entries: Seq<(Seq<char>, Seq<char>)>,
    discovered: Seq<(Seq<char>, Seq<char>)>,
) -> Seq<(Seq<char>, Seq<char>)>
    decreases discovered.len(),
{
    if discovered.len() == 0 {
        entries
    } else {
        spec_insert_all(spec_insert(entries, discovered.first()), discovered.drop_first())
    }
}

/// Keeping only the entries whose identifier was not visited, in order.
pub open spec fn spec_retain(
    entries: Seq<(Seq<char>, Seq<char>)>,
    visited: Seq<Seq<char>>,
) -> Seq<(Seq<char>, Seq<char>)>
    decreases entries.len(),
{
    if entries.len() == 0 {
        Seq::empty()
    } else {
        let rest = spec_retain(entries.drop_last(), visited);
        if visited.contains(entries.last().0) {
            rest
        } else {
            rest.push(entries.last())
        }
    }
}

/// The frontier update at the end of a round: every discovered artist enters
/// unless already present, then every visited identifier leaves.
pub open spec fn spec_round_update(
    entries: Seq<(Seq<char>, Seq<char>)>,
    discovered: Seq<(Seq<char>, Seq<char>)>,
    visited: Seq<Seq<char>>,
) -> Seq<(Seq<char>, Seq<char>)> {
    spec_retain(spec_insert_all(entries, discovered), visited)
}

/// The set of not-yet-visited artists, as identifier/name entries with no
/// identifier occurring twice.
pub struct Frontier {
    entries: Vec<(String, String)>,
}

impl Frontier {
    /// The entries, in insertion order.
    pub closed spec fn view_entries(self) -> Seq<(Seq<char>, Seq<char>)> {
        pairs_view(self.entries@)
    }

    /// No identifier occurs twice.
    pub closed spec fn wf(self) -> bool {
        uris_unique(self.view_entries())
    }

    /// An empty frontier; the caller seeds it entry by entry.
    pub fn new() -> (r: Frontier)
        ensures
            r.view_entries() == Seq::<(Seq<char>, Seq<char>)>::empty(),
            r.wf(),
    {
        let r = Frontier { entries: Vec::new() };
        proof {
            assert(r.view_entries() =~= Seq::<(Seq<char>, Seq<char>)>::empty());
        }
        r
    }

    /// How many artists await a visit.
    pub fn len(&self) -> (n: usize)
        ensures
            n == self.view_entries().len(),
    {
        self.entries.len()
    }

    /// Whether the identifier is present.
    pub fn contains(&self, uri: &String) -> (r: bool)
        ensures
            r == has_uri(self.view_entries(), uri@),
    {
        let mut i: usize = 0;
        while i < self.entries.len()
            invariant
                i <= self.entries.len(),
                forall|j: int| 0 <= j < i ==> #[trigger] self.view_entries()[j].0 != uri@,
            decreases self.entries.len() - i,
        {
            if self.entries[i].0 == *uri {
                proof {
                    assert(self.view_entries()[i as int].0 == uri@);
                }
                return true;
            }
            i = i + 1;
        }
        false
    }

    /// Adds one entry when its identifier is absent; keeps the frontier
    /// unchanged when it is already present.
    pub fn insert_if_absent(&mut self, uri: String, name: String)
        requires
            old(self).wf(),
        ensures
            final(self).view_entries() == spec_insert(old(self).view_entries(), (uri@, name@)),
            final(self).wf(),
    {
        let present = self.contains(&uri);
        if !present {
            let ghost prev = self.view_entries();
            self.entries.push((uri, name));
            proof {
                assert(self.view_entries() =~= prev.push((uri@, name@)));
            }
        }
    }

    /// Clones the entries for the round to visit: the snapshot captured at
    /// round start.
    pub fn snapshot(&self) -> (r: Vec<(String, String)>)
        ensures
            pairs_view(r@) == self.view_entries(),
    {
        let mut r: Vec<(String, String)> = Vec::new();
        let mut i: usize = 0;
        while i < self.entries.len()
            invariant
                i <= self.entries.len(),
                pairs_view(r@) == self.view_entries().take(i as int),
            decreases self.entries.len() - i,
        {
            let ghost prev = r@;
            let p = &self.entries[i];
            r.push((p.0.clone(), p.1.clone()));
            proof {
                assert(pairs_view(r@) =~= pairs_view(prev).push(self.view_entries()[i as int]));
                assert(self.view_entries().take(i + 1) =~= self.view_entries().take(
                    i as int,
                ).push(self.view_entries()[i as int]));
            }
            i = i + 1;
        }
        proof {
            assert(self.view_entries().take(self.entries@.len() as int) =~= self.view_entries());
        }
        r
    }

    /// The frontier update at the end of a round, over the snapshot captured
    /// at round start: adds every discovered (identifier, name) pair whose
    /// identifier is not already present, then removes every visited
    /// identifier.
    pub fn update_after_round(&mut self, visited: &Vec<String>, discovered: &Vec<(String, String)>)
        requires
            old(self).wf(),
        ensures
            final(self).view_entries() == spec_round_update(
                old(self).view_entries(),
                pairs_view(discovered@),
                crate::compiler::strs_view(visited@),
            ),
            final(self).wf(),
    {
        let ghost d = pairs_view(discovered@);
        let ghost orig = self.view_entries();
        let mut i: usize = 0;
        while i < discovered.len()
            invariant
                i <= discovered.len(),
                self.wf(),
                self.view_entries() == spec_insert_all(orig, d.take(i as int)),
                d == pairs_view(discovered@),
            decreases discovered.len() - i,
        {
            let p = &discovered[i];
            self.insert_if_absent(p.0.clone(), p.1.clone());
            proof {
                assert(d[i as int] == (p.0@, p.1@));
                lemma_insert_all_snoc(orig, d.take(i as int), d[i as int]);
                assert(d.take(i + 1) =~= d.take(i as int).push(d[i as int]));
            }
            i = i + 1;
        }
        proof {
            assert(d.take(discovered@.len() as int) =~= d);
        }
        let ghost inserted = self.view_entries();
        let mut kept: Vec<(String, String)> = Vec::new();
        let mut j: usize = 0;
        while j < self.entries.len()
            invariant
                j <= self.entries.len(),
                self.view_entries() == inserted,
                uris_unique(inserted),
                pairs_view(kept@) == spec_retain(
                    inserted.take(j as int),
                    crate::compiler::strs_view(visited@),
                ),
            decreases self.entries.len() - j,
        {
            let p = &self.entries[j];
            let hit = contains_string(visited, &p.0);
            proof {
                assert(inserted[j as int] == (p.0@, p.1@));
                assert(inserted.take(j + 1).drop_last() =~= inserted.take(j as int));
                assert(inserted.take(j + 1).last() == inserted[j as int]);
            }
            if !hit {
                let ghost prev = kept@;
                kept.push((p.0.clone(), p.1.clone()));
                proof {
                    assert(pairs_view(kept@) =~= pairs_view(prev).push(inserted[j as int]));
                }
            }
            j = j + 1;
        }
        proof {
            assert(inserted.take(self.entries@.len() as int) =~= inserted);
        }
        self.entries = kept;
        proof {
            lemma_retain_wf(inserted, crate::compiler::strs_view(visited@));
        }
    }
}

/// Whether some element of `haystack` equals `needle`.
fn contains_string(haystack: &Vec<String>, needle: &String) -> (r: bool)
    ensures
        r == crate::compiler::strs_view(haystack@).contains(needle@),
{
    let mut i: usize = 0;
    while i < haystack.len()
        invariant
            i <= haystack.len(),
            forall|j: int|
                0 <= j < i ==> #[trigger] crate::compiler::strs_view(haystack@)[j] != needle@,
        decreases haystack.len() - i,
    {
        if haystack[i] == *needle {
            proof {
                assert(crate::compiler::strs_view(haystack@)[i as int] == needle@);
            }
            return true;
        }
        i = i + 1;
    }
    proof {
        assert forall|j: int|
            0 <= j < crate::compiler::strs_view(haystack@).len() implies crate::compiler::strs_view(
            haystack@,
        )[j] != needle@ by {}
    }
    false
}

/// Adding the candidates one past the end extends the left fold by one step.
proof fn lemma_insert_all_snoc(
    entries: Seq<(Seq<char>, Seq<char>)>,
    discovered: Seq<(Seq<char>, Seq<char>)>,
    p: (Seq<char>, Seq<char>),
)
    ensures
        spec_insert_all(entries, discovered.push(p)) == spec_insert(
            spec_insert_all(entries, discovered),
            p,
        ),
    decreases discovered.len(),
{
    if discovered.len() == 0 {
        assert(discovered.push(p).drop_first() =~= Seq::<(Seq<char>, Seq<char>)>::empty());
        assert(spec_insert_all(spec_insert(entries, p), Seq::<(Seq<char>, Seq<char>)>::empty())
            == spec_insert(entries, p));
    } else {
        assert(discovered.push(p).first() == discovered.first());
        assert(discovered.push(p).drop_first() =~= discovered.drop_first().push(p));
        lemma_insert_all_snoc(spec_insert(entries, discovered.first()), discovered.drop_first(), p);
    }
}

/// Retaining keeps identifiers unique.
proof fn lemma_retain_wf(entries: Seq<(Seq<char>, Seq<char>)>, visited: Seq<Seq<char>>)
    requires
        uris_unique(entries),
    ensures
        uris_unique(spec_retain(entries, visited)),
        forall|u: Seq<char>|
            #[trigger] has_uri(spec_retain(entries, visited), u) <==> has_uri(entries, u)
                && !visited.contains(u),
    decreases entries.len(),
{
    if entries.len() == 0 {
        assert forall|u: Seq<char>| !#[trigger] has_uri(spec_retain(entries, visited), u) by {}
    } else {
        assert(entries.drop_last() =~= entries.take(entries.len() - 1));
        lemma_retain_wf(entries.drop_last(), visited);
        let rest = spec_retain(entries.drop_last(), visited);
        let last = entries.last();
        assert forall|u: Seq<char>|
            #[trigger] has_uri(spec_retain(entries, visited), u) implies has_uri(entries, u)
            && !visited.contains(u) by {
            let r = spec_retain(entries, visited);
            let i = choose|i: int| 0 <= i < r.len() && #[trigger] r[i].0 == u;
            if visited.contains(last.0) {
                assert(has_uri(rest, u));
                assert(has_uri(entries.drop_last(), u));
                let k = choose|k: int|
                    0 <= k < entries.drop_last().len() && #[trigger] entries.drop_last()[k].0 == u;
                assert(entries[k].0 == u);
            } else {
                if i < rest.len() {
                    assert(has_uri(rest, u));
                    let k = choose|k: int|
                        0 <= k < entries.drop_last().len() && #[trigger] entries.drop_last()[k].0
                            == u;
                    assert(entries[k].0 == u);
                } else {
                    assert(r[i] == last);
                    assert(entries[entries.len() - 1].0 == u);
                }
            }
        }
        assert forall|u: Seq<char>|
            has_uri(entries, u) && !visited.contains(u) implies #[trigger] has_uri(
            spec_retain(entries, visited),
            u,
        ) by {
            let i = choose|i: int| 0 <= i < entries.len() && #[trigger] entries[i].0 == u;
            let r = spec_retain(entries, visited);
            if i < entries.len() - 1 {
                assert(entries.drop_last()[i].0 == u);
                assert(has_uri(entries.drop_last(), u));
                assert(has_uri(rest, u));
                let k = choose|k: int| 0 <= k < rest.len() && #[trigger] rest[k].0 == u;
                assert(r[k].0 == u);
            } else {
                assert(entries.last().0 == u);
                assert(!visited.contains(last.0));
                assert(r[r.len() - 1].0 == u);
            }
        }
        assert forall|i: int, j: int|
            0 <= i < j < spec_retain(entries, visited).len() implies #[trigger] spec_retain(
            entries,
            visited,
        )[i].0 != #[trigger] spec_retain(entries, visited)[j].0 by {
            let r = spec_retain(entries, visited);
            if visited.contains(last.0) {
                assert(r == rest);
            } else {
                if j < rest.len() {
                } else {
                    assert(r[j] == last);
                    assert(has_uri(rest, r[i].0) ==> has_uri(entries.drop_last(), r[i].0));
                    if r[i].0 == last.0 {
                        assert(rest[i].0 == r[i].0);
                        assert(has_uri(rest, r[i].0));
                        assert(has_uri(entries.drop_last(), last.0));
                        let k = choose|k: int|
                            0 <= k < entries.drop_last().len() && #[trigger] entries.drop_last()[k].0
                                == last.0;
                        assert(entries[k].0 == entries[entries.len() - 1].0);
                    }
                }
            }
        }
    }
}

/// A visited identifier is never present right after the round update.
///
/// The set of identifiers visited in a round is disjoint from the frontier
/// that enters the next round: the update removes the visited identifiers
/// last, after every discovery has been added.
pub proof fn lemma_frontier_monotonic_shrinkage(
    entries: Seq<(Seq<char>, Seq<char>)>,
    discovered: Seq<(Seq<char>, Seq<char>)>,
    visited: Seq<Seq<char>>,
    u: Seq<char>,
)
    requires
        uris_unique(entries),
        visited.contains(u),
    ensures
        !has_uri(spec_round_update(entries, discovered, visited), u),
{
    lemma_insert_all_wf(entries, discovered);
    lemma_retain_wf(spec_insert_all(entries, discovered), visited);
}

/// Adding candidates keeps identifiers unique.
proof fn lemma_insert_all_wf(
    entries: Seq<(Seq<char>, Seq<char>)>,
    discovered: Seq<(Seq<char>, Seq<char>)>,
)
    requires
        uris_unique(entries),
    ensures
        uris_unique(spec_insert_all(entries, discovered)),
    decreases discovered.len(),
{
    if discovered.len() == 0 {
    } else {
        let p = discovered.first();
        let next = spec_insert(entries, p);
        assert forall|i: int, j: int| 0 <= i < j < next.len() implies #[trigger] next[i].0
            != #[trigger] next[j].0 by {
            if !has_uri(entries, p.0) {
                if j == next.len() - 1 {
                    assert(next[i].0 == entries[i].0);
                    if next[i].0 == p.0 {
                        assert(has_uri(entries, p.0));
                    }
                }
            }
        }
        lemma_insert_all_wf(next, discovered.drop_first());
    }
}

/// The read statement that refreshes the frontier: asks the graph store for
/// every artist node whose identifier is not among those visited this round.
pub open spec fn spec_remaining_statement(visited: Seq<Seq<char>>) -> Seq<char> {
    "MATCH (artist:Artist) WHERE NOT artist.uri IN ["@ + quoted_list(visited)
        + "] RETURN artist"@
}

/// The visited identifiers as a single-quoted, comma-separated list, each
/// escaped for the quoting delimiter.
pub open spec fn quoted_list(uris: Seq<Seq<char>>) -> Seq<char> {
    seq!['\''] + joined(uris) + seq!['\'']
}

/// The escaped identifiers joined by a quote, comma, space, quote separator.
pub open spec fn joined(uris: Seq<Seq<char>>) -> Seq<char>
    decreases uris.len(),
{
    if uris.len() == 0 {
        Seq::empty()
    } else if uris.len() == 1 {
        spec_escape(uris.first())
    } else {
        joined(uris.drop_last()) + "', '"@ + spec_escape(uris.last())
    }
}

/// Builds the frontier-refresh read statement for the identifiers visited
/// this round.
pub fn remaining_artists_statement(visited: &Vec<String>) -> (r: String)
    ensures
        r@ == spec_remaining_statement(crate::compiler::strs_view(visited@)),
{
    let ghost vs = crate::compiler::strs_view(visited@);
    let mut list = String::new();
    let mut i: usize = 0;
    while i < visited.len()
        invariant
            i <= visited.len(),
            vs == crate::compiler::strs_view(visited@),
            list@ == joined(vs.take(i as int)),
        decreases visited.len() - i,
    {
        if i > 0 {
            list.append("', '");
        }
        let e = escape(visited[i].as_str());
        list.append(e.as_str());
        proof {
            assert(vs[i as int] == visited@[i as int]@);
            assert(vs.take(i + 1).drop_last() =~= vs.take(i as int));
            assert(vs.take(i + 1).last() == vs[i as int]);
            assert(list@ =~= joined(vs.take(i + 1)));
        }
        i = i + 1;
    }
    proof {
        assert(vs.take(visited@.len() as int) =~= vs);
    }
    let mut out = String::new();
    out.append("MATCH (artist:Artist) WHERE NOT artist.uri IN [");
    out.append("'");
    out.append(list.as_str());
    out.append("'");
    out.append("] RETURN artist");
    proof {
        assert(("'")@ =~= seq!['\'']) by {
            reveal_strlit("'");
        }
        assert(out@ =~= spec_remaining_statement(vs));
    }
    out
}

} // verus!
