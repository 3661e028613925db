//! Deciding, record by record, what is resolved and what is kept.
//!
//! The caller resolves the records that need it, one after the other, and
//! hands the outcomes here: a coordinate where resolution succeeded, nothing
//! where it failed or was never attempted.
use vstd::prelude::*;
use crate::assemble::{assemble, assemble_spec, text_option_view, OutputFeature, PlaceRecord, PlaceRecordView};
use crate::decimal::{check_zero_decimal, is_zero_decimal};
use crate::extract::Coordinate;

verus! {

/// A feature already in a collection, as far as reconciling reads it: the
/// numbers of its position, each as decimal text, when its geometry is a
/// point, and its `google_maps_url` property when that is a string.
pub struct StoredPlace {
    pub point: Option<Vec<String>>,
    pub maps_url: Option<String>,
}

pub struct StoredPlaceView {
    pub point: Option<Seq<Seq<char>>>,
    pub maps_url: Option<Seq<char>>,
}

impl View for StoredPlace {
    type V = StoredPlaceView;

    open spec fn view(&self) -> StoredPlaceView {
        StoredPlaceView {
            point: match self.point {
                Some(p) => Some(p.deep_view()),
                None => None,
            },
            maps_url: match self.maps_url {
                Some(u) => Some(u@),
                None => None,
            },
        }
    }
}

/// A point at (0, 0) marks a place whose coordinates are missing.
pub open spec fn at_sentinel(point: Option<Seq<Seq<char>>>) -> bool {
    match point {
        Some(p) => p.len() >= 2 && is_zero_decimal(p[0]) && is_zero_decimal(p[1]),
        None => false,
    }
}

/// The URL to resolve for a stored place: only one at the sentinel that
/// carries a map URL has one.
pub open spec fn target_spec(place: StoredPlaceView) -> Option<Seq<char>> {
    if at_sentinel(place.point) {
        place.maps_url
    } else {
        None
    }
}

pub open spec fn coordinate_option_view(c: Option<Coordinate>) -> Option<(Seq<char>, Seq<char>)> {
    match c {
        Some(c) => Some(c@),
        None => None,
    }
}

/// The URL whose coordinates `place` needs, if any.
pub fn resolution_target(place: &StoredPlace) -> (r: Option<String>)
    ensures
        text_option_view(r) == target_spec(place@),
{
    let sentinel = match &place.point {
        Some(p) => p.len() >= 2 && check_zero_decimal(p[0].as_str()) && check_zero_decimal(p[1].as_str()),
        None => false,
    };
    if sentinel {
        match &place.maps_url {
            Some(u) => Some(u.clone()),
            None => None,
        }
    } else {
        None
    }
}

/// A feature kept in an updated collection: its index in the input, and its
/// new coordinate where it was resolved.
pub struct Placement {
    pub index: usize,
    pub coordinate: Option<Coordinate>,
}

impl View for Placement {
    type V = (nat, Option<(Seq<char>, Seq<char>)>);

    open spec fn view(&self) -> (nat, Option<(Seq<char>, Seq<char>)>) {
        (self.index as nat, coordinate_option_view(self.coordinate))
    }
}

/// The coordinate that replaces record `i`'s: its resolved one, where it
/// needed resolution.
pub open spec fn applied(
    places: Seq<StoredPlaceView>,
    resolved: Seq<Option<(Seq<char>, Seq<char>)>>,
    i: int,
) -> Option<(Seq<char>, Seq<char>)> {
    if target_spec(places[i]) is Some {
        resolved[i]
    } else {
        None
    }
}

/// The kept features of an updated collection, over its first `n` records.
pub open spec fn update_output(
    places: Seq<StoredPlaceView>,
    resolved: Seq<Option<(Seq<char>, Seq<char>)>>,
    only_changed: bool,
    n: nat,
) -> Seq<(nat, Option<(Seq<char>, Seq<char>)>)>
    decreases n,
{
    if n == 0 {
        seq![]
    } else {
        let before = update_output(places, resolved, only_changed, (n - 1) as nat);
        let i = n - 1;
        match applied(places, resolved, i) {
            Some(c) => before.push((i as nat, Some(c))),
            None => if only_changed {
                before
            } else {
                before.push((i as nat, None))
            },
        }
    }
}

/// Reconciles a collection: each record that needed resolution and got it
/// takes its new coordinate; every other record is kept as it is, unless
/// `only_changed` asks for the updated ones alone. Input order is kept.
pub fn reconcile_updates(
    places: &Vec<StoredPlace>,
    resolved: &Vec<Option<Coordinate>>,
    only_changed: bool,
) -> (r: Vec<Placement>)
    requires
        places.len() == resolved.len(),
    ensures
        r@.map_values(|p: Placement| p@) == update_output(
            places@.map_values(|p: StoredPlace| p@),
            resolved@.map_values(|c: Option<Coordinate>| coordinate_option_view(c)),
            only_changed,
            places.len() as nat,
        ),
{
    let ghost pv = places@.map_values(|p: StoredPlace| p@);
    let ghost rv = resolved@.map_values(|c: Option<Coordinate>| coordinate_option_view(c));
    let mut out: Vec<Placement> = Vec::new();
    let mut i: usize = 0;
    while i < places.len()
        invariant
            places.len() == resolved.len(),
            i <= places.len(),
            pv == places@.map_values(|p: StoredPlace| p@),
            rv == resolved@.map_values(|c: Option<Coordinate>| coordinate_option_view(c)),
            out@.map_values(|p: Placement| p@) == update_output(pv, rv, only_changed, i as nat),
        decreases places.len() - i,
    {
        let ghost before = out@;
        let target = resolution_target(&places[i]);
        let coordinate = match (&target, &resolved[i]) {
            (Some(_), Some(c)) => Some(c.duplicate()),
            _ => None,
        };
        assert(coordinate_option_view(coordinate) == applied(pv, rv, i as int));
        match coordinate {
            Some(c) => out.push(Placement { index: i, coordinate: Some(c) }),
            None => if !only_changed {
                out.push(Placement { index: i, coordinate: None });
            },
        }
        assert(out@.map_values(|p: Placement| p@) =~= update_output(pv, rv, only_changed, (i + 1) as nat));
        i = i + 1;
    }
    out
}

/// Whether record `i` was at the sentinel with a map URL and was resolved.
pub open spec fn changed(
    places: Seq<StoredPlaceView>,
    resolved: Seq<Option<(Seq<char>, Seq<char>)>>,
    i: int,
) -> bool {
    target_spec(places[i]) is Some && resolved[i] is Some
}

/// The indices, in order, of the first `n` records that `changed` holds of.
pub open spec fn changed_indices(
    places: Seq<StoredPlaceView>,
    resolved: Seq<Option<(Seq<char>, Seq<char>)>>,
    n: nat,
) -> Seq<nat>
    decreases n,
{
    if n == 0 {
        seq![]
    } else if changed(places, resolved, n - 1) {
        changed_indices(places, resolved, (n - 1) as nat).push((n - 1) as nat)
    } else {
        changed_indices(places, resolved, (n - 1) as nat)
    }
}

/// Keeping every record, the update has one entry per input record, in
/// order, holding the resolved coordinate exactly where one was applied.
pub proof fn law_update_keeps_every_record(
    places: Seq<StoredPlaceView>,
    resolved: Seq<Option<(Seq<char>, Seq<char>)>>,
    n: nat,
)
    requires
        n <= places.len(),
        places.len() == resolved.len(),
    ensures
        update_output(places, resolved, false, n).len() == n,
        forall|k: int|
            0 <= k < n ==> #[trigger] update_output(places, resolved, false, n)[k] == (
                k as nat,
                applied(places, resolved, k),
            ),
    decreases n,
{
    if n > 0 {
        law_update_keeps_every_record(places, resolved, (n - 1) as nat);
    }
}

/// Keeping only changed records, the update holds exactly the records that
/// were at the sentinel with a map URL and were resolved, in order, each
/// with its resolved coordinate.
pub proof fn law_changed_only_keeps_resolved_sentinels(
    places: Seq<StoredPlaceView>,
    resolved: Seq<Option<(Seq<char>, Seq<char>)>>,
    n: nat,
)
    requires
        n <= places.len(),
        places.len() == resolved.len(),
    ensures
        update_output(places, resolved, true, n).map_values(|p: (nat, Option<(Seq<char>, Seq<char>)>)| p.0)
            == changed_indices(places, resolved, n),
        forall|k: int|
            0 <= k < update_output(places, resolved, true, n).len() ==> (#[trigger] update_output(
                places,
                resolved,
                true,
                n,
            )[k]).1 == resolved[update_output(places, resolved, true, n)[k].0 as int]
                && update_output(places, resolved, true, n)[k].1 is Some,
    decreases n,
{
    if n > 0 {
        law_changed_only_keeps_resolved_sentinels(places, resolved, (n - 1) as nat);
        assert(update_output(places, resolved, true, n).map_values(
            |p: (nat, Option<(Seq<char>, Seq<char>)>)| p.0,
        ) =~= changed_indices(places, resolved, n));
    }
}

/// A stored place whose point is present but not at (0, 0) is never resolved,
/// and its coordinate is never replaced, whatever outcome is handed in for it.
pub proof fn law_placed_record_is_left_alone(
    places: Seq<StoredPlaceView>,
    resolved: Seq<Option<(Seq<char>, Seq<char>)>>,
    i: int,
)
    requires
        0 <= i < places.len(),
        places[i].point is Some,
        !at_sentinel(places[i].point),
    ensures
        target_spec(places[i]) is None,
        applied(places, resolved, i) is None,
{
}

pub open spec fn record_option_view(r: Option<PlaceRecord>) -> Option<PlaceRecordView> {
    match r {
        Some(r) => Some(r@),
        None => None,
    }
}

/// The features built from the first `n` rows: one for each well-formed row
/// (`Some`) whose URL was resolved, in row order.
pub open spec fn tabular_output(
    rows: Seq<Option<PlaceRecordView>>,
    resolved: Seq<Option<(Seq<char>, Seq<char>)>>,
    n: nat,
) -> Seq<((Seq<char>, Seq<char>), Seq<(Seq<char>, Seq<char>)>)>
    decreases n,
{
    if n == 0 {
        seq![]
    } else {
        let before = tabular_output(rows, resolved, (n - 1) as nat);
        match (rows[n - 1], resolved[n - 1]) {
            (Some(record), Some(c)) => before.push(assemble_spec(record, c)),
            _ => before,
        }
    }
}

/// Builds features from table rows: `None` stands for a row that could not
/// be read, and a row's outcome is its resolved coordinate, if any. Rows that
/// are malformed or unresolved leave no feature; the others keep their order.
pub fn build_features(rows: &Vec<Option<PlaceRecord>>, resolved: &Vec<Option<Coordinate>>) -> (r: Vec<
    OutputFeature,
>)
    requires
        rows.len() == resolved.len(),
    ensures
        r@.map_values(|f: OutputFeature| f@) == tabular_output(
            rows@.map_values(|r: Option<PlaceRecord>| record_option_view(r)),
            resolved@.map_values(|c: Option<Coordinate>| coordinate_option_view(c)),
            rows.len() as nat,
        ),
{
    let ghost rows_v = rows@.map_values(|r: Option<PlaceRecord>| record_option_view(r));
    let ghost rv = resolved@.map_values(|c: Option<Coordinate>| coordinate_option_view(c));
    let mut out: Vec<OutputFeature> = Vec::new();
    let mut i: usize = 0;
    while i < rows.len()
        invariant
            rows.len() == resolved.len(),
            i <= rows.len(),
            rows_v == rows@.map_values(|r: Option<PlaceRecord>| record_option_view(r)),
            rv == resolved@.map_values(|c: Option<Coordinate>| coordinate_option_view(c)),
            out@.map_values(|f: OutputFeature| f@) == tabular_output(rows_v, rv, i as nat),
        decreases rows.len() - i,
    {
        match (&rows[i], &resolved[i]) {
            (Some(record), Some(c)) => {
                let feature = assemble(record, c.duplicate());
                out.push(feature);
            },
            _ => {},
        }
        assert(out@.map_values(|f: OutputFeature| f@) =~= tabular_output(rows_v, rv, (i + 1) as nat));
        i = i + 1;
    }
    out
}

proof fn lemma_tabular_concat(
    rows: Seq<Option<PlaceRecordView>>,
    resolved: Seq<Option<(Seq<char>, Seq<char>)>>,
    more_rows: Seq<Option<PlaceRecordView>>,
    more_resolved: Seq<Option<(Seq<char>, Seq<char>)>>,
    m: nat,
)
    requires
        rows.len() == resolved.len(),
        more_rows.len() == more_resolved.len(),
        m <= more_rows.len(),
    ensures
        tabular_output(rows + more_rows, resolved + more_resolved, rows.len() + m) == tabular_output(
            rows,
            resolved,
            rows.len(),
        ) + tabular_output(more_rows, more_resolved, m),
    decreases m,
{
    if m == 0 {
        assert(tabular_output(rows + more_rows, resolved + more_resolved, rows.len() as nat)
            == tabular_output(rows, resolved, rows.len() as nat)) by {
            lemma_tabular_prefix(rows, resolved, rows + more_rows, resolved + more_resolved, rows.len() as nat);
        }
        assert(tabular_output(rows, resolved, rows.len()) + tabular_output(more_rows, more_resolved, 0)
            =~= tabular_output(rows, resolved, rows.len()));
    } else {
        lemma_tabular_concat(rows, resolved, more_rows, more_resolved, (m - 1) as nat);
        let n = rows.len() + m;
        assert((rows + more_rows)[n - 1] == more_rows[m - 1]);
        assert((resolved + more_resolved)[n - 1] == more_resolved[m - 1]);
        assert(tabular_output(rows + more_rows, resolved + more_resolved, n) =~= tabular_output(
            rows,
            resolved,
            rows.len(),
        ) + tabular_output(more_rows, more_resolved, m));
    }
}

proof fn lemma_tabular_prefix(
    rows: Seq<Option<PlaceRecordView>>,
    resolved: Seq<Option<(Seq<char>, Seq<char>)>>,
    rows2: Seq<Option<PlaceRecordView>>,
    resolved2: Seq<Option<(Seq<char>, Seq<char>)>>,
    n: nat,
)
    requires
        n <= rows.len(),
        n <= resolved.len(),
        n <= rows2.len(),
        n <= resolved2.len(),
        forall|i: int| 0 <= i < n ==> rows[i] == rows2[i] && resolved[i] == resolved2[i],
    ensures
        tabular_output(rows, resolved, n) == tabular_output(rows2, resolved2, n),
    decreases n,
{
    if n > 0 {
        lemma_tabular_prefix(rows, resolved, rows2, resolved2, (n - 1) as nat);
    }
}

/// A row that could not be read adds nothing to the output and stops
/// nothing: the output is what the rows before it give, followed by what the
/// rows after it give.
pub proof fn law_malformed_row_is_skipped(
    rows: Seq<Option<PlaceRecordView>>,
    resolved: Seq<Option<(Seq<char>, Seq<char>)>>,
    i: int,
)
    requires
        rows.len() == resolved.len(),
        0 <= i < rows.len(),
        rows[i] is None,
    ensures
        tabular_output(rows, resolved, rows.len()) == tabular_output(
            rows.take(i),
            resolved.take(i),
            i as nat,
        ) + tabular_output(rows.skip(i + 1), resolved.skip(i + 1), (rows.len() - i - 1) as nat),
{
    let head = rows.take(i + 1);
    let head_resolved = resolved.take(i + 1);
    let tail = rows.skip(i + 1);
    let tail_resolved = resolved.skip(i + 1);
    assert(rows =~= head + tail);
    assert(resolved =~= head_resolved + tail_resolved);
    lemma_tabular_concat(head, head_resolved, tail, tail_resolved, tail.len());
    lemma_tabular_prefix(head, head_resolved, rows.take(i), resolved.take(i), i as nat);
    assert(tabular_output(head, head_resolved, (i + 1) as nat) == tabular_output(head, head_resolved, i as nat));
}

} // verus!
