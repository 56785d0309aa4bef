//! Which weather reports matter to the traffic of the region.

use vstd::prelude::*;
use crate::model::{AirportWeather, AirportView, TrafficRecord, TrafficView};
use crate::text::{begins_with, starts_with};

verus! {

/// The two letters with which the identifiers of the region's airports begin.
pub const REGION_PREFIX: &'static str = "EF";

/// The characters of [`REGION_PREFIX`].
pub open spec fn region_prefix() -> Seq<char> {
    seq!['E', 'F']
}

/// A flight belongs to the region when it filed a plan that departs from or
/// arrives at an airport of the region.
pub open spec fn spec_in_region(record: TrafficView) -> bool {
    match record.flight_plan {
        Some(plan) => begins_with(plan.departure, region_prefix()) || begins_with(
            plan.arrival,
            region_prefix(),
        ),
        None => false,
    }
}

/// A flight is associated with an airport when an end of its plan begins
/// with the airport's identifier.
pub open spec fn spec_associated(airport: AirportView, record: TrafficView) -> bool {
    match record.flight_plan {
        Some(plan) => begins_with(plan.departure, airport.icao) || begins_with(
            plan.arrival,
            airport.icao,
        ),
        None => false,
    }
}

/// Whether the flight flies to or from the region.
pub fn in_region(record: &TrafficRecord) -> (r: bool)
    ensures
        r == spec_in_region(record.deep_view()),
{
    proof {
        reveal_strlit("EF");
        assert(REGION_PREFIX@ =~= region_prefix());
    }
    match &record.flight_plan {
        Some(plan) => starts_with(plan.departure.as_str(), REGION_PREFIX) || starts_with(
            plan.arrival.as_str(),
            REGION_PREFIX,
        ),
        None => false,
    }
}

/// Whether an end of the flight's plan begins with the airport's identifier.
pub fn associated(airport: &AirportWeather, record: &TrafficRecord) -> (r: bool)
    ensures
        r == spec_associated(airport.deep_view(), record.deep_view()),
{
    match &record.flight_plan {
        Some(plan) => starts_with(plan.departure.as_str(), airport.icao.as_str()) || starts_with(
            plan.arrival.as_str(),
            airport.icao.as_str(),
        ),
        None => false,
    }
}

/// `j` is the place of the first airport that a flight of the region is
/// associated with.
pub open spec fn is_candidate(airports: Seq<AirportView>, record: TrafficView, j: int) -> bool {
    &&& spec_in_region(record)
    &&& 0 <= j < airports.len()
    &&& spec_associated(airports[j], record)
    &&& forall|k: int| 0 <= k < j ==> !spec_associated(#[trigger] airports[k], record)
}

/// The flight belongs to the region and is associated with some airport.
pub open spec fn has_candidate(airports: Seq<AirportView>, record: TrafficView) -> bool {
    spec_in_region(record) && exists|j: int|
        0 <= j < airports.len() && spec_associated(#[trigger] airports[j], record)
}

/// What [`candidate`] answers.
pub open spec fn candidate_is(
    airports: Seq<AirportView>,
    record: TrafficView,
    answer: Option<usize>,
) -> bool {
    match answer {
        Some(j) => is_candidate(airports, record, j as int),
        None => !has_candidate(airports, record),
    }
}

/// The airport against which the position of a flight is to be measured:
/// the first one in feed order that the flight is associated with, for a
/// flight of the region; none for any other flight.
pub fn candidate(airports: &Vec<AirportWeather>, record: &TrafficRecord) -> (r: Option<usize>)
    ensures
        candidate_is(airports.deep_view(), record.deep_view(), r),
{
    if !in_region(record) {
        return None;
    }
    let mut j: usize = 0;
    while j < airports.len()
        invariant
            j <= airports.len(),
            spec_in_region(record.deep_view()),
            forall|k: int|
                0 <= k < j ==> !spec_associated(
                    #[trigger] airports.deep_view()[k],
                    record.deep_view(),
                ),
        decreases airports.len() - j,
    {
        if associated(&airports[j], record) {
            return Some(j);
        }
        j += 1;
    }
    None
}

/// The candidate of every flight, in the order of the flights.
pub fn candidates(
    airports: &Vec<AirportWeather>,
    traffic: &Vec<TrafficRecord>,
) -> (r: Vec<Option<usize>>)
    ensures
        r.len() == traffic.len(),
        forall|i: int|
            0 <= i < traffic.len() ==> candidate_is(
                airports.deep_view(),
                #[trigger] traffic.deep_view()[i],
                r[i],
            ),
{
    let mut out: Vec<Option<usize>> = Vec::new();
    let mut i: usize = 0;
    while i < traffic.len()
        invariant
            i <= traffic.len(),
            out.len() == i,
            forall|k: int|
                0 <= k < i ==> candidate_is(
                    airports.deep_view(),
                    #[trigger] traffic.deep_view()[k],
                    out[k],
                ),
        decreases traffic.len() - i,
    {
        let c = candidate(airports, &traffic[i]);
        out.push(c);
        i += 1;
    }
    out
}

/// The verdict on flight `i`: whether it was found within the distance
/// threshold of its candidate. A flight without a verdict counts as far away.
pub open spec fn near_at(near: Seq<bool>, i: int) -> bool {
    0 <= i < near.len() && near[i]
}

/// A flight survives when it has a candidate and lies near it.
pub open spec fn survives(airports: Seq<AirportView>, record: TrafficView, near: bool) -> bool {
    has_candidate(airports, record) && near
}

/// An airport is relevant when a surviving flight is associated with it.
pub open spec fn spec_relevant(
    airports: Seq<AirportView>,
    traffic: Seq<TrafficView>,
    near: Seq<bool>,
    airport: AirportView,
) -> bool {
    exists|i: int|
        0 <= i < traffic.len() && survives(airports, #[trigger] traffic[i], near_at(near, i))
            && spec_associated(airport, traffic[i])
}

/// The reports of the relevant airports, in the order of the airports.
pub open spec fn spec_correlate(
    airports: Seq<AirportView>,
    traffic: Seq<TrafficView>,
    near: Seq<bool>,
) -> Seq<Seq<char>> {
    airports.filter_map(
        |airport: AirportView|
            if spec_relevant(airports, traffic, near, airport) {
                Some(airport.report)
            } else {
                None
            },
    )
}

/// Which flights survive, in the order of the flights.
pub fn survivors(
    airports: &Vec<AirportWeather>,
    traffic: &Vec<TrafficRecord>,
    near: &Vec<bool>,
) -> (r: Vec<bool>)
    ensures
        r.len() == traffic.len(),
        forall|i: int|
            0 <= i < traffic.len() ==> r[i] == survives(
                airports.deep_view(),
                #[trigger] traffic.deep_view()[i],
                near_at(near@, i),
            ),
{
    let mut out: Vec<bool> = Vec::new();
    let mut i: usize = 0;
    while i < traffic.len()
        invariant
            i <= traffic.len(),
            out.len() == i,
            forall|k: int|
                0 <= k < i ==> out[k] == survives(
                    airports.deep_view(),
                    #[trigger] traffic.deep_view()[k],
                    near_at(near@, k),
                ),
        decreases traffic.len() - i,
    {
        let kept = i < near.len() && near[i] && candidate(airports, &traffic[i]).is_some();
        out.push(kept);
        i += 1;
    }
    out
}

/// Whether a flight marked in `survive` is associated with the airport.
fn relevant(
    airport: &AirportWeather,
    traffic: &Vec<TrafficRecord>,
    survive: &Vec<bool>,
) -> (r: bool)
    requires
        survive.len() == traffic.len(),
    ensures
        r == exists|i: int|
            0 <= i < traffic.len() && survive[i] && spec_associated(
                airport.deep_view(),
                #[trigger] traffic.deep_view()[i],
            ),
{
    let mut i: usize = 0;
    while i < traffic.len()
        invariant
            i <= traffic.len(),
            survive.len() == traffic.len(),
            forall|k: int|
                0 <= k < i ==> !(survive[k] && spec_associated(
                    airport.deep_view(),
                    #[trigger] traffic.deep_view()[k],
                )),
        decreases traffic.len() - i,
    {
        if survive[i] && associated(airport, &traffic[i]) {
            assert(spec_associated(airport.deep_view(), traffic.deep_view()[i as int]));
            return true;
        }
        i += 1;
    }
    false
}

/// Selects the weather reports that matter: those of the airports with
/// which a surviving flight is associated, in the order of the airports.
///
/// `near[i]` says whether flight `i` lies within the distance threshold of
/// its [`candidate`]; the caller measures that distance.
pub fn correlate(
    airports: &Vec<AirportWeather>,
    traffic: &Vec<TrafficRecord>,
    near: &Vec<bool>,
) -> (r: Vec<String>)
    ensures
        r.deep_view() == spec_correlate(airports.deep_view(), traffic.deep_view(), near@),
{
    let survive = survivors(airports, traffic, near);
    let ghost pick = |airport: AirportView|
        if spec_relevant(airports.deep_view(), traffic.deep_view(), near@, airport) {
            Some(airport.report)
        } else {
            None
        };
    let mut out: Vec<String> = Vec::new();
    let mut j: usize = 0;
    while j < airports.len()
        invariant
            j <= airports.len(),
            survive.len() == traffic.len(),
            forall|i: int|
                0 <= i < traffic.len() ==> survive[i] == survives(
                    airports.deep_view(),
                    #[trigger] traffic.deep_view()[i],
                    near_at(near@, i),
                ),
            pick == |airport: AirportView|
                if spec_relevant(airports.deep_view(), traffic.deep_view(), near@, airport) {
                    Some(airport.report)
                } else {
                    None
                },
            out.deep_view() == airports.deep_view().take(j as int).filter_map(pick),
        decreases airports.len() - j,
    {
        let keep = relevant(&airports[j], traffic, &survive);
        proof {
            airports.deep_view().lemma_filter_map_take_succ(pick, j as int);
            assert(keep == spec_relevant(
                airports.deep_view(),
                traffic.deep_view(),
                near@,
                airports.deep_view()[j as int],
            ));
        }
        if keep {
            let ghost before = out.deep_view();
            out.push(airports[j].report.clone());
            assert(out.deep_view() =~= before.push(airports.deep_view()[j as int].report));
        }
        j += 1;
    }
    proof {
        assert(airports.deep_view().take(airports.len() as int) =~= airports.deep_view());
    }
    out
}

/// Two functions that agree on the items of a sequence select the same.
proof fn lemma_filter_map_agree<A, B>(
    items: Seq<A>,
    f: spec_fn(A) -> Option<B>,
    g: spec_fn(A) -> Option<B>,
)
    requires
        forall|i: int| 0 <= i < items.len() ==> f(#[trigger] items[i]) == g(items[i]),
    ensures
        items.filter_map(f) == items.filter_map(g),
    decreases items.len(),
{
    if items.len() > 0 {
        assert forall|i: int| 0 <= i < items.drop_last().len() implies f(
            #[trigger] items.drop_last()[i],
        ) == g(items.drop_last()[i]) by {
            assert(items.drop_last()[i] == items[i]);
        }
        lemma_filter_map_agree(items.drop_last(), f, g);
        assert(f(items.last()) == g(items.last()));
    }
}

/// A flight without a plan never influences the selection: whatever its
/// position and whatever the verdict on it, the selection is the same.
pub proof fn lemma_planless_flight_is_ignored(
    airports: Seq<AirportView>,
    traffic: Seq<TrafficView>,
    near: Seq<bool>,
    i: int,
    other: TrafficView,
    verdicts: Seq<bool>,
)
    requires
        0 <= i < traffic.len(),
        traffic[i].flight_plan is None,
        other.flight_plan is None,
        forall|k: int| 0 <= k < traffic.len() && k != i ==> near_at(near, k) == near_at(verdicts, k),
    ensures
        spec_correlate(airports, traffic, near) == spec_correlate(
            airports,
            traffic.update(i, other),
            verdicts,
        ),
{
    let changed = traffic.update(i, other);
    let f = |airport: AirportView|
        if spec_relevant(airports, traffic, near, airport) {
            Some(airport.report)
        } else {
            None
        };
    let g = |airport: AirportView|
        if spec_relevant(airports, changed, verdicts, airport) {
            Some(airport.report)
        } else {
            None
        };
    assert forall|j: int| 0 <= j < airports.len() implies f(#[trigger] airports[j]) == g(
        airports[j],
    ) by {
        let airport = airports[j];
        if spec_relevant(airports, traffic, near, airport) {
            let k = choose|k: int|
                0 <= k < traffic.len() && survives(airports, #[trigger] traffic[k], near_at(near, k))
                    && spec_associated(airport, traffic[k]);
            assert(k != i);
            assert(changed[k] == traffic[k]);
            assert(survives(airports, changed[k], near_at(verdicts, k)));
        }
        if spec_relevant(airports, changed, verdicts, airport) {
            let k = choose|k: int|
                0 <= k < changed.len() && survives(
                    airports,
                    #[trigger] changed[k],
                    near_at(verdicts, k),
                ) && spec_associated(airport, changed[k]);
            assert(k != i);
            assert(changed[k] == traffic[k]);
            assert(survives(airports, traffic[k], near_at(near, k)));
        }
    }
    lemma_filter_map_agree(airports, f, g);
}

/// A flight without a plan may as well be left out, with its verdict.
pub proof fn lemma_planless_flight_can_be_left_out(
    airports: Seq<AirportView>,
    traffic: Seq<TrafficView>,
    near: Seq<bool>,
    i: int,
)
    requires
        0 <= i < traffic.len(),
        near.len() == traffic.len(),
        traffic[i].flight_plan is None,
    ensures
        spec_correlate(airports, traffic, near) == spec_correlate(
            airports,
            traffic.remove(i),
            near.remove(i),
        ),
{
    let fewer = traffic.remove(i);
    let verdicts = near.remove(i);
    let f = |airport: AirportView|
        if spec_relevant(airports, traffic, near, airport) {
            Some(airport.report)
        } else {
            None
        };
    let g = |airport: AirportView|
        if spec_relevant(airports, fewer, verdicts, airport) {
            Some(airport.report)
        } else {
            None
        };
    assert forall|j: int| 0 <= j < airports.len() implies f(#[trigger] airports[j]) == g(
        airports[j],
    ) by {
        let airport = airports[j];
        if spec_relevant(airports, traffic, near, airport) {
            let k = choose|k: int|
                0 <= k < traffic.len() && survives(airports, #[trigger] traffic[k], near_at(near, k))
                    && spec_associated(airport, traffic[k]);
            assert(k != i);
            let at = if k < i {
                k
            } else {
                k - 1
            };
            assert(fewer[at] == traffic[k]);
            assert(verdicts[at] == near[k]);
            assert(survives(airports, fewer[at], near_at(verdicts, at)));
        }
        if spec_relevant(airports, fewer, verdicts, airport) {
            let at = choose|at: int|
                0 <= at < fewer.len() && survives(
                    airports,
                    #[trigger] fewer[at],
                    near_at(verdicts, at),
                ) && spec_associated(airport, fewer[at]);
            let k = if at < i {
                at
            } else {
                at + 1
            };
            assert(fewer[at] == traffic[k]);
            assert(verdicts[at] == near[k]);
            assert(survives(airports, traffic[k], near_at(near, k)));
        }
    }
    lemma_filter_map_agree(airports, f, g);
}

/// Association asks that the airport's identifier begins an end of the
/// plan, not the other way round: a plan whose ends are both shorter than
/// the identifier is not associated with the airport.
pub proof fn lemma_identifier_is_the_prefix(airport: AirportView, record: TrafficView)
    requires
        record.flight_plan is Some,
        record.flight_plan->0.departure.len() < airport.icao.len(),
        record.flight_plan->0.arrival.len() < airport.icao.len(),
    ensures
        !spec_associated(airport, record),
{
}

/// A flight whose plan has an end that is the airport's identifier is
/// associated with the airport.
pub proof fn lemma_equal_end_is_associated(airport: AirportView, record: TrafficView)
    requires
        record.flight_plan is Some,
        record.flight_plan->0.departure == airport.icao || record.flight_plan->0.arrival
            == airport.icao,
    ensures
        spec_associated(airport, record),
{
    assert(airport.icao.subrange(0, airport.icao.len() as int) =~= airport.icao);
}

/// A flight without a plan is not of the region and is associated with no
/// airport.
pub proof fn lemma_planless_flight_matches_nothing(airport: AirportView, record: TrafficView)
    requires
        record.flight_plan is None,
    ensures
        !spec_in_region(record),
        !spec_associated(airport, record),
{
}

/// Every selected report is the report of an airport that a flight near its
/// candidate is associated with, and every such airport's report is
/// selected.
pub proof fn lemma_selected_reports(
    airports: Seq<AirportView>,
    traffic: Seq<TrafficView>,
    near: Seq<bool>,
    report: Seq<char>,
)
    ensures
        spec_correlate(airports, traffic, near).contains(report) <==> exists|j: int|
            0 <= j < airports.len() && spec_relevant(airports, traffic, near, #[trigger] airports[j])
                && airports[j].report == report,
{
    let f = |airport: AirportView|
        if spec_relevant(airports, traffic, near, airport) {
            Some(airport.report)
        } else {
            None
        };
    if spec_correlate(airports, traffic, near).contains(report) {
        airports.lemma_filter_map_contains(f, report);
        let x = choose|x: AirportView| airports.contains(x) && f(x) == Some(report);
        let j = choose|j: int| 0 <= j < airports.len() && airports[j] == x;
        assert(spec_relevant(airports, traffic, near, airports[j]) && airports[j].report == report);
    }
    if exists|j: int|
        0 <= j < airports.len() && spec_relevant(airports, traffic, near, #[trigger] airports[j])
            && airports[j].report == report {
        let j = choose|j: int|
            0 <= j < airports.len() && spec_relevant(airports, traffic, near, #[trigger] airports[j])
                && airports[j].report == report;
        assert(f(airports[j]) == Some(report));
        lemma_filter_map_keeps(airports, f, j);
    }
}

/// What a function selects from an item of a sequence is among what it
/// selects from the sequence.
proof fn lemma_filter_map_keeps<A, B>(items: Seq<A>, f: spec_fn(A) -> Option<B>, j: int)
    requires
        0 <= j < items.len(),
        f(items[j]) is Some,
    ensures
        items.filter_map(f).contains(f(items[j])->0),
    decreases items.len(),
{
    let rest = items.drop_last();
    let wanted = f(items[j])->0;
    if j < items.len() - 1 {
        assert(rest[j] == items[j]);
        lemma_filter_map_keeps(rest, f, j);
        let at = choose|at: int| 0 <= at < rest.filter_map(f).len() && rest.filter_map(f)[at] == wanted;
        match f(items.last()) {
            Some(s) => {
                assert((rest.filter_map(f) + seq![s])[at] == wanted);
            },
            None => {},
        }
    } else {
        let s = f(items.last())->0;
        assert((rest.filter_map(f) + seq![s])[rest.filter_map(f).len() as int] == wanted);
    }
}

/// The selection depends on nothing but what it is given: two runs on the
/// same airports, flights and verdicts give the same reports.
pub proof fn lemma_correlate_repeats(
    airports: Vec<AirportWeather>,
    traffic: Vec<TrafficRecord>,
    near: Vec<bool>,
    first: Vec<String>,
    second: Vec<String>,
)
    requires
        first.deep_view() == spec_correlate(airports.deep_view(), traffic.deep_view(), near@),
        second.deep_view() == spec_correlate(airports.deep_view(), traffic.deep_view(), near@),
    ensures
        first.deep_view() == second.deep_view(),
{
}

} // verus!
