//! The weather feed: from the body of an answer to airport records.
//!
//! The feed is a JSON object with one entry for each airport. The key of an
//! entry is the report-type marker followed by the airport's identifier; its
//! value is an object whose members `lat`, `lon` and `p1` are texts, the
//! first two of them decimal numbers. A document is taken whole or not at
//! all: the first entry that is not of this shape fails it.
//!
//! The numbers are read by the caller, between [`decode_weather`] and
//! [`locate`].

use vstd::prelude::*;
use crate::error::{FetchError, ParseFault};
use crate::json::{
    json_document, member, read_document, spec_member, Document, DocumentView, Entry, EntryView,
    Field, FieldView,
};
use crate::model::{AirportView, AirportWeather, WeatherEntry, WeatherEntryView};
use crate::text::{begins_with, strip_prefix};

verus! {

/// The marker with which every key of the weather feed begins.
pub const REPORT_MARKER: &'static str = "METAR";

/// The characters of [`REPORT_MARKER`].
pub open spec fn report_marker() -> Seq<char> {
    seq!['M', 'E', 'T', 'A', 'R']
}

/// The key of the latitude member.
pub open spec fn latitude_key() -> Seq<char> {
    seq!['l', 'a', 't']
}

/// The key of the longitude member.
pub open spec fn longitude_key() -> Seq<char> {
    seq!['l', 'o', 'n']
}

/// The key of the report member.
pub open spec fn report_key() -> Seq<char> {
    seq!['p', '1']
}

/// The text under `key`, or what is wrong with that member.
pub open spec fn spec_text_member(fields: Seq<(Seq<char>, FieldView)>, key: Seq<char>) -> Result<
    Seq<char>,
    ParseFault,
> {
    match spec_member(fields, key) {
        None => Err(ParseFault::MissingField),
        Some(FieldView::Other) => Err(ParseFault::FieldNotText),
        Some(FieldView::Text(text)) => Ok(text),
    }
}

/// The identifier in a key of the feed: what follows the marker, which may
/// not be all of the key.
pub open spec fn spec_identifier(key: Seq<char>) -> Result<Seq<char>, ParseFault> {
    if !begins_with(key, report_marker()) {
        Err(ParseFault::MissingPrefix)
    } else if key.len() == report_marker().len() {
        Err(ParseFault::EmptyIdentifier)
    } else {
        Ok(key.subrange(report_marker().len() as int, key.len() as int))
    }
}

/// What one entry of the feed says of its airport, or the first thing that
/// is wrong with the entry.
pub open spec fn spec_entry(key: Seq<char>, entry: EntryView) -> Result<
    WeatherEntryView,
    ParseFault,
> {
    match entry {
        EntryView::Other => Err(ParseFault::EntryNotAnObject),
        EntryView::Object(fields) => match spec_text_member(fields, latitude_key()) {
            Err(fault) => Err(fault),
            Ok(latitude) => match spec_text_member(fields, longitude_key()) {
                Err(fault) => Err(fault),
                Ok(longitude) => match spec_text_member(fields, report_key()) {
                    Err(fault) => Err(fault),
                    Ok(report) => match spec_identifier(key) {
                        Err(fault) => Err(fault),
                        Ok(icao) => Ok(WeatherEntryView { icao, latitude, longitude, report }),
                    },
                },
            },
        },
    }
}

/// What the entries say, one record for each and in their order, or the
/// fault of the first entry that has one.
pub open spec fn spec_entries(entries: Seq<(Seq<char>, EntryView)>) -> Result<
    Seq<WeatherEntryView>,
    ParseFault,
>
    decreases entries.len(),
{
    if entries.len() == 0 {
        Ok(Seq::empty())
    } else {
        match spec_entries(entries.drop_last()) {
            Err(fault) => Err(fault),
            Ok(before) => match spec_entry(entries.last().0, entries.last().1) {
                Err(fault) => Err(fault),
                Ok(airport) => Ok(before.push(airport)),
            },
        }
    }
}

/// The records of a document.
pub open spec fn spec_weather(document: DocumentView) -> Result<
    Seq<WeatherEntryView>,
    ParseFault,
> {
    match document {
        DocumentView::Other => Err(ParseFault::NotAnObject),
        DocumentView::Object(entries) => spec_entries(entries),
    }
}

/// The records of what was read from a body.
pub open spec fn spec_decode(read: Option<DocumentView>) -> Result<
    Seq<WeatherEntryView>,
    ParseFault,
> {
    match read {
        None => Err(ParseFault::Syntax),
        Some(document) => spec_weather(document),
    }
}

/// What a function may answer where `expected` is owed: the records, or
/// the fault as a parse error.
pub open spec fn answers(
    r: Result<Vec<WeatherEntry>, FetchError>,
    expected: Result<Seq<WeatherEntryView>, ParseFault>,
) -> bool {
    match r {
        Ok(airports) => expected == Ok::<Seq<WeatherEntryView>, ParseFault>(airports.deep_view()),
        Err(FetchError::Parse(fault)) => expected == Err::<Seq<WeatherEntryView>, ParseFault>(
            fault,
        ),
        Err(_) => false,
    }
}

/// The text of a member of an entry.
fn text_member(fields: &Vec<(String, Field)>, key: &str) -> (r: Result<String, ParseFault>)
    ensures
        match r {
            Ok(text) => spec_text_member(fields.deep_view(), key@) == Ok::<Seq<char>, ParseFault>(
                text@,
            ),
            Err(fault) => spec_text_member(fields.deep_view(), key@) == Err::<
                Seq<char>,
                ParseFault,
            >(fault),
        },
{
    let owned = key.to_owned();
    match member(fields, &owned) {
        None => Err(ParseFault::MissingField),
        Some(Field::Other) => Err(ParseFault::FieldNotText),
        Some(Field::Text(text)) => Ok(text.clone()),
    }
}

/// The identifier in a key of the feed.
pub fn identifier(key: &str) -> (r: Result<String, ParseFault>)
    ensures
        match r {
            Ok(icao) => spec_identifier(key@) == Ok::<Seq<char>, ParseFault>(icao@),
            Err(fault) => spec_identifier(key@) == Err::<Seq<char>, ParseFault>(fault),
        },
{
    proof {
        reveal_strlit("METAR");
        assert(REPORT_MARKER@ =~= report_marker());
    }
    match strip_prefix(key, REPORT_MARKER) {
        None => Err(ParseFault::MissingPrefix),
        Some(icao) => {
            if icao.as_str().is_empty() {
                Err(ParseFault::EmptyIdentifier)
            } else {
                Ok(icao)
            }
        },
    }
}

/// Reads one entry of the feed.
pub fn parse_entry(key: &str, entry: &Entry) -> (r: Result<WeatherEntry, ParseFault>)
    ensures
        match r {
            Ok(airport) => spec_entry(key@, entry.deep_view()) == Ok::<
                WeatherEntryView,
                ParseFault,
            >(airport.deep_view()),
            Err(fault) => spec_entry(key@, entry.deep_view()) == Err::<
                WeatherEntryView,
                ParseFault,
            >(fault),
        },
{
    proof {
        reveal_strlit("lat");
        reveal_strlit("lon");
        reveal_strlit("p1");
        assert("lat"@ =~= latitude_key());
        assert("lon"@ =~= longitude_key());
        assert("p1"@ =~= report_key());
    }
    match entry {
        Entry::Other => Err(ParseFault::EntryNotAnObject),
        Entry::Object(fields) => {
            let latitude = match text_member(fields, "lat") {
                Ok(text) => text,
                Err(fault) => { return Err(fault); },
            };
            let longitude = match text_member(fields, "lon") {
                Ok(text) => text,
                Err(fault) => { return Err(fault); },
            };
            let report = match text_member(fields, "p1") {
                Ok(text) => text,
                Err(fault) => { return Err(fault); },
            };
            match identifier(key) {
                Ok(icao) => Ok(WeatherEntry { icao, latitude, longitude, report }),
                Err(fault) => Err(fault),
            }
        },
    }
}

/// Reads the records from a document: one for each entry, in the order of
/// the entries, or the fault of the first entry that has one.
pub fn parse_weather(document: &Document) -> (r: Result<Vec<WeatherEntry>, FetchError>)
    ensures
        answers(r, spec_weather(document.deep_view())),
{
    match document {
        Document::Other => Err(FetchError::Parse(ParseFault::NotAnObject)),
        Document::Object(entries) => {
            let mut out: Vec<WeatherEntry> = Vec::new();
            let ghost all = entries.deep_view();
            let mut i: usize = 0;
            proof {
                assert(out.deep_view() =~= Seq::empty());
            }
            while i < entries.len()
                invariant
                    i <= entries.len(),
                    all == entries.deep_view(),
                    document.deep_view() == DocumentView::Object(all),
                    spec_entries(all.take(i as int)) == Ok::<Seq<WeatherEntryView>, ParseFault>(
                        out.deep_view(),
                    ),
                decreases entries.len() - i,
            {
                proof {
                    assert(all.take(i as int + 1).drop_last() =~= all.take(i as int));
                    assert(all.take(i as int + 1).last() == all[i as int]);
                    assert(all[i as int] == entries@[i as int].deep_view());
                }
                match parse_entry(entries[i].0.as_str(), &entries[i].1) {
                    Ok(airport) => {
                        let ghost before = out.deep_view();
                        out.push(airport);
                        assert(out.deep_view() =~= before.push(airport.deep_view()));
                    },
                    Err(fault) => {
                        proof {
                            assert(spec_entries(all.take(i as int + 1)) == Err::<
                                Seq<WeatherEntryView>,
                                ParseFault,
                            >(fault));
                            lemma_fault_stays(all, i as int + 1);
                        }
                        return Err(FetchError::Parse(fault));
                    },
                }
                i += 1;
            }
            proof {
                assert(all.take(entries.len() as int) =~= all);
            }
            Ok(out)
        },
    }
}

/// Reads the records from the body of an answer of the weather service:
/// those of [`parse_weather`] for the document that the body holds, or a
/// syntax fault where it holds none.
pub fn decode_weather(body: &str) -> (r: Result<Vec<WeatherEntry>, FetchError>)
    ensures
        answers(r, spec_decode(json_document(body@))),
{
    match read_document(body) {
        None => Err(FetchError::Parse(ParseFault::Syntax)),
        Some(document) => parse_weather(&document),
    }
}

/// The coordinates that were read for entry `i`, if any were.
pub open spec fn coordinates_at(coordinates: Seq<Option<(u64, u64)>>, i: int) -> Option<
    (u64, u64),
> {
    if 0 <= i < coordinates.len() {
        coordinates[i]
    } else {
        None
    }
}

/// Coordinates were read for each of the first `count` entries.
pub open spec fn all_located(count: nat, coordinates: Seq<Option<(u64, u64)>>) -> bool {
    forall|i: int| 0 <= i < count ==> coordinates_at(coordinates, i) is Some
}

/// The airport of an entry whose coordinates are `at`.
pub open spec fn spec_located(entry: WeatherEntryView, at: (u64, u64)) -> AirportView {
    AirportView { icao: entry.icao, latitude: at.0, longitude: at.1, report: entry.report }
}

/// What [`locate`] answers.
pub open spec fn locates(
    entries: Seq<WeatherEntryView>,
    coordinates: Seq<Option<(u64, u64)>>,
    r: Result<Vec<AirportWeather>, FetchError>,
) -> bool {
    match r {
        Ok(airports) => {
            &&& all_located(entries.len(), coordinates)
            &&& airports.deep_view().len() == entries.len()
            &&& forall|i: int|
                0 <= i < entries.len() ==> #[trigger] airports.deep_view()[i] == spec_located(
                    entries[i],
                    coordinates[i]->0,
                )
        },
        Err(FetchError::Parse(ParseFault::NotANumber)) => !all_located(entries.len(), coordinates),
        Err(_) => false,
    }
}

/// Turns the entries of a document into airports, one for each entry and
/// in their order, where the coordinates of every entry were read as
/// numbers; fails the document where those of one were not.
///
/// `coordinates[i]` holds latitude and longitude of entry `i` as the bits of
/// doubles, or nothing where one of the two texts is not a decimal number;
/// the caller, who does the arithmetic on them, reads them. An entry
/// without coordinates counts as unreadable.
pub fn locate(entries: &Vec<WeatherEntry>, coordinates: &Vec<Option<(u64, u64)>>) -> (r: Result<
    Vec<AirportWeather>,
    FetchError,
>)
    ensures
        locates(entries.deep_view(), coordinates@, r),
{
    let mut out: Vec<AirportWeather> = Vec::new();
    let mut i: usize = 0;
    while i < entries.len()
        invariant
            i <= entries.len(),
            out.len() == i,
            forall|k: int| 0 <= k < i ==> coordinates_at(coordinates@, k) is Some,
            forall|k: int|
                0 <= k < i ==> #[trigger] out.deep_view()[k] == spec_located(
                    entries.deep_view()[k],
                    coordinates@[k]->0,
                ),
        decreases entries.len() - i,
    {
        if i >= coordinates.len() {
            assert(coordinates_at(coordinates@, i as int) is None);
            return Err(FetchError::Parse(ParseFault::NotANumber));
        }
        match coordinates[i] {
            None => {
                assert(coordinates_at(coordinates@, i as int) is None);
                return Err(FetchError::Parse(ParseFault::NotANumber));
            },
            Some((latitude, longitude)) => {
                let ghost before = out.deep_view();
                let airport = AirportWeather {
                    icao: entries[i].icao.clone(),
                    latitude,
                    longitude,
                    report: entries[i].report.clone(),
                };
                out.push(airport);
                assert(out.deep_view() =~= before.push(airport.deep_view()));
            },
        }
        i += 1;
    }
    Ok(out)
}

/// A fault among the first `n` entries is the fault of the whole.
pub proof fn lemma_fault_stays(entries: Seq<(Seq<char>, EntryView)>, n: int)
    requires
        0 <= n <= entries.len(),
        spec_entries(entries.take(n)) is Err,
    ensures
        spec_entries(entries) == spec_entries(entries.take(n)),
    decreases entries.len() - n,
{
    if n < entries.len() {
        assert(entries.take(n + 1).drop_last() =~= entries.take(n));
        lemma_fault_stays(entries, n + 1);
    } else {
        assert(entries.take(n) =~= entries);
    }
}

/// A document that is taken yields one record for each entry, in the order
/// of the entries, and each key is the marker followed by the identifier of
/// its record, which is not empty.
pub proof fn lemma_one_record_per_entry(
    entries: Seq<(Seq<char>, EntryView)>,
    airports: Seq<WeatherEntryView>,
)
    requires
        spec_entries(entries) == Ok::<Seq<WeatherEntryView>, ParseFault>(airports),
    ensures
        airports.len() == entries.len(),
        forall|i: int|
            0 <= i < entries.len() ==> spec_entry(
                (#[trigger] entries[i]).0,
                entries[i].1,
            ) == Ok::<WeatherEntryView, ParseFault>(airports[i]),
        forall|i: int|
            0 <= i < entries.len() ==> (#[trigger] entries[i]).0 == report_marker()
                + airports[i].icao && airports[i].icao.len() > 0,
    decreases entries.len(),
{
    if entries.len() > 0 {
        let before = spec_entries(entries.drop_last())->Ok_0;
        lemma_one_record_per_entry(entries.drop_last(), before);
        assert forall|i: int| 0 <= i < entries.len() implies (#[trigger] entries[i]).0
            == report_marker() + airports[i].icao && airports[i].icao.len() > 0 by {
            if i < entries.len() - 1 {
                assert(entries.drop_last()[i] == entries[i]);
            }
            let key = entries[i].0;
            assert(spec_identifier(key) is Ok);
            assert(key =~= report_marker() + key.subrange(
                report_marker().len() as int,
                key.len() as int,
            ));
        }
        assert forall|i: int| 0 <= i < entries.len() implies spec_entry(
            (#[trigger] entries[i]).0,
            entries[i].1,
        ) == Ok::<WeatherEntryView, ParseFault>(airports[i]) by {
            if i < entries.len() - 1 {
                assert(entries.drop_last()[i] == entries[i]);
            }
        }
    }
}

/// Where a document is taken and the coordinates of all its entries were
/// read, there is one airport for each key of the document, in the order of
/// the keys, and each key is the marker followed by the identifier of its
/// airport.
pub proof fn lemma_one_airport_per_key(
    entries: Seq<(Seq<char>, EntryView)>,
    records: Seq<WeatherEntryView>,
    coordinates: Seq<Option<(u64, u64)>>,
    airports: Vec<AirportWeather>,
)
    requires
        spec_entries(entries) == Ok::<Seq<WeatherEntryView>, ParseFault>(records),
        locates(records, coordinates, Ok(airports)),
    ensures
        airports.deep_view().len() == entries.len(),
        forall|i: int|
            0 <= i < entries.len() ==> (#[trigger] entries[i]).0 == report_marker()
                + airports.deep_view()[i].icao,
{
    lemma_one_record_per_entry(entries, records);
    assert forall|i: int| 0 <= i < entries.len() implies (#[trigger] entries[i]).0
        == report_marker() + airports.deep_view()[i].icao by {
        assert(airports.deep_view()[i] == spec_located(records[i], coordinates[i]->0));
    }
}

/// One entry with a fault fails the whole document.
pub proof fn lemma_all_or_nothing(entries: Seq<(Seq<char>, EntryView)>, i: int)
    requires
        0 <= i < entries.len(),
        spec_entry(entries[i].0, entries[i].1) is Err,
    ensures
        spec_entries(entries) is Err,
{
    if spec_entries(entries) is Ok {
        lemma_one_record_per_entry(entries, spec_entries(entries)->Ok_0);
    }
}

/// An entry whose key does not begin with the marker has a fault.
pub proof fn lemma_marker_is_required(key: Seq<char>, entry: EntryView)
    requires
        !begins_with(key, report_marker()),
    ensures
        spec_entry(key, entry) is Err,
{
}

} // verus!
