//! Building an output feature from a place and its resolved coordinate.
use vstd::prelude::*;
use crate::extract::Coordinate;

verus! {

/// A place read from a table: its title and map URL, with an optional note
/// and comment.
pub struct PlaceRecord {
    pub title: String,
    pub url: String,
    pub note: Option<String>,
    pub comment: Option<String>,
}

pub struct PlaceRecordView {
    pub title: Seq<char>,
    pub url: Seq<char>,
    pub note: Option<Seq<char>>,
    pub comment: Option<Seq<char>>,
}

pub open spec fn text_option_view(t: Option<String>) -> Option<Seq<char>> {
    match t {
        Some(s) => Some(s@),
        None => None,
    }
}

impl View for PlaceRecord {
    type V = PlaceRecordView;

    open spec fn view(&self) -> PlaceRecordView {
        PlaceRecordView {
            title: self.title@,
            url: self.url@,
            note: text_option_view(self.note),
            comment: text_option_view(self.comment),
        }
    }
}

/// A point feature: its position and its properties, in order.
pub struct OutputFeature {
    pub coordinate: Coordinate,
    pub properties: Vec<(String, String)>,
}

pub open spec fn property_view(p: (String, String)) -> (Seq<char>, Seq<char>) {
    (p.0@, p.1@)
}

impl View for OutputFeature {
    type V = ((Seq<char>, Seq<char>), Seq<(Seq<char>, Seq<char>)>);

    open spec fn view(&self) -> ((Seq<char>, Seq<char>), Seq<(Seq<char>, Seq<char>)>) {
        (self.coordinate@, self.properties@.map_values(|p: (String, String)| property_view(p)))
    }
}

pub open spec fn optional_property(key: Seq<char>, value: Option<Seq<char>>) -> Seq<(Seq<char>, Seq<char>)> {
    match value {
        Some(v) => seq![(key, v)],
        None => seq![],
    }
}

/// `name` and `google_maps_url`, then `note` and `comment` where the record has them.
pub open spec fn properties_spec(record: PlaceRecordView) -> Seq<(Seq<char>, Seq<char>)> {
    seq![("name"@, record.title), ("google_maps_url"@, record.url)] + optional_property("note"@, record.note)
        + optional_property("comment"@, record.comment)
}

pub open spec fn assemble_spec(record: PlaceRecordView, coordinate: (Seq<char>, Seq<char>)) -> (
    (Seq<char>, Seq<char>),
    Seq<(Seq<char>, Seq<char>)>,
) {
    (coordinate, properties_spec(record))
}

fn push_property(props: &mut Vec<(String, String)>, key: &str, value: &String)
    ensures
        final(props)@.map_values(|p: (String, String)| property_view(p)) == old(props)@.map_values(
            |p: (String, String)| property_view(p),
        ).push((key@, value@)),
{
    props.push((String::from_str(key), value.clone()));
    assert(final(props)@.map_values(|p: (String, String)| property_view(p)) =~= old(props)@.map_values(
        |p: (String, String)| property_view(p),
    ).push((key@, value@)));
}

/// The point feature for `record` at `coordinate`.
pub fn assemble(record: &PlaceRecord, coordinate: Coordinate) -> (r: OutputFeature)
    ensures
        r@ == assemble_spec(record@, coordinate@),
{
    let mut properties: Vec<(String, String)> = Vec::new();
    push_property(&mut properties, "name", &record.title);
    push_property(&mut properties, "google_maps_url", &record.url);
    if let Some(note) = &record.note {
        push_property(&mut properties, "note", note);
    }
    if let Some(comment) = &record.comment {
        push_property(&mut properties, "comment", comment);
    }
    let r = OutputFeature { coordinate, properties };
    assert(r@.1 =~= properties_spec(record@));
    r
}

} // verus!
