//! Pulling a coordinate pair out of a map URL.
use vstd::prelude::*;
use crate::decimal::{is_decimal, Decimal};

verus! {

/// A latitude and a longitude, each `-?\d+(\.\d+)?`, separated by a comma
/// (`-25.0,160.0`). `(?:)` is a group that captures nothing.
pub const LAT_LNG_PATTERN: &'static str = r"(-?\d+(?:\.\d+)?),(-?\d+(?:\.\d+)?)";

/// The literal that stands just before the coordinate pair in a URL.
#[derive(Clone, Copy, Debug, PartialEq, Eq, Structural)]
pub enum Anchor {
    /// `q=`: a coordinate given in the URL's query; the map does not recenter.
    Query,
    /// `@`: the view center, written into the address once the map has rendered.
    ViewCenter,
}

pub open spec fn anchor_text(anchor: Anchor) -> Seq<char> {
    match anchor {
        Anchor::Query => "q="@,
        Anchor::ViewCenter => "@"@,
    }
}

/// The full pattern for `anchor`: its literal, then the coordinate pair.
pub open spec fn coordinate_pattern(anchor: Anchor) -> Seq<char> {
    anchor_text(anchor) + LAT_LNG_PATTERN@
}

/// The first and second capture groups of the leftmost-first match of the
/// regular expression `pattern` in `text`, as the regex crate finds them; none
/// where the pattern does not compile, nothing matches, or a group takes no part.
pub uninterp spec fn first_match_groups(pattern: Seq<char>, text: Seq<char>) -> Option<(Seq<char>, Seq<char>)>;

/// Relies on regex::Regex::new to compile `pattern`, and on Regex::captures and
/// Captures::get for the groups 1 and 2 of its leftmost-first match in `text`:
/// the result is what `first_match_groups` names, as text.
#[verifier::external_body]
fn first_match(pattern: &str, text: &str) -> (r: Option<(String, String)>)
    ensures
        match r {
            Some((a, b)) => first_match_groups(pattern@, text@) == Some((a@, b@)),
            None => first_match_groups(pattern@, text@) is None,
        },
{
    let re = regex::Regex::new(pattern).ok()?;
    let groups = re.captures(text)?;
    Some((groups.get(1)?.as_str().to_string(), groups.get(2)?.as_str().to_string()))
}

/// Why no coordinate came out of a text.
#[derive(Clone, Copy, Debug, PartialEq, Eq, Structural)]
pub enum ExtractError {
    /// The pattern matched nowhere.
    NotFound,
    /// It matched, but a captured number is not decimal text a float parser reads.
    Unparsable,
}

/// A point on the map, longitude first, as geospatial positions are written.
pub struct Coordinate {
    pub lng: Decimal,
    pub lat: Decimal,
}

impl View for Coordinate {
    type V = (Seq<char>, Seq<char>);

    open spec fn view(&self) -> (Seq<char>, Seq<char>) {
        (self.lng@, self.lat@)
    }
}

impl Coordinate {
    pub fn duplicate(&self) -> (r: Coordinate)
        ensures
            r@ == self@,
    {
        Coordinate { lng: self.lng.duplicate(), lat: self.lat.duplicate() }
    }
}

/// The coordinate, as (longitude, latitude), that captured groups
/// (latitude, longitude) give.
pub open spec fn coordinate_from_groups_spec(groups: Option<(Seq<char>, Seq<char>)>) -> Result<
    (Seq<char>, Seq<char>),
    ExtractError,
> {
    match groups {
        None => Err(ExtractError::NotFound),
        Some((lat, lng)) => if is_decimal(lat) && is_decimal(lng) {
            Ok((lng, lat))
        } else {
            Err(ExtractError::Unparsable)
        },
    }
}

pub open spec fn extract_spec(anchor: Anchor, text: Seq<char>) -> Result<(Seq<char>, Seq<char>), ExtractError> {
    coordinate_from_groups_spec(first_match_groups(coordinate_pattern(anchor), text))
}

pub open spec fn coordinate_result_view(r: Result<Coordinate, ExtractError>) -> Result<(Seq<char>, Seq<char>), ExtractError> {
    match r {
        Ok(c) => Ok(c@),
        Err(e) => Err(e),
    }
}

/// Reads the groups (latitude, longitude) of a match as a coordinate; the
/// result holds them swapped, longitude first.
pub fn coordinate_from_groups(groups: Option<(String, String)>) -> (r: Result<Coordinate, ExtractError>)
    ensures
        coordinate_result_view(r) == coordinate_from_groups_spec(
            match groups {
                Some((a, b)) => Some((a@, b@)),
                None => None,
            },
        ),
{
    match groups {
        None => Err(ExtractError::NotFound),
        Some((lat_text, lng_text)) => {
            let lat = Decimal::parse(lat_text.as_str());
            let lng = Decimal::parse(lng_text.as_str());
            match (lng, lat) {
                (Some(lng), Some(lat)) => Ok(Coordinate { lng, lat }),
                _ => Err(ExtractError::Unparsable),
            }
        },
    }
}

fn pattern_for(anchor: Anchor) -> (r: String)
    ensures
        r@ == coordinate_pattern(anchor),
{
    let mut p = match anchor {
        Anchor::Query => String::from_str("q="),
        Anchor::ViewCenter => String::from_str("@"),
    };
    p.append(LAT_LNG_PATTERN);
    p
}

/// The coordinate that the first match of `anchor`'s pattern in `text` gives.
/// Later matches are not looked at.
pub fn extract(anchor: Anchor, text: &str) -> (r: Result<Coordinate, ExtractError>)
    ensures
        coordinate_result_view(r) == extract_spec(anchor, text@),
{
    let pattern = pattern_for(anchor);
    coordinate_from_groups(first_match(pattern.as_str(), text))
}

/// Whatever text a coordinate is extracted from, it comes out longitude
/// first: the pattern's groups are (latitude, longitude), the result is the
/// same two numbers swapped.
pub proof fn law_extracted_pair_is_lng_lat(anchor: Anchor, text: Seq<char>)
    requires
        extract_spec(anchor, text) is Ok,
    ensures
        ({
            let (lng, lat) = extract_spec(anchor, text)->Ok_0;
            first_match_groups(coordinate_pattern(anchor), text) == Some((lat, lng))
        }),
{
}

} // verus!
