//! The records of an address result, and what each of them holds.

use vstd::prelude::*;

verus! {

/// A number, held as its decimal text.
#[derive(Debug, Clone, PartialEq, Eq)]
pub struct Decimal {
    pub text: String,
}

/// A position: the two numbers of a geometry's `coordinates` array, in the
/// order in which the service writes them.
#[derive(Debug, Clone, PartialEq, Eq)]
pub struct Coordinates {
    /// The first number of the array.
    pub longitude: Decimal,
    /// The second number of the array.
    pub latitude: Decimal,
}

/// Where a match lies.
#[derive(Debug, Clone, PartialEq, Eq)]
pub struct Geometry {
    /// The member `type`.
    pub kind: String,
    pub coordinates: Coordinates,
}

/// What the service says of one match.
#[derive(Debug, Clone, PartialEq, Eq)]
pub struct Properties {
    /// The full address, as it is to be shown.
    pub label: String,
    /// How well the match fits the query, from 0 to 1.
    pub score: Decimal,
    /// Absent where the match is not a single house.
    pub housenumber: Option<String>,
    /// The service's own identifier of the match.
    pub id: String,
    /// The member `type`: how fine the match is (a house, a street, a municipality).
    pub kind: String,
    /// Easting in the projected coordinate system.
    pub x: Decimal,
    /// Northing in the projected coordinate system.
    pub y: Decimal,
    /// The weight of the match among its rivals.
    pub importance: Decimal,
    pub name: String,
    pub postcode: String,
    /// The INSEE code of the municipality.
    pub citycode: String,
    /// Department and region.
    pub context: String,
    pub street: Option<String>,
}

/// One candidate match.
#[derive(Debug, Clone, PartialEq, Eq)]
pub struct Feature {
    /// The member `type`.
    pub kind: String,
    pub geometry: Geometry,
    pub properties: Properties,
}

/// A whole response: the matches, best first. There may be none.
#[derive(Debug, Clone, PartialEq, Eq)]
pub struct AddressResult {
    /// The member `type`.
    pub kind: String,
    pub version: String,
    pub features: Vec<Feature>,
}

pub ghost struct CoordinatesView {
    pub longitude: Seq<char>,
    pub latitude: Seq<char>,
}

pub ghost struct GeometryView {
    pub kind: Seq<char>,
    pub coordinates: CoordinatesView,
}

pub ghost struct PropertiesView {
    pub label: Seq<char>,
    pub score: Seq<char>,
    pub housenumber: Option<Seq<char>>,
    pub id: Seq<char>,
    pub kind: Seq<char>,
    pub x: Seq<char>,
    pub y: Seq<char>,
    pub importance: Seq<char>,
    pub name: Seq<char>,
    pub postcode: Seq<char>,
    pub citycode: Seq<char>,
    pub context: Seq<char>,
    pub street: Option<Seq<char>>,
}

pub ghost struct FeatureView {
    pub kind: Seq<char>,
    pub geometry: GeometryView,
    pub properties: PropertiesView,
}

pub ghost struct AddressResultView {
    pub kind: Seq<char>,
    pub version: Seq<char>,
    pub features: Seq<FeatureView>,
}

/// The content of a text that may be absent.
pub open spec fn optional_text(text: Option<String>) -> Option<Seq<char>> {
    match text {
        Some(text) => Some(text@),
        None => None,
    }
}

impl View for Decimal {
    type V = Seq<char>;

    open spec fn view(&self) -> Seq<char> {
        self.text@
    }
}

impl View for Coordinates {
    type V = CoordinatesView;

    open spec fn view(&self) -> CoordinatesView {
        CoordinatesView { longitude: self.longitude@, latitude: self.latitude@ }
    }
}

impl View for Geometry {
    type V = GeometryView;

    open spec fn view(&self) -> GeometryView {
        GeometryView { kind: self.kind@, coordinates: self.coordinates@ }
    }
}

impl View for Properties {
    type V = PropertiesView;

    open spec fn view(&self) -> PropertiesView {
        PropertiesView {
            label: self.label@,
            score: self.score@,
            housenumber: optional_text(self.housenumber),
            id: self.id@,
            kind: self.kind@,
            x: self.x@,
            y: self.y@,
            importance: self.importance@,
            name: self.name@,
            postcode: self.postcode@,
            citycode: self.citycode@,
            context: self.context@,
            street: optional_text(self.street),
        }
    }
}

impl View for Feature {
    type V = FeatureView;

    open spec fn view(&self) -> FeatureView {
        FeatureView { kind: self.kind@, geometry: self.geometry@, properties: self.properties@ }
    }
}

impl View for AddressResult {
    type V = AddressResultView;

    open spec fn view(&self) -> AddressResultView {
        AddressResultView {
            kind: self.kind@,
            version: self.version@,
            features: Seq::new(self.features.len() as nat, |i: int| self.features[i]@),
        }
    }
}

} // verus!
