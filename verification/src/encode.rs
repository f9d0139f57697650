//! Writing an address result as a JSON document, and the law that reading it
//! back gives the same result.

use vstd::prelude::*;

use crate::address::{
    optional_text, AddressResult, AddressResultView, Coordinates, CoordinatesView, Decimal, Feature, FeatureView,
    Geometry, GeometryView, Properties, PropertiesView,
};
use crate::decode::{
    address_result_of, coordinates_of, feature_of, features_of, geometry_of, is_named, lookup,
    number_member, optional_text_member, properties_of, text_member, Lookup,
};
use crate::json::{
    items_view, lemma_array_view, lemma_object_view, members_view, Json, JsonView, Member,
    MemberView,
};

verus! {

/// A text that may be absent, as a document: the text, or `null`.
pub open spec fn optional_text_json(text: Option<Seq<char>>) -> JsonView {
    match text {
        Some(text) => JsonView::Text(text),
        None => JsonView::Null,
    }
}

/// A position as a document: the array of its two numbers.
pub open spec fn coordinates_json(coordinates: CoordinatesView) -> JsonView {
    JsonView::Array(
        seq![JsonView::Number(coordinates.longitude), JsonView::Number(coordinates.latitude)],
    )
}

/// A geometry as a document.
pub open spec fn geometry_json(geometry: GeometryView) -> JsonView {
    JsonView::Object(
        seq![
            MemberView { name: "type"@, value: JsonView::Text(geometry.kind) },
            MemberView { name: "coordinates"@, value: coordinates_json(geometry.coordinates) },
        ],
    )
}

/// The properties of a match as a document, the members in the order of the
/// record's fields.
pub open spec fn properties_json(properties: PropertiesView) -> JsonView {
    JsonView::Object(
        seq![
            MemberView { name: "label"@, value: JsonView::Text(properties.label) },
            MemberView { name: "score"@, value: JsonView::Number(properties.score) },
            MemberView { name: "housenumber"@, value: optional_text_json(properties.housenumber) },
            MemberView { name: "id"@, value: JsonView::Text(properties.id) },
            MemberView { name: "type"@, value: JsonView::Text(properties.kind) },
            MemberView { name: "x"@, value: JsonView::Number(properties.x) },
            MemberView { name: "y"@, value: JsonView::Number(properties.y) },
            MemberView { name: "importance"@, value: JsonView::Number(properties.importance) },
            MemberView { name: "name"@, value: JsonView::Text(properties.name) },
            MemberView { name: "postcode"@, value: JsonView::Text(properties.postcode) },
            MemberView { name: "citycode"@, value: JsonView::Text(properties.citycode) },
            MemberView { name: "context"@, value: JsonView::Text(properties.context) },
            MemberView { name: "street"@, value: optional_text_json(properties.street) },
        ],
    )
}

/// A match as a document.
pub open spec fn feature_json(feature: FeatureView) -> JsonView {
    JsonView::Object(
        seq![
            MemberView { name: "type"@, value: JsonView::Text(feature.kind) },
            MemberView { name: "geometry"@, value: geometry_json(feature.geometry) },
            MemberView { name: "properties"@, value: properties_json(feature.properties) },
        ],
    )
}

/// An address result as a document.
pub open spec fn address_result_json(result: AddressResultView) -> JsonView {
    JsonView::Object(
        seq![
            MemberView { name: "type"@, value: JsonView::Text(result.kind) },
            MemberView { name: "version"@, value: JsonView::Text(result.version) },
            MemberView {
                name: "features"@,
                value: JsonView::Array(
                    Seq::new(result.features.len(), |i: int| feature_json(result.features[i])),
                ),
            },
        ],
    )
}

fn member(name: &str, value: Json) -> (member: Member)
    ensures
        member@ == (MemberView { name: name@, value: value@ }),
{
    Member { name: name.to_owned(), value }
}

fn text_json(text: &String) -> (json: Json)
    ensures
        json@ == JsonView::Text(text@),
{
    Json::Text(text.clone())
}

fn number_json(number: &Decimal) -> (json: Json)
    ensures
        json@ == JsonView::Number(number@),
{
    Json::Number(number.text.clone())
}

fn optional_json(text: &Option<String>) -> (json: Json)
    ensures
        json@ == optional_text_json(optional_text(*text)),
{
    match text {
        Some(text) => Json::Text(text.clone()),
        None => Json::Null,
    }
}

impl Coordinates {
    /// Writes the position as the array of its two numbers.
    pub fn to_json(&self) -> (json: Json)
        ensures
            json@ == coordinates_json(self@),
    {
        let mut items: Vec<Json> = Vec::new();
        items.push(number_json(&self.longitude));
        items.push(number_json(&self.latitude));
        proof {
            lemma_array_view(items);
            assert(items_view(items@) =~= coordinates_json(self@)->Array_0);
        }
        Json::Array(items)
    }
}

impl Geometry {
    /// Writes the geometry as an object.
    pub fn to_json(&self) -> (json: Json)
        ensures
            json@ == geometry_json(self@),
    {
        let mut members: Vec<Member> = Vec::new();
        members.push(member("type", text_json(&self.kind)));
        members.push(member("coordinates", self.coordinates.to_json()));
        proof {
            lemma_object_view(members);
            assert(members_view(members@) =~= geometry_json(self@)->Object_0);
        }
        Json::Object(members)
    }
}

impl Properties {
    /// Writes the properties as an object; a text that is absent is written
    /// as `null`.
    pub fn to_json(&self) -> (json: Json)
        ensures
            json@ == properties_json(self@),
    {
        let mut members: Vec<Member> = Vec::new();
        members.push(member("label", text_json(&self.label)));
        members.push(member("score", number_json(&self.score)));
        members.push(member("housenumber", optional_json(&self.housenumber)));
        members.push(member("id", text_json(&self.id)));
        members.push(member("type", text_json(&self.kind)));
        members.push(member("x", number_json(&self.x)));
        members.push(member("y", number_json(&self.y)));
        members.push(member("importance", number_json(&self.importance)));
        members.push(member("name", text_json(&self.name)));
        members.push(member("postcode", text_json(&self.postcode)));
        members.push(member("citycode", text_json(&self.citycode)));
        members.push(member("context", text_json(&self.context)));
        members.push(member("street", optional_json(&self.street)));
        proof {
            lemma_object_view(members);
            assert(members_view(members@) =~= properties_json(self@)->Object_0);
        }
        Json::Object(members)
    }
}

impl Feature {
    /// Writes the match as an object.
    pub fn to_json(&self) -> (json: Json)
        ensures
            json@ == feature_json(self@),
    {
        let mut members: Vec<Member> = Vec::new();
        members.push(member("type", text_json(&self.kind)));
        members.push(member("geometry", self.geometry.to_json()));
        members.push(member("properties", self.properties.to_json()));
        proof {
            lemma_object_view(members);
            assert(members_view(members@) =~= feature_json(self@)->Object_0);
        }
        Json::Object(members)
    }
}

impl AddressResult {
    /// Writes the address result as a document.
    pub fn to_json(&self) -> (json: Json)
        ensures
            json@ == address_result_json(self@),
    {
        let mut items: Vec<Json> = Vec::new();
        let mut i: usize = 0;
        while i < self.features.len()
            invariant
                i <= self.features.len(),
                items.len() == i,
                forall|k: int| 0 <= k < i ==> (#[trigger] items[k])@ == feature_json(self.features[k]@),
            decreases self.features.len() - i,
        {
            items.push(self.features[i].to_json());
            i += 1;
        }
        proof {
            lemma_array_view(items);
            assert(items_view(items@) =~= Seq::new(
                self@.features.len(),
                |i: int| feature_json(self@.features[i]),
            ));
        }
        let mut members: Vec<Member> = Vec::new();
        members.push(member("type", text_json(&self.kind)));
        members.push(member("version", text_json(&self.version)));
        members.push(member("features", Json::Array(items)));
        proof {
            lemma_object_view(members);
            assert(members_view(members@) =~= address_result_json(self@)->Object_0);
        }
        Json::Object(members)
    }
}

/// Where no member has the name, the search finds none.
pub proof fn lemma_lookup_missing(members: Seq<MemberView>, name: Seq<char>)
    requires
        forall|j: int| 0 <= j < members.len() ==> (#[trigger] members[j]).name != name,
    ensures
        members.filter(is_named(name)).len() == 0,
        lookup(members, name) == Lookup::Missing,
    decreases members.len(),
{
    reveal(Seq::filter);
    if members.len() > 0 {
        lemma_lookup_missing(members.drop_last(), name);
    }
}

/// Where exactly one member has the name, the search finds its value.
pub proof fn lemma_lookup_found(members: Seq<MemberView>, name: Seq<char>, at: int)
    requires
        0 <= at < members.len(),
        members[at].name == name,
        forall|j: int| 0 <= j < members.len() && j != at ==> (#[trigger] members[j]).name != name,
    ensures
        lookup(members, name) == Lookup::Found(members[at].value),
    decreases members.len(),
{
    reveal(Seq::filter);
    let rest = members.drop_last();
    if at == members.len() - 1 {
        lemma_lookup_missing(rest, name);
        assert(members.filter(is_named(name)) =~= seq![members[at]]);
    } else {
        lemma_lookup_found(rest, name, at);
        assert(members.filter(is_named(name)) == rest.filter(is_named(name)));
    }
}

/// The length and the first character of each member name: enough to tell
/// any two of them apart.
proof fn lemma_member_names()
    ensures
        "type"@.len() == 4 && "type"@[0] == 't',
        "version"@.len() == 7 && "version"@[0] == 'v',
        "features"@.len() == 8 && "features"@[0] == 'f',
        "geometry"@.len() == 8 && "geometry"@[0] == 'g',
        "properties"@.len() == 10 && "properties"@[0] == 'p',
        "coordinates"@.len() == 11 && "coordinates"@[0] == 'c',
        "label"@.len() == 5 && "label"@[0] == 'l',
        "score"@.len() == 5 && "score"@[0] == 's',
        "housenumber"@.len() == 11 && "housenumber"@[0] == 'h',
        "id"@.len() == 2 && "id"@[0] == 'i',
        "x"@.len() == 1 && "x"@[0] == 'x',
        "y"@.len() == 1 && "y"@[0] == 'y',
        "importance"@.len() == 10 && "importance"@[0] == 'i',
        "name"@.len() == 4 && "name"@[0] == 'n',
        "postcode"@.len() == 8 && "postcode"@[0] == 'p',
        "citycode"@.len() == 8 && "citycode"@[0] == 'c',
        "context"@.len() == 7 && "context"@[0] == 'c',
        "street"@.len() == 6 && "street"@[0] == 's',
{
    reveal_strlit("type");
    reveal_strlit("version");
    reveal_strlit("features");
    reveal_strlit("geometry");
    reveal_strlit("properties");
    reveal_strlit("coordinates");
    reveal_strlit("label");
    reveal_strlit("score");
    reveal_strlit("housenumber");
    reveal_strlit("id");
    reveal_strlit("x");
    reveal_strlit("y");
    reveal_strlit("importance");
    reveal_strlit("name");
    reveal_strlit("postcode");
    reveal_strlit("citycode");
    reveal_strlit("context");
    reveal_strlit("street");
}

/// Reading back a position that was written gives the position.
pub proof fn lemma_coordinates_round_trip(coordinates: CoordinatesView)
    ensures
        coordinates_of(coordinates_json(coordinates)) == Some(coordinates),
{
}

/// Reading back a geometry that was written gives the geometry.
pub proof fn lemma_geometry_round_trip(geometry: GeometryView)
    ensures
        geometry_of(geometry_json(geometry)) == Some(geometry),
{
    lemma_member_names();
    let members = geometry_json(geometry)->Object_0;
    lemma_lookup_found(members, "type"@, 0);
    lemma_lookup_found(members, "coordinates"@, 1);
    lemma_coordinates_round_trip(geometry.coordinates);
}

/// Reading back the properties that were written gives the properties.
pub proof fn lemma_properties_round_trip(properties: PropertiesView)
    ensures
        properties_of(properties_json(properties)) == Some(properties),
{
    lemma_member_names();
    let members = properties_json(properties)->Object_0;
    lemma_lookup_found(members, "label"@, 0);
    lemma_lookup_found(members, "score"@, 1);
    lemma_lookup_found(members, "housenumber"@, 2);
    lemma_lookup_found(members, "id"@, 3);
    lemma_lookup_found(members, "type"@, 4);
    lemma_lookup_found(members, "x"@, 5);
    lemma_lookup_found(members, "y"@, 6);
    lemma_lookup_found(members, "importance"@, 7);
    lemma_lookup_found(members, "name"@, 8);
    lemma_lookup_found(members, "postcode"@, 9);
    lemma_lookup_found(members, "citycode"@, 10);
    lemma_lookup_found(members, "context"@, 11);
    lemma_lookup_found(members, "street"@, 12);
}

/// Reading back a match that was written gives the match.
pub proof fn lemma_feature_round_trip(feature: FeatureView)
    ensures
        feature_of(feature_json(feature)) == Some(feature),
{
    lemma_member_names();
    let members = feature_json(feature)->Object_0;
    lemma_lookup_found(members, "type"@, 0);
    lemma_lookup_found(members, "geometry"@, 1);
    lemma_lookup_found(members, "properties"@, 2);
    lemma_geometry_round_trip(feature.geometry);
    lemma_properties_round_trip(feature.properties);
}

/// Reading back an address result that was written gives the address result,
/// whatever it holds: every field comes back as it went in.
pub proof fn lemma_address_result_round_trip(result: AddressResultView)
    ensures
        address_result_of(address_result_json(result)) == Some(result),
{
    lemma_member_names();
    let members = address_result_json(result)->Object_0;
    lemma_lookup_found(members, "type"@, 0);
    lemma_lookup_found(members, "version"@, 1);
    lemma_lookup_found(members, "features"@, 2);
    let items = Seq::new(result.features.len(), |i: int| feature_json(result.features[i]));
    assert forall|i: int| 0 <= i < items.len() implies feature_of(#[trigger] items[i]) == Some(
        result.features[i],
    ) by {
        lemma_feature_round_trip(result.features[i]);
    }
    assert(features_of(items)->Some_0 =~= result.features);
}

} // verus!
