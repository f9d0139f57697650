//! Reading an address result out of a JSON document.
//!
//! A record is read from an object by the names of its members. Members whose
//! names the record does not know are passed over. A name that the record
//! needs must stand in the object exactly once, with a value of the right
//! kind; a text that may be absent may also be `null`.

use vstd::prelude::*;

use crate::address::{
    optional_text, AddressResult, AddressResultView, Coordinates, CoordinatesView, Decimal,
    Feature, FeatureView, Geometry, GeometryView, Properties, PropertiesView,
};
use crate::error::Error;
use crate::json::{items_view, lemma_array_view, lemma_object_view, members_view, Json, JsonView, Member, MemberView};

verus! {

/// What a search for a name among the members of an object comes to.
pub ghost enum Lookup {
    /// No member has the name.
    Missing,
    /// Exactly one member has the name; this is its value.
    Found(JsonView),
    /// Two members or more have the name.
    Repeated,
}

/// The test for a member's name.
pub open spec fn is_named(name: Seq<char>) -> spec_fn(MemberView) -> bool {
    |member: MemberView| member.name == name
}

/// Looks a name up among the members of an object.
pub open spec fn lookup(members: Seq<MemberView>, name: Seq<char>) -> Lookup {
    let named = members.filter(is_named(name));
    if named.len() == 0 {
        Lookup::Missing
    } else if named.len() == 1 {
        Lookup::Found(named[0].value)
    } else {
        Lookup::Repeated
    }
}

/// The text under a name that must be there.
pub open spec fn text_member(members: Seq<MemberView>, name: Seq<char>) -> Option<Seq<char>> {
    match lookup(members, name) {
        Lookup::Found(JsonView::Text(text)) => Some(text),
        _ => None,
    }
}

/// The number under a name that must be there.
pub open spec fn number_member(members: Seq<MemberView>, name: Seq<char>) -> Option<Seq<char>> {
    match lookup(members, name) {
        Lookup::Found(JsonView::Number(text)) => Some(text),
        _ => None,
    }
}

/// The text under a name that may be missing or `null`. The outer `None`
/// stands for a mismatch, the inner one for an absent text.
pub open spec fn optional_text_member(members: Seq<MemberView>, name: Seq<char>) -> Option<
    Option<Seq<char>>,
> {
    match lookup(members, name) {
        Lookup::Missing => Some(None),
        Lookup::Found(JsonView::Null) => Some(None),
        Lookup::Found(JsonView::Text(text)) => Some(Some(text)),
        _ => None,
    }
}

/// The position that an array of exactly two numbers gives.
pub open spec fn coordinates_of(json: JsonView) -> Option<CoordinatesView> {
    match json {
        JsonView::Array(items) => if items.len() == 2 {
            match (items[0], items[1]) {
                (JsonView::Number(first), JsonView::Number(second)) => Some(
                    CoordinatesView { longitude: first, latitude: second },
                ),
                _ => None,
            }
        } else {
            None
        },
        _ => None,
    }
}

/// The geometry that an object gives: its `type`, and its `coordinates`.
pub open spec fn geometry_of(json: JsonView) -> Option<GeometryView> {
    match json {
        JsonView::Object(members) => match (
            text_member(members, "type"@),
            lookup(members, "coordinates"@),
        ) {
            (Some(kind), Lookup::Found(position)) => match coordinates_of(position) {
                Some(coordinates) => Some(GeometryView { kind, coordinates }),
                None => None,
            },
            _ => None,
        },
        _ => None,
    }
}

/// The properties that an object gives.
pub open spec fn properties_of(json: JsonView) -> Option<PropertiesView> {
    match json {
        JsonView::Object(members) => {
            let label = text_member(members, "label"@);
            let score = number_member(members, "score"@);
            let housenumber = optional_text_member(members, "housenumber"@);
            let id = text_member(members, "id"@);
            let kind = text_member(members, "type"@);
            let x = number_member(members, "x"@);
            let y = number_member(members, "y"@);
            let importance = number_member(members, "importance"@);
            let name = text_member(members, "name"@);
            let postcode = text_member(members, "postcode"@);
            let citycode = text_member(members, "citycode"@);
            let context = text_member(members, "context"@);
            let street = optional_text_member(members, "street"@);
            if label is Some && score is Some && housenumber is Some && id is Some && kind is Some
                && x is Some && y is Some && importance is Some && name is Some && postcode is Some
                && citycode is Some && context is Some && street is Some {
                Some(
                    PropertiesView {
                        label: label->Some_0,
                        score: score->Some_0,
                        housenumber: housenumber->Some_0,
                        id: id->Some_0,
                        kind: kind->Some_0,
                        x: x->Some_0,
                        y: y->Some_0,
                        importance: importance->Some_0,
                        name: name->Some_0,
                        postcode: postcode->Some_0,
                        citycode: citycode->Some_0,
                        context: context->Some_0,
                        street: street->Some_0,
                    },
                )
            } else {
                None
            }
        },
        _ => None,
    }
}

/// The match that an object gives: its `type`, its `geometry` and its
/// `properties`.
pub open spec fn feature_of(json: JsonView) -> Option<FeatureView> {
    match json {
        JsonView::Object(members) => match (
            text_member(members, "type"@),
            lookup(members, "geometry"@),
            lookup(members, "properties"@),
        ) {
            (Some(kind), Lookup::Found(place), Lookup::Found(details)) => match (
                geometry_of(place),
                properties_of(details),
            ) {
                (Some(geometry), Some(properties)) => Some(
                    FeatureView { kind, geometry, properties },
                ),
                _ => None,
            },
            _ => None,
        },
        _ => None,
    }
}

/// The matches that a list of documents gives, where each of them gives one.
pub open spec fn features_of(items: Seq<JsonView>) -> Option<Seq<FeatureView>> {
    if forall|i: int| 0 <= i < items.len() ==> feature_of(#[trigger] items[i]) is Some {
        Some(Seq::new(items.len(), |i: int| feature_of(items[i])->Some_0))
    } else {
        None
    }
}

/// The address result that a document gives: an object with the texts `type`
/// and `version` and with the array `features`, which may be empty.
pub open spec fn address_result_of(json: JsonView) -> Option<AddressResultView> {
    match json {
        JsonView::Object(members) => match (
            text_member(members, "type"@),
            text_member(members, "version"@),
            lookup(members, "features"@),
        ) {
            (Some(kind), Some(version), Lookup::Found(JsonView::Array(items))) => match features_of(
                items,
            ) {
                Some(features) => Some(AddressResultView { kind, version, features }),
                None => None,
            },
            _ => None,
        },
        _ => None,
    }
}

/// Whether `result` is the outcome owed where a record with the content
/// `expected` was to be read: that record, or the decoding error where there
/// is none.
pub open spec fn is_decoded<T: View>(result: Result<T, Error>, expected: Option<T::V>) -> bool {
    match expected {
        Some(content) => result is Ok && result->Ok_0@ == content,
        None => result is Err && result->Err_0 == Error::UnmarshalJsonError,
    }
}

/// A member under another name does not change what the search for a name
/// finds, wherever among the members it stands.
pub proof fn lemma_other_member_ignored(
    members: Seq<MemberView>,
    at: int,
    other: MemberView,
    name: Seq<char>,
)
    requires
        0 <= at <= members.len(),
        other.name != name,
    ensures
        lookup(members.insert(at, other), name) == lookup(members, name),
{
    let test = is_named(name);
    let before = members.take(at);
    let after = members.skip(at);
    assert(members.insert(at, other) =~= before + seq![other] + after);
    assert(members =~= before + after);
    Seq::filter_distributes_over_add(before + seq![other], after, test);
    Seq::filter_distributes_over_add(before, seq![other], test);
    Seq::filter_distributes_over_add(before, after, test);
    assert(seq![other].filter(test) =~= Seq::<MemberView>::empty()) by {
        reveal_with_fuel(Seq::filter, 2);
        assert(!test(other));
        assert(seq![other].last() == other);
    }
    assert(before.filter(test) + Seq::<MemberView>::empty() =~= before.filter(test));
}

/// A document with a member that an address result does not know gives what
/// the document without that member gives.
pub proof fn lemma_unknown_member_ignored(members: Seq<MemberView>, at: int, other: MemberView)
    requires
        0 <= at <= members.len(),
        other.name != "type"@,
        other.name != "version"@,
        other.name != "features"@,
    ensures
        address_result_of(JsonView::Object(members.insert(at, other))) == address_result_of(
            JsonView::Object(members),
        ),
{
    lemma_other_member_ignored(members, at, other, "type"@);
    lemma_other_member_ignored(members, at, other, "version"@);
    lemma_other_member_ignored(members, at, other, "features"@);
}

/// A document whose `features` array is empty is an address result with no
/// match: it is read, not refused.
pub proof fn lemma_empty_features_accepted(
    members: Seq<MemberView>,
    kind: Seq<char>,
    version: Seq<char>,
)
    requires
        lookup(members, "type"@) == Lookup::Found(JsonView::Text(kind)),
        lookup(members, "version"@) == Lookup::Found(JsonView::Text(version)),
        lookup(members, "features"@) == Lookup::Found(JsonView::Array(Seq::empty())),
    ensures
        address_result_of(JsonView::Object(members)) == Some(
            AddressResultView { kind, version, features: Seq::empty() },
        ),
{
    assert(features_of(Seq::empty())->Some_0 =~= Seq::<FeatureView>::empty());
}

/// The outcome of the search for a name, as the code holds it.
enum Found<'a> {
    Missing,
    One(&'a Json),
    Repeated,
}

impl<'a> Found<'a> {
    spec fn outcome(self) -> Lookup {
        match self {
            Found::Missing => Lookup::Missing,
            Found::One(json) => Lookup::Found(json@),
            Found::Repeated => Lookup::Repeated,
        }
    }
}

fn find<'a>(members: &'a Vec<Member>, name: &str) -> (found: Found<'a>)
    ensures
        found.outcome() == lookup(members_view(members@), name@),
{
    let wanted = name.to_owned();
    let mut found = Found::Missing;
    let ghost views = members_view(members@);
    let mut i: usize = 0;
    while i < members.len()
        invariant
            i <= members.len(),
            wanted@ == name@,
            views == members_view(members@),
            found.outcome() == lookup(views.take(i as int), name@),
        decreases members.len() - i,
    {
        proof {
            reveal(Seq::filter);
            assert(views.take(i + 1).drop_last() =~= views.take(i as int));
            assert(views.take(i + 1).last() == members[i as int]@);
        }
        if members[i].name == wanted {
            found = match found {
                Found::Missing => Found::One(&members[i].value),
                _ => Found::Repeated,
            };
        }
        i += 1;
    }
    proof {
        assert(views.take(i as int) =~= views);
    }
    found
}

fn text_of(members: &Vec<Member>, name: &str) -> (text: Option<String>)
    ensures
        optional_text(text) == text_member(members_view(members@), name@),
{
    match find(members, name) {
        Found::One(Json::Text(text)) => Some(text.clone()),
        _ => None,
    }
}

fn number_of(members: &Vec<Member>, name: &str) -> (number: Option<Decimal>)
    ensures
        match number {
            Some(number) => number_member(members_view(members@), name@) == Some(number@),
            None => number_member(members_view(members@), name@) is None,
        },
{
    match find(members, name) {
        Found::One(Json::Number(text)) => Some(Decimal { text: text.clone() }),
        _ => None,
    }
}

fn optional_text_of(members: &Vec<Member>, name: &str) -> (text: Option<Option<String>>)
    ensures
        match text {
            Some(text) => optional_text_member(members_view(members@), name@) == Some(
                optional_text(text),
            ),
            None => optional_text_member(members_view(members@), name@) is None,
        },
{
    match find(members, name) {
        Found::Missing => Some(None),
        Found::One(Json::Null) => Some(None),
        Found::One(Json::Text(text)) => Some(Some(text.clone())),
        _ => None,
    }
}

impl Coordinates {
    /// Reads a position from an array of exactly two numbers.
    pub fn from_json(json: &Json) -> (result: Result<Coordinates, Error>)
        ensures
            is_decoded(result, coordinates_of(json@)),
    {
        match json {
            Json::Array(items) => {
                proof {
                    lemma_array_view(*items);
                }
                if items.len() != 2 {
                    return Err(Error::UnmarshalJsonError);
                }
                match (&items[0], &items[1]) {
                    (Json::Number(first), Json::Number(second)) => Ok(
                        Coordinates {
                            longitude: Decimal { text: first.clone() },
                            latitude: Decimal { text: second.clone() },
                        },
                    ),
                    _ => Err(Error::UnmarshalJsonError),
                }
            },
            _ => Err(Error::UnmarshalJsonError),
        }
    }
}

impl Geometry {
    /// Reads a geometry from an object.
    pub fn from_json(json: &Json) -> (result: Result<Geometry, Error>)
        ensures
            is_decoded(result, geometry_of(json@)),
    {
        match json {
            Json::Object(members) => {
                proof {
                    lemma_object_view(*members);
                }
                let kind = match text_of(members, "type") {
                    Some(kind) => kind,
                    None => return Err(Error::UnmarshalJsonError),
                };
                let coordinates = match find(members, "coordinates") {
                    Found::One(position) => Coordinates::from_json(position)?,
                    _ => return Err(Error::UnmarshalJsonError),
                };
                Ok(Geometry { kind, coordinates })
            },
            _ => Err(Error::UnmarshalJsonError),
        }
    }
}

impl Properties {
    /// Reads the properties of a match from an object.
    pub fn from_json(json: &Json) -> (result: Result<Properties, Error>)
        ensures
            is_decoded(result, properties_of(json@)),
    {
        match json {
            Json::Object(members) => {
                proof {
                    lemma_object_view(*members);
                }
                let label = text_of(members, "label");
                let score = number_of(members, "score");
                let housenumber = optional_text_of(members, "housenumber");
                let id = text_of(members, "id");
                let kind = text_of(members, "type");
                let x = number_of(members, "x");
                let y = number_of(members, "y");
                let importance = number_of(members, "importance");
                let name = text_of(members, "name");
                let postcode = text_of(members, "postcode");
                let citycode = text_of(members, "citycode");
                let context = text_of(members, "context");
                let street = optional_text_of(members, "street");
                match (
                    label,
                    score,
                    housenumber,
                    id,
                    kind,
                    x,
                    y,
                    importance,
                    name,
                    postcode,
                    citycode,
                    context,
                    street,
                ) {
                    (
                        Some(label),
                        Some(score),
                        Some(housenumber),
                        Some(id),
                        Some(kind),
                        Some(x),
                        Some(y),
                        Some(importance),
                        Some(name),
                        Some(postcode),
                        Some(citycode),
                        Some(context),
                        Some(street),
                    ) => Ok(
                        Properties {
                            label,
                            score,
                            housenumber,
                            id,
                            kind,
                            x,
                            y,
                            importance,
                            name,
                            postcode,
                            citycode,
                            context,
                            street,
                        },
                    ),
                    _ => Err(Error::UnmarshalJsonError),
                }
            },
            _ => Err(Error::UnmarshalJsonError),
        }
    }
}

impl Feature {
    /// Reads one match from an object.
    pub fn from_json(json: &Json) -> (result: Result<Feature, Error>)
        ensures
            is_decoded(result, feature_of(json@)),
    {
        match json {
            Json::Object(members) => {
                proof {
                    lemma_object_view(*members);
                }
                let kind = match text_of(members, "type") {
                    Some(kind) => kind,
                    None => return Err(Error::UnmarshalJsonError),
                };
                let place = match find(members, "geometry") {
                    Found::One(place) => place,
                    _ => return Err(Error::UnmarshalJsonError),
                };
                let details = match find(members, "properties") {
                    Found::One(details) => details,
                    _ => return Err(Error::UnmarshalJsonError),
                };
                let geometry = Geometry::from_json(place)?;
                let properties = Properties::from_json(details)?;
                Ok(Feature { kind, geometry, properties })
            },
            _ => Err(Error::UnmarshalJsonError),
        }
    }
}

impl AddressResult {
    /// Reads a whole address result from a document.
    pub fn from_json(json: &Json) -> (result: Result<AddressResult, Error>)
        ensures
            is_decoded(result, address_result_of(json@)),
    {
        match json {
            Json::Object(members) => {
                proof {
                    lemma_object_view(*members);
                }
                let kind = match text_of(members, "type") {
                    Some(kind) => kind,
                    None => return Err(Error::UnmarshalJsonError),
                };
                let version = match text_of(members, "version") {
                    Some(version) => version,
                    None => return Err(Error::UnmarshalJsonError),
                };
                let items = match find(members, "features") {
                    Found::One(Json::Array(items)) => items,
                    _ => return Err(Error::UnmarshalJsonError),
                };
                proof {
                    lemma_array_view(*items);
                }
                let ghost views = items_view(items@);
                let mut features: Vec<Feature> = Vec::new();
                let mut i: usize = 0;
                while i < items.len()
                    invariant
                        i <= items.len(),
                        views == items_view(items@),
                        json@ == JsonView::Object(members_view(members@)),
                        lookup(members_view(members@), "features"@) == Lookup::Found(
                            JsonView::Array(views),
                        ),
                        features.len() == i,
                        forall|k: int| 0 <= k < i ==> feature_of(#[trigger] views[k]) == Some(features[k]@),
                    decreases items.len() - i,
                {
                    match Feature::from_json(&items[i]) {
                        Ok(feature) => features.push(feature),
                        Err(error) => {
                            assert(feature_of(views[i as int]) is None);
                            return Err(error);
                        },
                    }
                    i += 1;
                }
                let result = AddressResult { kind, version, features };
                proof {
                    assert(result@.features =~= features_of(views)->Some_0);
                }
                Ok(result)
            },
            _ => Err(Error::UnmarshalJsonError),
        }
    }
}

} // verus!
