//! The two query URLs of the service.

use vstd::prelude::*;
use vstd::string::StringExecFns;
use vstd::utf8::{encode_utf8, encode_utf8_decode_utf8};

use crate::escape::{
    is_query_char, lemma_percent_encoded_is_injective, lemma_percent_encoded_is_safe,
    percent_encode, percent_encoded,
};

verus! {

/// Where a forward search is sent; the escaped query follows.
pub const API_URL_SEARCH: &'static str = "https://api-adresse.data.gouv.fr/search/?q=";

/// Where a reverse search is sent; the two coordinates follow.
pub const API_URL_REVERSE: &'static str = "https://api-adresse.data.gouv.fr/reverse/?";

/// The URL of a forward search: the search endpoint, then the percent-encoded
/// UTF-8 bytes of the query.
pub open spec fn search_url_of(query: Seq<char>) -> Seq<char> {
    API_URL_SEARCH@ + percent_encoded(encode_utf8(query))
}

/// The URL of a reverse search for a longitude and a latitude given as text.
pub open spec fn reverse_url_of(lon: Seq<char>, lat: Seq<char>) -> Seq<char> {
    API_URL_REVERSE@ + "lon="@ + lon + "&lat="@ + lat
}

/// Builds the URL that searches for an address given as free text.
pub fn search_url(query: &str) -> (url: String)
    ensures
        url@ == search_url_of(query@),
{
    let mut url = API_URL_SEARCH.to_owned();
    let encoded = percent_encode(query);
    url.append(encoded.as_str());
    url
}

/// Builds the URL that searches for the address nearest to a point. Each
/// coordinate is given as the text that is to stand in the URL.
pub fn reverse_url(lon: &str, lat: &str) -> (url: String)
    ensures
        url@ == reverse_url_of(lon@, lat@),
{
    let mut url = API_URL_REVERSE.to_owned();
    url.append("lon=");
    url.append(lon);
    url.append("&lat=");
    url.append(lat);
    url
}

/// Two queries with the same search URL are the same query: the URL loses
/// nothing of the text it was built from.
pub proof fn lemma_search_url_is_injective(first: Seq<char>, second: Seq<char>)
    requires
        search_url_of(first) == search_url_of(second),
    ensures
        first == second,
{
    let base = API_URL_SEARCH@;
    let a = percent_encoded(encode_utf8(first));
    let b = percent_encoded(encode_utf8(second));
    assert(a =~= (base + a).skip(base.len() as int));
    assert(b =~= (base + b).skip(base.len() as int));
    lemma_percent_encoded_is_injective(encode_utf8(first), encode_utf8(second));
    encode_utf8_decode_utf8(first);
    encode_utf8_decode_utf8(second);
}

/// After its endpoint, a search URL holds nothing but `%` and unreserved
/// characters, whatever the query.
pub proof fn lemma_search_url_is_escaped(query: Seq<char>)
    ensures
        search_url_of(query).len() >= API_URL_SEARCH@.len(),
        forall|i: int|
            API_URL_SEARCH@.len() <= i < search_url_of(query).len() ==> is_query_char(
                #[trigger] search_url_of(query)[i],
            ),
{
    let base = API_URL_SEARCH@;
    let encoded = percent_encoded(encode_utf8(query));
    lemma_percent_encoded_is_safe(encode_utf8(query));
    assert forall|i: int| base.len() <= i < search_url_of(query).len() implies is_query_char(
        #[trigger] search_url_of(query)[i],
    ) by {
        assert(search_url_of(query)[i] == encoded[i - base.len()]);
    }
}

/// Whether `pattern` stands in `text` at position `at`.
pub open spec fn occurs_at(text: Seq<char>, pattern: Seq<char>, at: int) -> bool {
    &&& 0 <= at
    &&& at + pattern.len() <= text.len()
    &&& text.subrange(at, at + pattern.len()) == pattern
}

/// Whether a character belongs to decimal notation: a digit, a sign, the
/// point, or the mark of an exponent.
pub open spec fn is_decimal_char(c: char) -> bool {
    ||| '0' <= c <= '9'
    ||| c == '-'
    ||| c == '+'
    ||| c == '.'
    ||| c == 'e'
    ||| c == 'E'
}

/// Whether a text is made of the characters of decimal notation only.
pub open spec fn is_decimal_text(text: Seq<char>) -> bool {
    forall|i: int| 0 <= i < text.len() ==> is_decimal_char(#[trigger] text[i])
}

/// A reverse URL built from two coordinates in decimal notation holds the
/// parameter `lon=` exactly once, right after the endpoint, and the parameter
/// `lat=` exactly once, right after the longitude and its `&`.
pub proof fn lemma_reverse_url_parameters(lon: Seq<char>, lat: Seq<char>)
    requires
        is_decimal_text(lon),
        is_decimal_text(lat),
    ensures
        forall|at: int|
            occurs_at(reverse_url_of(lon, lat), "lon="@, at) <==> at == API_URL_REVERSE@.len(),
        forall|at: int|
            occurs_at(reverse_url_of(lon, lat), "lat="@, at) <==> at == API_URL_REVERSE@.len() + 4
                + lon.len() + 1,
{
    reveal_strlit("https://api-adresse.data.gouv.fr/reverse/?");
    reveal_strlit("lon=");
    reveal_strlit("&lat=");
    reveal_strlit("lat=");
    let base = API_URL_REVERSE@;
    let url = reverse_url_of(lon, lat);
    let first = base.len() as int;
    let second = first + 4 + lon.len() + 1;
    assert(base.len() == 42);
    assert(forall|i: int| 0 <= i < 42 ==> base[i] != '=');
    assert forall|at: int| occurs_at(url, "lon="@, at) <==> at == first by {
        if occurs_at(url, "lon="@, at) {
            let found = url.subrange(at, at + 4);
            assert(found[2] == 'n' && found[3] == '=');
            assert(url[at + 2] == 'n' && url[at + 3] == '=');
        }
        if at == first {
            assert(url.subrange(at, at + 4) =~= "lon="@);
        }
    }
    assert forall|at: int| occurs_at(url, "lat="@, at) <==> at == second by {
        if occurs_at(url, "lat="@, at) {
            let found = url.subrange(at, at + 4);
            assert(found[2] == 't' && found[3] == '=');
            assert(url[at + 2] == 't' && url[at + 3] == '=');
        }
        if at == second {
            assert(url.subrange(at, at + 4) =~= "lat="@);
        }
    }
}

} // verus!
