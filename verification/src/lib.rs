//! Typed extraction of a request URI's query component.
//!
//! The query component is percent-decoded and then deserialized, under the
//! nested-querystring convention (repeated keys as sequences, bracket
//! notation as nested objects), into a caller-chosen type `T`.  An absent
//! query component, and one whose percent-encoding cannot be decoded, are
//! both read as the empty query; the only failure is a deserialization
//! failure, surfaced as a rejection carrying the parser's diagnostic and
//! answered with HTTP status 400.

use vstd::prelude::*;

verus! {

use vstd::string::StringExecFns;
use serde::de::DeserializeOwned;

/// The rejection produced when the query string cannot be deserialized
/// into the requested type.  It carries the deserializer's diagnostic text.
#[derive(Debug, Clone, PartialEq, Eq)]
pub enum QueryRejection {
    Deserialize(String),
}

impl QueryRejection {
    /// The deserializer's diagnostic carried by this rejection.
    pub open spec fn message_spec(self) -> Seq<char> {
        match self {
            QueryRejection::Deserialize(m) => m@,
        }
    }

    /// The full response body: a fixed prefix naming the failing step,
    /// followed by the deserializer's diagnostic.
    pub open spec fn body_spec(self) -> Seq<char> {
        "Deserialize querystring: "@ + self.message_spec()
    }

    /// The HTTP status answered for every rejection.
    pub fn status_code(&self) -> (s: u16)
        ensures
            s == 400u16,
    {
        400
    }

    /// The deserializer's diagnostic carried by this rejection.
    pub fn message(&self) -> (m: &String)
        ensures
            m@ == self.message_spec(),
    {
        match self {
            QueryRejection::Deserialize(m) => m,
        }
    }

    /// The plain-text body of the response answering this rejection.
    pub fn body_text(&self) -> (b: String)
        ensures
            b@ == self.body_spec(),
    {
        let mut b = <String as StringExecFns>::from_str("Deserialize querystring: ");
        b.append(self.message().as_str());
        b
    }
}

/// A rejection is always answered with a non-empty body that ends with the
/// deserializer's diagnostic: the failure description is never lost.
pub proof fn lemma_rejection_body(rej: QueryRejection)
    ensures
        rej.body_spec().len() > 0,
        rej.body_spec().skip("Deserialize querystring: "@.len() as int) == rej.message_spec(),
{
    reveal_strlit("Deserialize querystring: ");
    assert(rej.body_spec().skip("Deserialize querystring: "@.len() as int)
        =~= rej.message_spec());
}

/// What `urlencoding::decode` yields on a given input: `Some` of the decoded
/// characters, or `None` when the decoded bytes are not valid UTF-8.
pub uninterp spec fn percent_decoded(s: Seq<char>) -> Option<Seq<char>>;

/// Whether a query component holds no percent escape at all.
pub open spec fn escape_free(s: Seq<char>) -> bool {
    !s.contains('%')
}

/// Relies on `urlencoding::decode`: replaces each `%xx` escape by the byte it
/// names, leaving other characters alone, so a string without `%` decodes to
/// itself.  The outcome is a function of the input characters alone, and is
/// an error exactly when the decoded bytes are not valid UTF-8.
#[verifier::external_body]
fn percent_decode(q: &str) -> (r: Option<String>)
    ensures
        r is Some <==> percent_decoded(q@) is Some,
        r matches Some(s) ==> percent_decoded(q@) matches Some(d) && s@ == d,
        r is None ==> !escape_free(q@),
        r matches Some(s) ==> (escape_free(q@) ==> s@ == q@),
{
    match urlencoding::decode(q) {
        Ok(s) => Some(s.into_owned()),
        Err(_) => None,
    }
}

/// The query text handed to the deserializer for a given raw query
/// component: an absent component and an undecodable one are both read as
/// the empty query.
pub open spec fn decoded_query_spec(raw: Option<Seq<char>>) -> Seq<char> {
    match raw {
        Option::None => Seq::<char>::empty(),
        Option::Some(q) => match percent_decoded(q) {
            Option::Some(d) => d,
            Option::None => Seq::<char>::empty(),
        },
    }
}

/// The characters of an optional query component.
pub open spec fn raw_query_view(raw: Option<&str>) -> Option<Seq<char>> {
    match raw {
        Option::None => Option::None,
        Option::Some(q) => Option::Some(q@),
    }
}

/// Percent-decode the raw query component of a request URI, reading an
/// absent component or a failed decode as the empty query.  A component
/// without any percent escape is passed through unchanged.
pub fn decoded_query(raw: Option<&str>) -> (r: String)
    ensures
        r@ == decoded_query_spec(raw_query_view(raw)),
        raw matches Some(q) ==> (escape_free(q@) ==> r@ == q@),
{
    match raw {
        None => String::new(),
        Some(q) => match percent_decode(q) {
            Some(d) => d,
            None => String::new(),
        },
    }
}

/// A request with no query component is read as the empty query, so the
/// deserializer sees an empty input, not an error.
pub proof fn lemma_absent_query_is_empty()
    ensures
        decoded_query_spec(Option::None) == Seq::<char>::empty(),
{
}

/// A query component whose percent-encoding cannot be decoded is read as
/// the empty query, never as an error.
pub proof fn lemma_undecodable_query_is_empty(q: Seq<char>)
    requires
        percent_decoded(q) is None,
    ensures
        decoded_query_spec(Option::Some(q)) == Seq::<char>::empty(),
{
}

/// A value extracted from the query component of a request URI.
#[derive(Debug, Clone, Copy)]
pub struct Query<T>(pub T);

/// Relies on `serde_qs::from_str`: parses the nested-querystring encoding
/// into `T`.  Which inputs parse is decided by `T`'s `Deserialize` impl, so
/// only the shape of the outcome is stated; a failure is carried as the
/// parser's diagnostic text.
#[verifier::external_body]
fn parse_query_string<T: DeserializeOwned>(q: &str) -> (r: Result<T, String>) {
    match serde_qs::from_str::<T>(q) {
        Ok(v) => Ok(v),
        Err(e) => Err(e.to_string()),
    }
}

impl<T> Query<T> {
    /// Wrap the deserializer's outcome: a parsed value is wrapped as it is,
    /// a failure becomes the one rejection, carrying the diagnostic.
    pub fn from_parse_result(pr: Result<T, String>) -> (r: Result<Query<T>, QueryRejection>)
        ensures
            pr matches Ok(v) ==> r matches Ok(q) && q.0 == v,
            pr matches Err(m) ==> r matches Err(rej) && rej == QueryRejection::Deserialize(m),
    {
        match pr {
            Ok(v) => Ok(Query(v)),
            Err(m) => Err(QueryRejection::Deserialize(m)),
        }
    }

    /// Read access to the wrapped value.
    pub fn get(&self) -> (r: &T)
        ensures
            *r == self.0,
    {
        &self.0
    }

    /// Give up the wrapper, yielding the wrapped value.
    pub fn into_inner(self) -> (r: T)
        ensures
            r == self.0,
    {
        self.0
    }
}

impl<T: DeserializeOwned> Query<T> {
    /// Deserialize an already percent-decoded query string.  Whether an
    /// input parses is decided by `T`'s `Deserialize` impl; whatever comes
    /// back, the only error is a deserialization failure.
    pub fn try_from(query: &str) -> (r: Result<Query<T>, QueryRejection>)
        ensures
            r matches Err(rej) ==> rej matches QueryRejection::Deserialize(_),
    {
        Query::from_parse_result(parse_query_string(query))
    }

    /// Extract from the raw query component of a request URI: the component
    /// is percent-decoded — an absent component and an undecodable one are
    /// both read as the empty query — and the result is deserialized.
    pub fn from_request_query(raw: Option<&str>) -> (r: Result<Query<T>, QueryRejection>)
        ensures
            r matches Err(rej) ==> rej matches QueryRejection::Deserialize(_),
    {
        let decoded = decoded_query(raw);
        Query::<T>::try_from(decoded.as_str())
    }
}

impl<T: Default> Default for Query<T> {
    /// The wrapper around `T`'s default value.
    fn default() -> (r: Self)
        ensures
            call_ensures(T::default, (), r.0),
    {
        Query(T::default())
    }
}

} // verus!
