//! URL parsing, done by the `url` crate that `reqwest` re-exports.
use vstd::prelude::*;

verus! {

/// What `reqwest::Url::parse` gives for a text: the parsed URL's
/// serialization and scheme, or the message (`Display`) of its error.
pub uninterp spec fn url_parse(input: Seq<char>) -> Result<(Seq<char>, Seq<char>), Seq<char>>;

/// What parsing `base` with `reqwest::Url::parse` and then resolving
/// `relative` against it with `Url::join` gives: the serialization of the
/// joined URL, or the message of the first error.
pub uninterp spec fn url_join(base: Seq<char>, relative: Seq<char>) -> Result<Seq<char>, Seq<char>>;

/// Parses a URL with `reqwest::Url::parse`. The contract only names the
/// result (serialization and scheme, or the error's message); what URL
/// syntax `url` accepts and how it normalises it is not restated here.
#[verifier::external_body]
pub(crate) fn parse_url(input: &str) -> (r: Result<(String, String), String>)
    ensures
        match r {
            Ok((serialization, scheme)) => url_parse(input@) == Ok::<(Seq<char>, Seq<char>), Seq<char>>((serialization@, scheme@)),
            Err(message) => url_parse(input@) == Err::<(Seq<char>, Seq<char>), Seq<char>>(message@),
        },
{
    match reqwest::Url::parse(input) {
        Ok(url) => Ok((url.to_string(), url.scheme().to_string())),
        Err(error) => Err(error.to_string()),
    }
}

/// Parses `base` with `reqwest::Url::parse` and resolves `relative`
/// against it with `Url::join`. The contract only names the result (the
/// joined URL's serialization, or the error's message); how relative
/// references are resolved is `url`'s and is not restated here.
#[verifier::external_body]
pub(crate) fn join_url(base: &str, relative: &str) -> (r: Result<String, String>)
    ensures
        match r {
            Ok(joined) => url_join(base@, relative@) == Ok::<Seq<char>, Seq<char>>(joined@),
            Err(message) => url_join(base@, relative@) == Err::<Seq<char>, Seq<char>>(message@),
        },
{
    match reqwest::Url::parse(base) {
        Ok(url) => match url.join(relative) {
            Ok(joined) => Ok(joined.to_string()),
            Err(error) => Err(error.to_string()),
        },
        Err(error) => Err(error.to_string()),
    }
}

} // verus!
