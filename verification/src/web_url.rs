//! The call into the `url` crate: WHATWG URL parsing, used to check the
//! transaction-service URL a shop declares.
use vstd::prelude::*;
use crate::text::opt_view;

verus! {

/// What `url::Url::parse` makes of `input`: `None` when it fails, else the
/// URL's scheme, username, password, query and fragment, as the `Url`
/// getters `scheme`, `username`, `password`, `query` and `fragment` return
/// them.
pub uninterp spec fn url_parts(input: Seq<char>) -> Option<
    (Seq<char>, Seq<char>, Option<Seq<char>>, Option<Seq<char>>, Option<Seq<char>>),
>;

/// `url::Url::parse(input)`, with the parsed URL's `scheme()`,
/// `username()`, `password()`, `query()` and `fragment()` copied out. The
/// contract names the outcome: it says nothing of which strings parse or
/// how the parser normalises them.
#[verifier::external_body]
pub(crate) fn parse_url_parts(input: &str) -> (r: Option<
    (String, String, Option<String>, Option<String>, Option<String>),
>)
    ensures
        match r {
            None => url_parts(input@) is None,
            Some(p) => url_parts(input@) == Some(
                (p.0@, p.1@, opt_view(p.2), opt_view(p.3), opt_view(p.4)),
            ),
        },
{
    match url::Url::parse(input) {
        Err(_) => None,
        Ok(u) => Some((
            u.scheme().to_owned(),
            u.username().to_owned(),
            u.password().map(str::to_owned),
            u.query().map(str::to_owned),
            u.fragment().map(str::to_owned),
        )),
    }
}

} // verus!
