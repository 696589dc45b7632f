//! URL parsing, provided by the `url` crate.

use vstd::prelude::*;
use vstd::string::{StrSliceExecFns, StringExecFns};

verus! {

/// The parts of a parsed URL that the engine reads.
#[derive(Clone, Debug, PartialEq, Eq)]
pub struct Address {
    /// The scheme, lower case, without the colon.
    pub scheme: String,
    /// The host, if the URL has one.
    pub host: Option<String>,
    /// The whole URL in normalised form.
    pub text: String,
}

/// Mathematical model of an [`Address`].
pub ghost struct AddressView {
    pub scheme: Seq<char>,
    pub host: Option<Seq<char>>,
    pub text: Seq<char>,
}

impl View for Address {
    type V = AddressView;

    open spec fn view(&self) -> AddressView {
        AddressView {
            scheme: self.scheme@,
            host: match self.host {
                Some(h) => Some(h@),
                None => None,
            },
            text: self.text@,
        }
    }
}

/// A host name without the dots at its end.
pub open spec fn without_trailing_dots(host: Seq<char>) -> Seq<char>
    decreases host.len(),
{
    if host.len() > 0 && host.last() == '.' {
        without_trailing_dots(host.drop_last())
    } else {
        host
    }
}

/// The name under which a host is looked up: the host without the dots at
/// its end, or a single dot where nothing else is left.
pub open spec fn lookup_name(host: Seq<char>) -> Seq<char> {
    if without_trailing_dots(host).len() == 0 {
        "."@
    } else {
        without_trailing_dots(host)
    }
}

/// Computes the name under which a host is looked up.
pub fn name_for_lookup(host: &str) -> (r: String)
    ensures
        r@ == lookup_name(host@),
{
    let n: usize = host.unicode_len();
    let mut k: usize = n;
    assert(host@.subrange(0, n as int) =~= host@);
    while k > 0 && host.get_char(k - 1) == '.'
        invariant
            k <= n,
            n == host@.len(),
            without_trailing_dots(host@) == without_trailing_dots(host@.subrange(0, k as int)),
        decreases k,
    {
        assert(host@.subrange(0, k as int).drop_last() =~= host@.subrange(0, k - 1));
        k -= 1;
    }
    assert(host@.subrange(0, 0).len() == 0);
    if k == 0 {
        String::from_str(".")
    } else {
        String::from_str(host.substring_char(0, k))
    }
}

/// What `url::Url::parse` makes of `url`: nothing when it rejects the text,
/// else the scheme, host and serialisation of the URL it returns.
pub uninterp spec fn parsed_address(url: Seq<char>) -> Option<AddressView>;

/// Calls `url::Url::parse` and copies out `scheme()`, `host_str()` and
/// `as_str()` of the result.
///
/// Trusted: the outcome depends on the text alone, and is `None` exactly when
/// the crate returns an error.
#[verifier::external_body]
pub(crate) fn parse_address(url: &str) -> (r: Option<Address>)
    ensures
        r.is_some() == parsed_address(url@).is_some(),
        r matches Some(a) ==> Some(a@) == parsed_address(url@),
{
    match url::Url::parse(url) {
        Ok(u) => Some(
            Address {
                scheme: u.scheme().to_string(),
                host: u.host_str().map(|h| h.to_string()),
                text: u.as_str().to_string(),
            },
        ),
        Err(_) => None,
    }
}

} // verus!
