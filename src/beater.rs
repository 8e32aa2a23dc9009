use vstd::prelude::*;
use librespot_core::session::Session;
use crate::id::{parse_native, parse_view, parse_web, has_native_prefix, url_parts, ItemId, ParseError};

verus! {

/// `librespot_core::session::Session`, carried through the library as an opaque value.
#[verifier::external_type_specification]
#[verifier::external_body]
pub struct ExSession(Session);

/// Relies on `Session::get_user_attribute`: the value that the service reported for an
/// account attribute, if any. It depends on the session's state, so nothing is claimed of it.
pub assume_specification[ Session::get_user_attribute ](session: &Session, key: &str) -> Option<String>;

/// Relies on `Session`'s `Clone`, which hands out another handle to the same shared session.
pub assume_specification[ <Session as Clone>::clone ](session: &Session) -> Session;

/// The account tier that decides the default quality.
#[derive(Clone, Copy, Debug, PartialEq, Eq, Structural, Hash)]
pub enum AccountTier {
    Premium,
    Free,
}

/// The tier named by the account's `type` attribute: premium exactly when it reads `premium`.
pub fn tier_from_attribute(account_type: &Option<String>) -> (r: AccountTier)
    ensures
        r == (if account_type matches Some(t) && t@ == seq!['p', 'r', 'e', 'm', 'i', 'u', 'm'] {
            AccountTier::Premium
        } else {
            AccountTier::Free
        }),
{
    proof {
        reveal_strlit("premium");
    }
    match account_type {
        Some(t) => {
            let premium = String::from_str("premium");
            if *t == premium {
                assert(t@ =~= seq!['p', 'r', 'e', 'm', 'i', 'u', 'm']);
                AccountTier::Premium
            } else {
                assert(t@ != seq!['p', 'r', 'e', 'm', 'i', 'u', 'm']) by {
                    if t@ == seq!['p', 'r', 'e', 'm', 'i', 'u', 'm'] {
                        assert(premium@ =~= t@);
                    }
                }
                AccountTier::Free
            }
        },
        None => AccountTier::Free,
    }
}

/// A connected client of the streaming service.
#[derive(Clone)]
pub struct Beater(pub Session);

impl Beater {
    /// A client over a session that is already connected.
    pub fn new_with_session(session: Session) -> (r: Beater)
        ensures
            r.0 == session,
    {
        Beater(session)
    }

    /// Whether the account is premium, as its `type` attribute says; an account that
    /// reports no such attribute is taken as free.
    pub fn is_premium(&self) -> bool {
        let attr = self.session().get_user_attribute("type");
        tier_from_attribute(&attr) == AccountTier::Premium
    }

    /// The session that the client talks through.
    pub fn session(&self) -> (r: &Session)
        ensures
            *r == self.0,
    {
        &self.0
    }

    /// Parses a native URI or a web-player URL into a typed identifier.
    pub fn parse_uri(&self, uri: &str) -> (r: Result<ItemId, ParseError>)
        ensures
            parse_view(r) == if has_native_prefix(uri@) {
                parse_native(uri@)
            } else {
                parse_web(url_parts(uri@))
            },
    {
        ItemId::parse(uri)
    }
}

} // verus!
