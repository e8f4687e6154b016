//! The transport's cookie store as the client sees it, and the cookie that
//! proves a session.

use crate::text::str_eq;
use vstd::prelude::*;

verus! {

/// The host that the session cookie is scoped to.
pub const SESSION_HOST: &'static str = "player.monstercat.app";

/// The path that the session cookie is scoped to.
pub const SESSION_PATH: &'static str = "/";

/// The name of the session cookie.
pub const SESSION_COOKIE: &'static str = "cid";

/// One cookie of the transport's store.
#[derive(Clone, Debug, PartialEq, Eq)]
pub struct Cookie {
    pub domain: String,
    pub path: String,
    pub name: String,
    pub value: String,
}

/// A [`Cookie`] as a mathematical value.
pub ghost struct CookieView {
    pub domain: Seq<char>,
    pub path: Seq<char>,
    pub name: Seq<char>,
    pub value: Seq<char>,
}

impl View for Cookie {
    type V = CookieView;

    open spec fn view(&self) -> CookieView {
        CookieView { domain: self.domain@, path: self.path@, name: self.name@, value: self.value@ }
    }
}

impl Cookie {
    /// A copy of the cookie.
    pub fn copy(&self) -> (cookie: Cookie)
        ensures
            cookie@ == self@,
    {
        Cookie {
            domain: self.domain.clone(),
            path: self.path.clone(),
            name: self.name.clone(),
            value: self.value.clone(),
        }
    }
}

impl CookieView {
    /// Whether the cookie is stored under the given domain, path and name.
    pub open spec fn is_at(self, domain: Seq<char>, path: Seq<char>, name: Seq<char>) -> bool {
        self.domain == domain && self.path == path && self.name == name
    }

    /// Whether the cookie proves a session: it has the session cookie's
    /// name and is scoped to the service's host and root path.
    pub open spec fn is_session_proof(self) -> bool {
        self.is_at(SESSION_HOST@, SESSION_PATH@, SESSION_COOKIE@)
    }
}

/// The first cookie of `cookies` stored under the given domain, path and name.
pub open spec fn find_cookie(
    cookies: Seq<CookieView>,
    domain: Seq<char>,
    path: Seq<char>,
    name: Seq<char>,
) -> Option<CookieView>
    decreases cookies.len(),
{
    if cookies.len() == 0 {
        None
    } else if cookies[0].is_at(domain, path, name) {
        Some(cookies[0])
    } else {
        find_cookie(cookies.drop_first(), domain, path, name)
    }
}

/// The cookie of `cookies` that proves a session, if there is one.
pub open spec fn session_proof(cookies: Seq<CookieView>) -> Option<CookieView> {
    find_cookie(cookies, SESSION_HOST@, SESSION_PATH@, SESSION_COOKIE@)
}

/// `find_cookie` finds a cookie exactly when one is stored under the key, and
/// what it finds is a cookie of the store under that key.
pub proof fn lemma_find_cookie(
    cookies: Seq<CookieView>,
    domain: Seq<char>,
    path: Seq<char>,
    name: Seq<char>,
)
    ensures
        find_cookie(cookies, domain, path, name) is Some <==> exists|i: int|
            0 <= i < cookies.len() && (#[trigger] cookies[i]).is_at(domain, path, name),
        find_cookie(cookies, domain, path, name) matches Some(c) ==> cookies.contains(c) && c.is_at(
            domain,
            path,
            name,
        ),
    decreases cookies.len(),
{
    if cookies.len() == 0 {
    } else if cookies[0].is_at(domain, path, name) {
        assert(cookies.contains(cookies[0]));
    } else {
        let rest = cookies.drop_first();
        lemma_find_cookie(rest, domain, path, name);
        if find_cookie(rest, domain, path, name) is Some {
            let i = choose|i: int|
                0 <= i < rest.len() && (#[trigger] rest[i]).is_at(domain, path, name);
            assert(cookies[i + 1] == rest[i]);
            let c = find_cookie(rest, domain, path, name)->Some_0;
            let k = choose|k: int| 0 <= k < rest.len() && rest[k] == c;
            assert(cookies[k + 1] == c);
        }
        if exists|i: int| 0 <= i < cookies.len() && (#[trigger] cookies[i]).is_at(domain, path, name) {
            let i = choose|i: int|
                0 <= i < cookies.len() && (#[trigger] cookies[i]).is_at(domain, path, name);
            assert(rest[i - 1] == cookies[i]);
        }
    }
}

/// The cookies that the transport holds at one moment, in the order in which
/// they were handed over.
#[derive(Debug)]
pub struct CookieJar {
    pub cookies: Vec<Cookie>,
}

impl View for CookieJar {
    type V = Seq<CookieView>;

    open spec fn view(&self) -> Seq<CookieView> {
        self.cookies@.map_values(|c: Cookie| c@)
    }
}

impl CookieJar {
    /// A jar without cookies.
    pub fn new() -> (jar: CookieJar)
        ensures
            jar@ == Seq::<CookieView>::empty(),
    {
        let jar = CookieJar { cookies: Vec::new() };
        assert(jar@ =~= Seq::<CookieView>::empty());
        jar
    }

    /// Puts one more cookie into the jar, behind those that are there.
    pub fn insert(&mut self, cookie: Cookie)
        ensures
            final(self)@ == old(self)@.push(cookie@),
    {
        self.cookies.push(cookie);
        assert(self@ =~= old(self)@.push(cookie@));
    }

    /// The first cookie stored under the given domain, path and name.
    pub fn get(&self, domain: &str, path: &str, name: &str) -> (found: Option<&Cookie>)
        ensures
            match found {
                Some(c) => find_cookie(self@, domain@, path@, name@) == Some(c@),
                None => find_cookie(self@, domain@, path@, name@) is None,
            },
    {
        let mut i: usize = 0;
        assert(self@.skip(0) =~= self@);
        while i < self.cookies.len()
            invariant
                i <= self.cookies.len(),
                find_cookie(self@, domain@, path@, name@) == find_cookie(
                    self@.skip(i as int),
                    domain@,
                    path@,
                    name@,
                ),
            decreases self.cookies.len() - i,
        {
            let c = &self.cookies[i];
            proof {
                assert(self@.skip(i as int)[0] == c@);
                assert(self@.skip(i as int).drop_first() =~= self@.skip(i + 1));
            }
            if str_eq(c.domain.as_str(), domain) && str_eq(c.path.as_str(), path) && str_eq(
                c.name.as_str(),
                name,
            ) {
                return Some(c);
            }
            i += 1;
        }
        None
    }

    /// Whether a cookie is stored under the given domain, path and name.
    pub fn contains(&self, domain: &str, path: &str, name: &str) -> (found: bool)
        ensures
            found == find_cookie(self@, domain@, path@, name@) is Some,
    {
        self.get(domain, path, name).is_some()
    }
}

} // verus!
