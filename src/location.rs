//! URLs: the parts the client reads, as plain values, beside the parsed URL
//! that the `url` crate resolves against. Parsing and resolution are done by
//! the `url` crate.
use vstd::prelude::*;

verus! {

/// The `url` crate's parsed URL, carried opaquely inside `Address`.
#[verifier::external_type_specification]
#[verifier::external_body]
pub struct ExUrl(url::Url);

/// A parsed absolute URL. Its parts are read from the parsed URL when it is
/// made, and only the functions below make one.
pub struct Address {
    inner: url::Url,
    serialization: String,
    scheme: String,
    host: Option<String>,
    port: Option<u16>,
    path: String,
    query: Option<String>,
}

/// The parts of a URL.
pub struct AddressView {
    /// The whole URL in its canonical form.
    pub serialization: Seq<char>,
    /// The scheme, without the `:`.
    pub scheme: Seq<char>,
    pub host: Option<Seq<char>>,
    /// The port, when the URL names one that is not the scheme's default.
    pub port: Option<u16>,
    pub path: Seq<char>,
    pub query: Option<Seq<char>>,
}

/// The characters of an optional string.
pub open spec fn opt_view(s: Option<String>) -> Option<Seq<char>> {
    match s {
        Some(t) => Some(t@),
        None => None,
    }
}

impl View for Address {
    type V = AddressView;

    closed spec fn view(&self) -> AddressView {
        AddressView {
            serialization: self.serialization@,
            scheme: self.scheme@,
            host: opt_view(self.host),
            port: self.port,
            path: self.path@,
            query: opt_view(self.query),
        }
    }
}

/// The views of an optional URL.
pub open spec fn opt_address(a: Option<Address>) -> Option<AddressView> {
    match a {
        Some(u) => Some(u@),
        None => None,
    }
}

/// What `url::Url::parse` makes of a text: `None` when it is not an absolute
/// URL.
pub uninterp spec fn parsed_url(s: Seq<char>) -> Option<AddressView>;

/// What `url::Url::join` makes of a base URL and a target.
pub uninterp spec fn joined_url(base: AddressView, target: Seq<char>) -> Option<AddressView>;

/// What `url::Url::set_path` makes of a URL and a new path.
pub uninterp spec fn path_set(base: AddressView, path: Seq<char>) -> AddressView;

/// What `url::Url::set_query` makes of a URL and a new query.
pub uninterp spec fn query_set(base: AddressView, query: Seq<char>) -> AddressView;

pub open spec fn is_ascii_alnum(c: char) -> bool {
    ('0' <= c <= '9') || ('a' <= c <= 'z') || ('A' <= c <= 'Z')
}

/// A path that needs no percent-encoding and holds no dot segment: a `/`,
/// then ASCII letters, digits and `/ - _ ~` only.
pub open spec fn plain_path(p: Seq<char>) -> bool {
    &&& p.len() > 0
    &&& p[0] == '/'
    &&& forall|i: int|
        0 <= i < p.len() ==> is_ascii_alnum(#[trigger] p[i]) || p[i] == '/' || p[i] == '-' || p[i]
            == '_' || p[i] == '~'
}

/// A query that needs no percent-encoding: ASCII letters, digits and
/// `- _ ~ = &` only.
pub open spec fn plain_query(q: Seq<char>) -> bool {
    forall|i: int|
        0 <= i < q.len() ==> is_ascii_alnum(#[trigger] q[i]) || q[i] == '-' || q[i] == '_' || q[i]
            == '~' || q[i] == '=' || q[i] == '&'
}

/// Relies on `url::Url::parse`: parses an absolute URL; each part is read
/// back through the parsed URL's accessors. The result depends on the text
/// alone.
#[verifier::external_body]
fn parse_outside(s: &str) -> (r: Option<Address>)
    ensures
        opt_address(r) == parsed_url(s@),
{
    let u = url::Url::parse(s).ok()?;
    Some(Address {
        serialization: u.as_str().to_string(),
        scheme: u.scheme().to_string(),
        host: u.host_str().map(|h| h.to_string()),
        port: u.port(),
        path: u.path().to_string(),
        query: u.query().map(|q| q.to_string()),
        inner: u,
    })
}

/// Relies on `url::Url::join`: resolves `target` against the base URL (an
/// absolute target stands for itself). The result depends on the base URL
/// and the target alone.
#[verifier::external_body]
fn join_outside(base: &Address, target: &str) -> (r: Option<Address>)
    ensures
        opt_address(r) == joined_url(base@, target@),
{
    let u = base.inner.join(target).ok()?;
    Some(Address {
        serialization: u.as_str().to_string(),
        scheme: u.scheme().to_string(),
        host: u.host_str().map(|h| h.to_string()),
        port: u.port(),
        path: u.path().to_string(),
        query: u.query().map(|q| q.to_string()),
        inner: u,
    })
}

/// Relies on `url::Url::set_path`: it rewrites the path only, and leaves the
/// scheme, host, port and query as they were; on a URL with a host, a path
/// that needs no encoding and has no dot segment is taken as it is.
#[verifier::external_body]
fn set_path_outside(base: &Address, path: &str) -> (r: Address)
    ensures
        r@ == path_set(base@, path@),
        base@.host is Some && plain_path(path@) ==> r@.path == path@,
        r@.scheme == base@.scheme,
        r@.host == base@.host,
        r@.port == base@.port,
        r@.query == base@.query,
{
    let mut u = base.inner.clone();
    u.set_path(path);
    Address {
        serialization: u.as_str().to_string(),
        scheme: u.scheme().to_string(),
        host: u.host_str().map(|h| h.to_string()),
        port: u.port(),
        path: u.path().to_string(),
        query: u.query().map(|q| q.to_string()),
        inner: u,
    }
}

/// Relies on `url::Url::set_query`: it rewrites the query only, and leaves
/// the scheme, host, port and path as they were; a query that needs no
/// encoding is taken as it is.
#[verifier::external_body]
fn set_query_outside(base: &Address, query: &str) -> (r: Address)
    ensures
        r@ == query_set(base@, query@),
        plain_query(query@) ==> r@.query == Some(query@),
        r@.scheme == base@.scheme,
        r@.host == base@.host,
        r@.port == base@.port,
        r@.path == base@.path,
{
    let mut u = base.inner.clone();
    u.set_query(Some(query));
    Address {
        serialization: u.as_str().to_string(),
        scheme: u.scheme().to_string(),
        host: u.host_str().map(|h| h.to_string()),
        port: u.port(),
        path: u.path().to_string(),
        query: u.query().map(|q| q.to_string()),
        inner: u,
    }
}

impl Clone for Address {
    /// Relies on `url::Url`'s derived `Clone`: the copy is the same URL; the
    /// parts are copied with it.
    #[verifier::external_body]
    fn clone(&self) -> (r: Address)
        ensures
            r == *self,
    {
        Address {
            inner: self.inner.clone(),
            serialization: self.serialization.clone(),
            scheme: self.scheme.clone(),
            host: self.host.clone(),
            port: self.port,
            path: self.path.clone(),
            query: self.query.clone(),
        }
    }
}

/// Whether two URLs are the same (same serialization).
pub open spec fn same_url(a: Address, b: Address) -> bool {
    a@.serialization == b@.serialization
}

impl Address {
    /// Parses an absolute URL; `None` when `s` is not one.
    pub fn parse(s: &str) -> (r: Option<Address>)
        ensures
            opt_address(r) == parsed_url(s@),
    {
        parse_outside(s)
    }

    /// Resolves a link or redirect target against this URL.
    pub fn join(&self, target: &str) -> (r: Option<Address>)
        ensures
            opt_address(r) == joined_url(self@, target@),
    {
        join_outside(self, target)
    }

    /// This URL with its path replaced; scheme, host, port and query stay.
    pub fn with_path(&self, path: &str) -> (r: Address)
        ensures
            r@ == path_set(self@, path@),
            self@.host is Some && plain_path(path@) ==> r@.path == path@,
            r@.scheme == self@.scheme,
            r@.host == self@.host,
            r@.port == self@.port,
            r@.query == self@.query,
    {
        set_path_outside(self, path)
    }

    /// This URL with its query replaced; scheme, host, port and path stay.
    pub fn with_query(&self, query: &str) -> (r: Address)
        ensures
            r@ == query_set(self@, query@),
            plain_query(query@) ==> r@.query == Some(query@),
            r@.scheme == self@.scheme,
            r@.host == self@.host,
            r@.port == self@.port,
            r@.path == self@.path,
    {
        set_query_outside(self, query)
    }

    /// Whether this URL and `other` are the same.
    pub fn same_as(&self, other: &Address) -> (r: bool)
        ensures
            r == same_url(*self, *other),
    {
        self.serialization == other.serialization
    }

    /// The whole URL in its canonical form.
    pub fn serialization(&self) -> (r: &str)
        ensures
            r@ == self@.serialization,
    {
        self.serialization.as_str()
    }

    pub fn scheme(&self) -> (r: &str)
        ensures
            r@ == self@.scheme,
    {
        self.scheme.as_str()
    }

    pub fn host(&self) -> (r: Option<&str>)
        ensures
            match r {
                Some(h) => self@.host == Some(h@),
                None => self@.host is None,
            },
    {
        match &self.host {
            Some(h) => Some(h.as_str()),
            None => None,
        }
    }

    pub fn port(&self) -> (r: Option<u16>)
        ensures
            r == self@.port,
    {
        self.port
    }

    pub fn path(&self) -> (r: &str)
        ensures
            r@ == self@.path,
    {
        self.path.as_str()
    }

    pub fn query(&self) -> (r: Option<&str>)
        ensures
            match r {
                Some(q) => self@.query == Some(q@),
                None => self@.query is None,
            },
    {
        match &self.query {
            Some(q) => Some(q.as_str()),
            None => None,
        }
    }
}

} // verus!
