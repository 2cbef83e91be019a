use crate::error::Error;
use vstd::prelude::*;

verus! {

/// The serialization of the URL that `url::Url::parse` reads from `s`, or
/// `None` where it finds no absolute URL there.
pub uninterp spec fn parsed_url(s: Seq<char>) -> Option<Seq<char>>;

/// The host and port part (`host` or `host:port`) of the `url::Url` whose
/// serialization is `u`.
pub uninterp spec fn url_host_port(u: Seq<char>) -> Seq<char>;

/// Whether `u` starts with a scheme followed by `:`, as every absolute URL
/// does.
pub open spec fn has_scheme(u: Seq<char>) -> bool {
    exists|i: int| 0 < i < u.len() && #[trigger] u[i] == ':'
}

/// Relies on `url::Url::parse` to read an absolute URL, and on its
/// serialization (`Url::as_str`) and its `BeforeHost..AfterPort` slice to
/// hand back what the library keeps of it. A parsed URL's serialization
/// starts with its non-empty scheme and a `:`.
#[verifier::external_body]
fn parse_url(s: &str) -> (r: Option<(String, String)>)
    ensures
        match r {
            Some(parts) => parsed_url(s@) == Some(parts.0@) && parts.1@ == url_host_port(parts.0@)
                && has_scheme(parts.0@),
            None => parsed_url(s@) is None,
        },
{
    match url::Url::parse(s) {
        Ok(u) => Some(
            (u.as_str().to_string(), u[url::Position::BeforeHost..url::Position::AfterPort].to_string()),
        ),
        Err(_) => None,
    }
}

/// What an identifier is: its URL text, and the host and port that the URL
/// names.
pub struct ObjectIdView {
    pub url: Seq<char>,
    pub host_port: Seq<char>,
}

/// The identifier that `ObjectId::new` makes of `s`, where `s` holds an
/// absolute URL.
pub open spec fn id_of(s: Seq<char>) -> Option<ObjectIdView> {
    match parsed_url(s) {
        Some(u) => Some(ObjectIdView { url: u, host_port: url_host_port(u) }),
        None => None,
    }
}

/// An identifier read from a URL string in the form that `url` itself
/// writes is written back as exactly that string.
pub proof fn lemma_url_round_trip(s: Seq<char>)
    requires
        parsed_url(s) == Some(s),
    ensures
        id_of(s) is Some,
        id_of(s)->Some_0.url == s,
{
}

/// The identifier of an ActivityPub object: an absolute URL, tagged with the
/// kind `K` of object that it resolves to, so that an identifier declared for
/// one kind cannot be resolved as another. The tag is a type only: two
/// identifiers are equal when their URLs are. Its text is `inner`; the serde
/// form, the bare URL string, is given by the host crate around the library.
pub struct ObjectId<K> {
    url: String,
    host_port: String,
    kind: core::marker::PhantomData<K>,
}

impl<K> View for ObjectId<K> {
    type V = ObjectIdView;

    closed spec fn view(&self) -> ObjectIdView {
        ObjectIdView { url: self.url@, host_port: url_host_port(self.url@) }
    }
}

impl<K> ObjectId<K> {
    /// The stored host and port are those of the stored URL.
    #[verifier::type_invariant]
    spec fn host_port_matches(&self) -> bool {
        self.host_port@ == url_host_port(self.url@)
    }

    /// Reads an identifier from a URL string; fails with `MalformedUrl` where
    /// the string holds no absolute URL.
    pub fn new(url: &str) -> (r: Result<ObjectId<K>, Error>)
        ensures
            match id_of(url@) {
                Some(v) => r is Ok && r->Ok_0@ == v,
                None => r == Err::<ObjectId<K>, Error>(Error::MalformedUrl),
            },
            r is Ok ==> has_scheme(r->Ok_0@.url),
    {
        match parse_url(url) {
            Some(parts) => Ok(ObjectId { url: parts.0, host_port: parts.1, kind: core::marker::PhantomData }),
            None => Err(Error::MalformedUrl),
        }
    }

    /// The URL, as text.
    pub fn inner(&self) -> (r: &str)
        ensures
            r@ == self@.url,
    {
        self.url.as_str()
    }

    /// The URL, as text, taking the identifier apart.
    pub fn into_inner(self) -> (r: String)
        ensures
            r@ == self@.url,
    {
        self.url
    }

    /// The host and port that the URL names (`host` or `host:port`).
    pub fn host_port(&self) -> (r: &str)
        ensures
            r@ == self@.host_port,
    {
        proof {
            use_type_invariant(self);
        }
        self.host_port.as_str()
    }
}

impl<K> Clone for ObjectId<K> {
    fn clone(&self) -> (r: ObjectId<K>)
        ensures
            r@ == self@,
    {
        proof {
            use_type_invariant(self);
        }
        ObjectId {
            url: self.url.clone(),
            host_port: self.host_port.clone(),
            kind: core::marker::PhantomData,
        }
    }
}

impl<K> PartialEq for ObjectId<K> {
    fn eq(&self, other: &ObjectId<K>) -> (r: bool) {
        self.url == other.url
    }
}

impl<K> vstd::std_specs::cmp::PartialEqSpecImpl for ObjectId<K> {
    open spec fn obeys_eq_spec() -> bool {
        true
    }

    open spec fn eq_spec(&self, other: &ObjectId<K>) -> bool {
        self@.url == other@.url
    }
}

impl<K> Eq for ObjectId<K> {}

/// Identifiers with the same URL name the same host and port, so they are
/// both local or both remote.
pub proof fn lemma_equal_urls_same_host<K>(a: ObjectId<K>, b: ObjectId<K>)
    requires
        a@.url == b@.url,
    ensures
        a@.host_port == b@.host_port,
{
}

} // verus!
