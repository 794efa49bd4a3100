//! Settings of a fetch request, gathered by a builder into a request
//! description.
use vstd::prelude::*;
use web_sys::ReferrerPolicy as HostReferrerPolicy;

verus! {

/// How the request uses the host's HTTP cache.
#[derive(Debug, Clone, Copy, PartialEq, Eq, Structural)]
pub enum RequestCache {
    Default,
    NoStore,
    Reload,
    NoCache,
    ForceCache,
    OnlyIfCached,
}

impl Default for RequestCache {
    fn default() -> (cache: RequestCache)
        ensures
            cache == RequestCache::Default,
    {
        RequestCache::Default
    }
}

/// Whether credentials go with the request.
#[derive(Debug, Clone, Copy, PartialEq, Eq, Structural)]
pub enum RequestCredentials {
    Omit,
    SameOrigin,
    Include,
}

impl Default for RequestCredentials {
    fn default() -> (credentials: RequestCredentials)
        ensures
            credentials == RequestCredentials::Omit,
    {
        RequestCredentials::Omit
    }
}

/// The cross-origin mode of the request.
#[derive(Debug, Clone, Copy, PartialEq, Eq, Structural)]
pub enum RequestMode {
    SameOrigin,
    NoCors,
    Cors,
    Navigate,
}

impl Default for RequestMode {
    fn default() -> (mode: RequestMode)
        ensures
            mode == RequestMode::Cors,
    {
        RequestMode::Cors
    }
}

/// What happens when the response redirects.
#[derive(Debug, Clone, Copy, PartialEq, Eq, Structural)]
pub enum RequestRedirect {
    Follow,
    Error,
    Manual,
}

impl Default for RequestRedirect {
    fn default() -> (redirect: RequestRedirect)
        ensures
            redirect == RequestRedirect::Follow,
    {
        RequestRedirect::Follow
    }
}

/// How much of the referrer is sent.
#[derive(Debug, Clone, Copy, PartialEq, Eq, Structural)]
pub enum ReferrerPolicy {
    /// No policy is named; the host applies its own.
    Empty,
    NoReferrer,
    NoReferrerWhenDowngrade,
    Origin,
    OriginWhenCrossOrigin,
    UnsafeUrl,
    SameOrigin,
    StrictOrigin,
    StrictOriginWhenCrossOrigin,
}

impl Default for ReferrerPolicy {
    fn default() -> (policy: ReferrerPolicy)
        ensures
            policy == ReferrerPolicy::Empty,
    {
        ReferrerPolicy::Empty
    }
}

/// `web_sys::ReferrerPolicy`, the host's enum of referrer policies, with its
/// variants as that crate declares them.
#[verifier::external_type_specification]
pub struct ExHostReferrerPolicy(HostReferrerPolicy);

impl ReferrerPolicy {
    /// The host's value for this policy: the variant of the same name, and
    /// the host's `None` for `Empty`.
    pub open spec fn host(self) -> HostReferrerPolicy {
        match self {
            ReferrerPolicy::Empty => HostReferrerPolicy::None,
            ReferrerPolicy::NoReferrer => HostReferrerPolicy::NoReferrer,
            ReferrerPolicy::NoReferrerWhenDowngrade => HostReferrerPolicy::NoReferrerWhenDowngrade,
            ReferrerPolicy::Origin => HostReferrerPolicy::Origin,
            ReferrerPolicy::OriginWhenCrossOrigin => HostReferrerPolicy::OriginWhenCrossOrigin,
            ReferrerPolicy::UnsafeUrl => HostReferrerPolicy::UnsafeUrl,
            ReferrerPolicy::SameOrigin => HostReferrerPolicy::SameOrigin,
            ReferrerPolicy::StrictOrigin => HostReferrerPolicy::StrictOrigin,
            ReferrerPolicy::StrictOriginWhenCrossOrigin => HostReferrerPolicy::StrictOriginWhenCrossOrigin,
        }
    }
}

impl vstd::std_specs::convert::FromSpecImpl<ReferrerPolicy> for HostReferrerPolicy {
    open spec fn obeys_from_spec() -> bool {
        true
    }

    open spec fn from_spec(policy: ReferrerPolicy) -> HostReferrerPolicy {
        policy.host()
    }
}

impl From<ReferrerPolicy> for HostReferrerPolicy {
    fn from(policy: ReferrerPolicy) -> (host: HostReferrerPolicy)
        ensures
            host == policy.host(),
    {
        match policy {
            ReferrerPolicy::Empty => HostReferrerPolicy::None,
            ReferrerPolicy::NoReferrer => HostReferrerPolicy::NoReferrer,
            ReferrerPolicy::NoReferrerWhenDowngrade => HostReferrerPolicy::NoReferrerWhenDowngrade,
            ReferrerPolicy::Origin => HostReferrerPolicy::Origin,
            ReferrerPolicy::OriginWhenCrossOrigin => HostReferrerPolicy::OriginWhenCrossOrigin,
            ReferrerPolicy::UnsafeUrl => HostReferrerPolicy::UnsafeUrl,
            ReferrerPolicy::SameOrigin => HostReferrerPolicy::SameOrigin,
            ReferrerPolicy::StrictOrigin => HostReferrerPolicy::StrictOrigin,
            ReferrerPolicy::StrictOriginWhenCrossOrigin => HostReferrerPolicy::StrictOriginWhenCrossOrigin,
        }
    }
}

/// Different policies have different host values.
pub proof fn lemma_host_policy_injective(a: ReferrerPolicy, b: ReferrerPolicy)
    requires
        a.host() == b.host(),
    ensures
        a == b,
{
}

/// `http::Method`, an HTTP method. What is inside is not read here: a
/// builder holds one and hands it on.
#[verifier::external_type_specification]
#[verifier::external_body]
pub struct ExMethod(http::Method);

/// `Default::default` of `http::Method`. Which method it gives is not stated
/// here: the value is one that verified code only carries.
pub assume_specification[ <http::Method as Default>::default ]() -> http::Method
;

/// `Clone::clone` of `http::Method`, which that crate derives: the copy is
/// the same method.
pub assume_specification[ <http::Method as Clone>::clone ](method: &http::Method) -> (copy:
    http::Method)
    ensures
        copy == *method,
;

/// The mathematical value of a [`RequestBuilder`]: each setting, with texts as
/// sequences of characters.
pub struct RequestSettings {
    pub body: Option<Seq<char>>,
    pub cache: RequestCache,
    pub credentials: RequestCredentials,
    pub headers: Seq<(Seq<char>, Seq<char>)>,
    pub integrity: Option<Seq<char>>,
    pub method: http::Method,
    pub mode: RequestMode,
    pub redirect: RequestRedirect,
    pub referrer: Seq<char>,
    pub referrer_policy: ReferrerPolicy,
}

impl RequestSettings {
    /// The settings of a fresh builder that asks for `method`.
    pub open spec fn initial(method: http::Method) -> RequestSettings {
        RequestSettings {
            body: None,
            cache: RequestCache::Default,
            credentials: RequestCredentials::Omit,
            headers: Seq::empty(),
            integrity: None,
            method,
            mode: RequestMode::Cors,
            redirect: RequestRedirect::Follow,
            referrer: Seq::empty(),
            referrer_policy: ReferrerPolicy::Empty,
        }
    }
}

/// The characters of an optional text.
pub open spec fn text_of(text: Option<String>) -> Option<Seq<char>> {
    match text {
        Some(t) => Some(t@),
        None => None,
    }
}

/// The names and values of a list of headers, in order.
pub open spec fn headers_of(headers: Seq<(String, String)>) -> Seq<(Seq<char>, Seq<char>)> {
    Seq::new(headers.len(), |i: int| (headers[i].0@, headers[i].1@))
}

/// Gathers the settings of a request.
#[derive(Debug)]
pub struct RequestBuilder {
    body: Option<String>,
    cache: RequestCache,
    credentials: RequestCredentials,
    headers: Vec<(String, String)>,
    integrity: Option<String>,
    method: http::Method,
    mode: RequestMode,
    redirect: RequestRedirect,
    referrer: String,
    referrer_policy: ReferrerPolicy,
}

impl View for RequestBuilder {
    type V = RequestSettings;

    closed spec fn view(&self) -> RequestSettings {
        RequestSettings {
            body: text_of(self.body),
            cache: self.cache,
            credentials: self.credentials,
            headers: headers_of(self.headers@),
            integrity: text_of(self.integrity),
            method: self.method,
            mode: self.mode,
            redirect: self.redirect,
            referrer: self.referrer@,
            referrer_policy: self.referrer_policy,
        }
    }
}

impl Default for RequestBuilder {
    /// A builder in which nothing has been set: every setting has its default,
    /// the method that of `http::Method`.
    fn default() -> (builder: RequestBuilder)
        ensures
            builder@ == RequestSettings::initial(builder@.method),
    {
        let builder = RequestBuilder {
            body: None,
            cache: RequestCache::default(),
            credentials: RequestCredentials::default(),
            headers: Vec::new(),
            integrity: None,
            method: http::Method::default(),
            mode: RequestMode::default(),
            redirect: RequestRedirect::default(),
            referrer: String::new(),
            referrer_policy: ReferrerPolicy::default(),
        };
        assert(builder@.headers =~= Seq::empty());
        builder
    }
}

fn clone_text(text: &Option<String>) -> (copy: Option<String>)
    ensures
        text_of(copy) == text_of(*text),
{
    match text {
        Some(t) => Some(t.clone()),
        None => None,
    }
}

fn clone_headers(headers: &Vec<(String, String)>) -> (copy: Vec<(String, String)>)
    ensures
        headers_of(copy@) == headers_of(headers@),
{
    let mut copy: Vec<(String, String)> = Vec::new();
    let mut i: usize = 0;
    while i < headers.len()
        invariant
            i <= headers.len(),
            copy.len() == i,
            forall|j: int| 0 <= j < i ==> copy[j].0@ == headers[j].0@ && copy[j].1@ == headers[j].1@,
        decreases headers.len() - i,
    {
        let name = headers[i].0.clone();
        let value = headers[i].1.clone();
        copy.push((name, value));
        i += 1;
    }
    assert(headers_of(copy@) =~= headers_of(headers@));
    copy
}

impl RequestBuilder {
    pub fn body(&mut self, body: String) -> (builder: &mut Self)
        ensures
            builder@ == (RequestSettings { body: Some(body@), ..old(self)@ }),
            *final(self) == *final(builder),
    {
        self.body = Some(body);
        self
    }

    pub fn cache(&mut self, cache: RequestCache) -> (builder: &mut Self)
        ensures
            builder@ == (RequestSettings { cache, ..old(self)@ }),
            *final(self) == *final(builder),
    {
        self.cache = cache;
        self
    }

    pub fn credentials(&mut self, credentials: RequestCredentials) -> (builder: &mut Self)
        ensures
            builder@ == (RequestSettings { credentials, ..old(self)@ }),
            *final(self) == *final(builder),
    {
        self.credentials = credentials;
        self
    }

    /// Adds a header after those already there.
    pub fn header(&mut self, name: String, value: String) -> (builder: &mut Self)
        ensures
            builder@ == (RequestSettings {
                headers: old(self)@.headers.push((name@, value@)),
                ..old(self)@
            }),
            *final(self) == *final(builder),
    {
        self.headers.push((name, value));
        assert(headers_of(self.headers@) =~= headers_of(old(self).headers@).push((name@, value@)));
        self
    }

    pub fn integrity(&mut self, integrity: String) -> (builder: &mut Self)
        ensures
            builder@ == (RequestSettings { integrity: Some(integrity@), ..old(self)@ }),
            *final(self) == *final(builder),
    {
        self.integrity = Some(integrity);
        self
    }

    pub fn method(&mut self, method: http::Method) -> (builder: &mut Self)
        ensures
            builder@ == (RequestSettings { method, ..old(self)@ }),
            *final(self) == *final(builder),
    {
        self.method = method;
        self
    }

    pub fn mode(&mut self, mode: RequestMode) -> (builder: &mut Self)
        ensures
            builder@ == (RequestSettings { mode, ..old(self)@ }),
            *final(self) == *final(builder),
    {
        self.mode = mode;
        self
    }

    pub fn redirect(&mut self, redirect: RequestRedirect) -> (builder: &mut Self)
        ensures
            builder@ == (RequestSettings { redirect, ..old(self)@ }),
            *final(self) == *final(builder),
    {
        self.redirect = redirect;
        self
    }

    pub fn referrer(&mut self, referrer: String) -> (builder: &mut Self)
        ensures
            builder@ == (RequestSettings { referrer: referrer@, ..old(self)@ }),
            *final(self) == *final(builder),
    {
        self.referrer = referrer;
        self
    }

    pub fn referrer_policy(&mut self, referrer_policy: ReferrerPolicy) -> (builder: &mut Self)
        ensures
            builder@ == (RequestSettings { referrer_policy, ..old(self)@ }),
            *final(self) == *final(builder),
    {
        self.referrer_policy = referrer_policy;
        self
    }

    pub fn get_body(&self) -> (body: &Option<String>)
        ensures
            text_of(*body) == self@.body,
    {
        &self.body
    }

    pub fn get_cache(&self) -> (cache: RequestCache)
        ensures
            cache == self@.cache,
    {
        self.cache
    }

    pub fn get_credentials(&self) -> (credentials: RequestCredentials)
        ensures
            credentials == self@.credentials,
    {
        self.credentials
    }

    pub fn get_headers(&self) -> (headers: &Vec<(String, String)>)
        ensures
            headers_of(headers@) == self@.headers,
    {
        &self.headers
    }

    pub fn get_integrity(&self) -> (integrity: &Option<String>)
        ensures
            text_of(*integrity) == self@.integrity,
    {
        &self.integrity
    }

    pub fn get_method(&self) -> (method: &http::Method)
        ensures
            *method == self@.method,
    {
        &self.method
    }

    pub fn get_mode(&self) -> (mode: RequestMode)
        ensures
            mode == self@.mode,
    {
        self.mode
    }

    pub fn get_redirect(&self) -> (redirect: RequestRedirect)
        ensures
            redirect == self@.redirect,
    {
        self.redirect
    }

    pub fn get_referrer(&self) -> (referrer: &String)
        ensures
            referrer@ == self@.referrer,
    {
        &self.referrer
    }

    pub fn get_referrer_policy(&self) -> (referrer_policy: ReferrerPolicy)
        ensures
            referrer_policy == self@.referrer_policy,
    {
        self.referrer_policy
    }

    /// The request for `url` with the settings gathered so far. The builder
    /// stays as it is and can build again.
    pub fn build(&self, url: &str) -> (request: Request)
        ensures
            request@ == (RequestDescription { url: url@, settings: self@ }),
    {
        let settings = RequestBuilder {
            body: clone_text(&self.body),
            cache: self.cache,
            credentials: self.credentials,
            headers: clone_headers(&self.headers),
            integrity: clone_text(&self.integrity),
            method: self.method.clone(),
            mode: self.mode,
            redirect: self.redirect,
            referrer: self.referrer.clone(),
            referrer_policy: self.referrer_policy,
        };
        Request { url: url.to_owned(), settings }
    }
}

/// The mathematical value of a [`Request`].
pub struct RequestDescription {
    pub url: Seq<char>,
    pub settings: RequestSettings,
}

/// A request that has been described in full and no longer changes.
#[derive(Debug)]
pub struct Request {
    url: String,
    settings: RequestBuilder,
}

impl View for Request {
    type V = RequestDescription;

    closed spec fn view(&self) -> RequestDescription {
        RequestDescription { url: self.url@, settings: self.settings@ }
    }
}

impl Request {
    /// Starts a request: a builder in which nothing has been set.
    pub fn new() -> (builder: RequestBuilder)
        ensures
            builder@ == RequestSettings::initial(builder@.method),
    {
        RequestBuilder::default()
    }

    pub fn url(&self) -> (url: &String)
        ensures
            url@ == self@.url,
    {
        &self.url
    }

    pub fn settings(&self) -> (settings: &RequestBuilder)
        ensures
            settings@ == self@.settings,
    {
        &self.settings
    }
}

} // verus!
