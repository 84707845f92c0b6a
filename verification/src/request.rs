//! The description of a request: what a transport needs to send it.
//!
//! A description is plain data. Building one does no I/O; it either yields a
//! description that a transport can send as it stands, or says why it could not.

use crate::error::BuildError;
use vstd::prelude::*;
use vstd::string::*;

verus! {

/// The HTTP methods the exchange is spoken to with.
#[derive(Debug, Clone, Copy, PartialEq, Eq, Structural)]
pub enum Method {
    Get,
    Post,
}

/// One header line: a name and its value.
#[derive(Debug, Clone, PartialEq, Eq)]
pub struct Header {
    pub name: String,
    pub value: String,
}

impl View for Header {
    type V = (Seq<char>, Seq<char>);

    open spec fn view(&self) -> (Seq<char>, Seq<char>) {
        (self.name@, self.value@)
    }
}

/// A request, fully formed: method, absolute URL, headers and an optional body.
#[derive(Debug, Clone, PartialEq, Eq)]
pub struct RequestDescription {
    pub method: Method,
    pub url: String,
    pub headers: Vec<Header>,
    pub body: Option<Vec<u8>>,
}

/// The mathematical value of a [`RequestDescription`].
pub struct RequestView {
    pub method: Method,
    pub url: Seq<char>,
    pub headers: Seq<(Seq<char>, Seq<char>)>,
    pub body: Option<Seq<u8>>,
}

impl View for RequestDescription {
    type V = RequestView;

    open spec fn view(&self) -> RequestView {
        RequestView {
            method: self.method,
            url: self.url@,
            headers: Seq::new(self.headers@.len(), |i: int| self.headers@[i]@),
            body: match self.body {
                Some(bytes) => Some(bytes@),
                None => None,
            },
        }
    }
}

/// The value of the outcome of building a request.
pub open spec fn built_view(built: Result<RequestDescription, BuildError>) -> Result<
    RequestView,
    BuildError,
> {
    match built {
        Ok(request) => Ok(request@),
        Err(e) => Err(e),
    }
}

/// The text of a string that may be missing.
pub open spec fn text_of(s: Option<String>) -> Option<Seq<char>> {
    match s {
        Some(text) => Some(text@),
        None => None,
    }
}

/// The absolute URL that `relative` resolves to against `base`, as the `url` crate
/// writes it, or `None` where `base` is no absolute URL or `relative` does not
/// resolve against it.
pub uninterp spec fn resolved_url(base: Seq<char>, relative: Seq<char>) -> Option<Seq<char>>;

/// Whether `hyper` reads `uri` as a URI.
pub uninterp spec fn is_sendable_uri(uri: Seq<char>) -> bool;

/// A character that may stand in the value of a header: a tab, or anything from
/// the space upwards but the delete character.
pub open spec fn is_header_char(c: char) -> bool {
    c == '\t' || (c as u32 >= 32 && c as u32 != 127)
}

/// A text that can be the value of a header.
pub open spec fn is_header_value(value: Seq<char>) -> bool {
    forall|i: int| 0 <= i < value.len() ==> is_header_char(#[trigger] value[i])
}

/// The name of the header that carries the credential.
pub open spec fn authorization() -> Seq<char> {
    "Authorization"@
}

/// The value of that header for a credential.
pub open spec fn bearer(credential: Seq<char>) -> Seq<char> {
    "Bearer "@ + credential
}

/// The request that carries `credential`, given what became of its URL: `url` is
/// what the path resolved to, if it did, and `sendable` says whether that can be
/// sent. The URL is judged before the header.
pub open spec fn assembled(
    method: Method,
    url: Option<Seq<char>>,
    sendable: bool,
    credential: Seq<char>,
) -> Result<RequestView, BuildError> {
    match url {
        None => Err(BuildError::MalformedUrl),
        Some(url) => if !sendable {
            Err(BuildError::MalformedUrl)
        } else if !is_header_value(bearer(credential)) {
            Err(BuildError::InvalidHeader)
        } else {
            Ok(
                RequestView {
                    method,
                    url,
                    headers: seq![(authorization(), bearer(credential))],
                    body: None,
                },
            )
        },
    }
}

/// Whether `path` resolves against `base` to a URI that can be sent.
pub open spec fn is_sendable(base: Seq<char>, path: Seq<char>) -> bool {
    match resolved_url(base, path) {
        Some(url) => is_sendable_uri(url),
        None => false,
    }
}

/// The request that carries `credential` to `path` under `base`, or the reason why
/// there is none.
pub open spec fn authorized_request(
    method: Method,
    base: Seq<char>,
    path: Seq<char>,
    credential: Seq<char>,
) -> Result<RequestView, BuildError> {
    assembled(method, resolved_url(base, path), is_sendable(base, path), credential)
}

/// `url::Url::join` on the URL that `url::Url::parse` reads from `base`, written
/// back as a string. The result depends on the two texts alone; `None` stands for
/// the parse error of either step.
#[verifier::external_body]
fn resolve(base: &str, relative: &str) -> (resolved: Option<String>)
    ensures
        text_of(resolved) == resolved_url(base@, relative@),
{
    match url::Url::parse(base) {
        Ok(absolute) => match absolute.join(relative) {
            Ok(joined) => Some(String::from(joined)),
            Err(_) => None,
        },
        Err(_) => None,
    }
}

/// `hyper::Uri`'s `from_str`: whether the text parses as a URI. The result depends
/// on the text alone.
#[verifier::external_body]
fn uri_parses(uri: &str) -> (yes: bool)
    ensures
        yes == is_sendable_uri(uri@),
{
    uri.parse::<hyper::Uri>().is_ok()
}

/// `hyper::header::HeaderValue::from_str`: whether the text is accepted as a header
/// value. It is refused exactly where one of its bytes is below 32 and no tab, or
/// is 127. In UTF-8 a character below 128 is its own byte and every other character
/// is made of bytes from 128 upwards, so this is a condition on the characters.
#[verifier::external_body]
fn header_value_parses(value: &str) -> (yes: bool)
    ensures
        yes == is_header_value(value@),
{
    hyper::header::HeaderValue::from_str(value).is_ok()
}

impl RequestDescription {
    /// Puts a request together from what became of its URL: `url` is what the path
    /// resolved to, if it did, and `sendable` says whether that can be sent. No
    /// URL, or one that cannot be sent, gives `MalformedUrl`; otherwise a
    /// credential that no header can carry gives `InvalidHeader`; otherwise the
    /// request has the method, the URL, no body, and the one header that carries
    /// the credential.
    pub fn assemble(
        method: Method,
        url: Option<String>,
        sendable: bool,
        credential: &str,
    ) -> (built: Result<RequestDescription, BuildError>)
        ensures
            built_view(built) == assembled(method, text_of(url), sendable, credential@),
    {
        let url = match url {
            Some(url) => url,
            None => {
                return Err(BuildError::MalformedUrl);
            },
        };
        if !sendable {
            return Err(BuildError::MalformedUrl);
        }
        let mut value = "Bearer ".to_owned();
        value.append(credential);
        if !header_value_parses(value.as_str()) {
            return Err(BuildError::InvalidHeader);
        }
        let mut headers: Vec<Header> = Vec::new();
        headers.push(Header { name: "Authorization".to_owned(), value });
        let request = RequestDescription { method, url, headers, body: None };
        assert(request@.headers =~= seq![(authorization(), bearer(credential@))]);
        Ok(request)
    }

    /// Describes the request that carries `credential` as a bearer credential to
    /// `path`, resolved against `base`.
    pub fn authorized(method: Method, base: &str, path: &str, credential: &str) -> (built: Result<
        RequestDescription,
        BuildError,
    >)
        ensures
            built_view(built) == authorized_request(method, base@, path@, credential@),
    {
        let url = resolve(base, path);
        let sendable = match &url {
            Some(url) => uri_parses(url.as_str()),
            None => false,
        };
        RequestDescription::assemble(method, url, sendable, credential)
    }
}

/// A credential made of header characters alone is never the reason why a request
/// cannot be put together.
pub proof fn lemma_header_safe_credential(
    method: Method,
    url: Option<Seq<char>>,
    sendable: bool,
    credential: Seq<char>,
)
    requires
        is_header_value(credential),
    ensures
        is_header_value(bearer(credential)),
        assembled(method, url, sendable, credential) != Err::<RequestView, BuildError>(
            BuildError::InvalidHeader,
        ),
        assembled(method, url, sendable, credential) is Ok <==> url is Some && sendable,
{
    reveal_strlit("Bearer ");
    let value = bearer(credential);
    assert forall|i: int| 0 <= i < value.len() implies is_header_char(#[trigger] value[i]) by {
        if i < 7 {
            assert(value[i] == "Bearer "@[i]);
        } else {
            assert(value[i] == credential[i - 7]);
        }
    }
}

/// A request that could be put together has the method it was asked with, the URL
/// it was given, no body, and exactly one header: the credential as a bearer
/// credential under `Authorization`.
pub proof fn lemma_assembled_request(
    method: Method,
    url: Option<Seq<char>>,
    sendable: bool,
    credential: Seq<char>,
)
    ensures
        assembled(method, url, sendable, credential) matches Ok(request) ==> {
            &&& request.method == method
            &&& url == Some(request.url)
            &&& sendable
            &&& request.headers == seq![(authorization(), bearer(credential))]
            &&& request.body is None
            &&& is_header_value(bearer(credential))
        },
{
}

} // verus!
