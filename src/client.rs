//! The client configuration and the requests it plans.
//!
//! Every operation is one HTTP GET to `server + endpoint` with query pairs;
//! this module says exactly which URL and which pairs.

use vstd::prelude::*;

verus! {

/// The public service, used unless a server is configured.
pub const DEFAULT_SERVER: &'static str = "https://api2.pushdeer.com";

/// The path of the push operation under the server.
pub const PUSH_ENDPOINT: &'static str = "/message/push";

/// The kind of a message, sent on the wire as the `type` parameter.
#[derive(Debug, Clone, Copy, PartialEq, Eq, Structural)]
pub enum MessageKind {
    Text,
    Markdown,
    Image,
}

impl MessageKind {
    /// The wire name of the kind.
    pub open spec fn tag_spec(self) -> Seq<char> {
        match self {
            MessageKind::Text => "text"@,
            MessageKind::Markdown => "markdown"@,
            MessageKind::Image => "image"@,
        }
    }

    /// The wire name of the kind.
    pub fn tag(&self) -> (r: &'static str)
        ensures
            r@ == self.tag_spec(),
    {
        match self {
            MessageKind::Text => "text",
            MessageKind::Markdown => "markdown",
            MessageKind::Image => "image",
        }
    }
}

/// A client of the service: where it sends, and with which key.
pub struct PushDeer {
    server: String,
    endpoint: String,
    push_key: String,
    timeout_secs: Option<u64>,
}

/// The configuration of a client.
pub struct PushDeerView {
    pub server: Seq<char>,
    pub endpoint: Seq<char>,
    pub push_key: Seq<char>,
    /// How long a request may take, in seconds; `None` leaves it to the
    /// transport.
    pub timeout_secs: Option<u64>,
}

impl View for PushDeer {
    type V = PushDeerView;

    closed spec fn view(&self) -> PushDeerView {
        PushDeerView {
            server: self.server@,
            endpoint: self.endpoint@,
            push_key: self.push_key@,
            timeout_secs: self.timeout_secs,
        }
    }
}

/// One HTTP GET to issue: the URL and the query pairs, in order, not yet
/// URL-encoded, and the time it may take in seconds (`None`: the transport's
/// default).
pub struct PushRequest {
    pub url: String,
    pub query: Vec<(String, String)>,
    pub timeout_secs: Option<u64>,
}

/// A planned request, as text.
pub struct PushRequestView {
    pub url: Seq<char>,
    pub query: Seq<(Seq<char>, Seq<char>)>,
    pub timeout_secs: Option<u64>,
}

impl View for PushRequest {
    type V = PushRequestView;

    open spec fn view(&self) -> PushRequestView {
        PushRequestView {
            url: self.url@,
            query: self.query@.map_values(|p: (String, String)| (p.0@, p.1@)),
            timeout_secs: self.timeout_secs,
        }
    }
}

/// The text of an optional description.
pub open spec fn desp_view(desp: Option<&str>) -> Option<Seq<char>> {
    match desp {
        Some(d) => Some(d@),
        None => None,
    }
}

/// The query pairs of a push: the key and the text, then the description if
/// one was given and is not empty, then the kind unless it is plain text
/// (the service takes a missing `type` as text).
pub open spec fn query_of(
    push_key: Seq<char>,
    body: Seq<char>,
    desp: Option<Seq<char>>,
    kind: MessageKind,
) -> Seq<(Seq<char>, Seq<char>)> {
    let base = seq![("pushkey"@, push_key), ("text"@, body)];
    let with_desp = match desp {
        Some(d) => if d.len() > 0 {
            base.push(("desp"@, d))
        } else {
            base
        },
        None => base,
    };
    if kind == MessageKind::Text {
        with_desp
    } else {
        with_desp.push(("type"@, kind.tag_spec()))
    }
}

/// Whether a query holds a pair named `name`.
pub open spec fn has_param(query: Seq<(Seq<char>, Seq<char>)>, name: Seq<char>) -> bool {
    exists|i: int| 0 <= i < query.len() && #[trigger] query[i].0 == name
}

impl PushDeerView {
    /// The request that a push from this configuration issues.
    pub open spec fn request(
        self,
        body: Seq<char>,
        desp: Option<Seq<char>>,
        kind: MessageKind,
    ) -> PushRequestView {
        PushRequestView {
            url: self.server + self.endpoint,
            query: query_of(self.push_key, body, desp, kind),
            timeout_secs: self.timeout_secs,
        }
    }
}

impl PushDeer {
    /// A client of the public service with the given key.
    pub fn new(push_key: &str) -> (r: PushDeer)
        ensures
            r@ == (PushDeerView {
                server: DEFAULT_SERVER@,
                endpoint: PUSH_ENDPOINT@,
                push_key: push_key@,
                timeout_secs: None,
            }),
    {
        PushDeer {
            server: DEFAULT_SERVER.to_owned(),
            endpoint: PUSH_ENDPOINT.to_owned(),
            push_key: push_key.to_owned(),
            timeout_secs: None,
        }
    }

    /// The same client, sending to `server` (a self-hosted service) instead.
    pub fn set_server(self, server: &str) -> (r: PushDeer)
        ensures
            r@ == (PushDeerView { server: server@, ..self@ }),
    {
        PushDeer { server: server.to_owned(), ..self }
    }

    /// The same client, letting each request take at most `seconds`.
    pub fn set_timeout(self, seconds: u64) -> (r: PushDeer)
        ensures
            r@ == (PushDeerView { timeout_secs: Some(seconds), ..self@ }),
    {
        PushDeer { timeout_secs: Some(seconds), ..self }
    }

    /// The server that requests go to.
    pub fn server(&self) -> (r: &str)
        ensures
            r@ == self@.server,
    {
        self.server.as_str()
    }

    /// The path of the push operation under the server.
    pub fn endpoint(&self) -> (r: &str)
        ensures
            r@ == self@.endpoint,
    {
        self.endpoint.as_str()
    }

    /// The key that every request carries.
    pub fn push_key(&self) -> (r: &str)
        ensures
            r@ == self@.push_key,
    {
        self.push_key.as_str()
    }

    /// How long a request may take, in seconds, if that was configured.
    pub fn timeout_secs(&self) -> (r: Option<u64>)
        ensures
            r == self@.timeout_secs,
    {
        self.timeout_secs
    }

    /// The request that pushes `body`, with the description `desp` when it is
    /// given and not empty, as a message of kind `kind`.
    pub fn push(&self, body: &str, desp: Option<&str>, kind: MessageKind) -> (r: PushRequest)
        ensures
            r@ == self@.request(body@, desp_view(desp), kind),
    {
        let mut url = self.server.clone();
        url.append(self.endpoint.as_str());
        let mut query: Vec<(String, String)> = Vec::new();
        query.push(("pushkey".to_owned(), self.push_key.clone()));
        query.push(("text".to_owned(), body.to_owned()));
        match desp {
            Some(d) => {
                if !d.is_empty() {
                    query.push(("desp".to_owned(), d.to_owned()));
                }
            },
            None => {},
        }
        match kind {
            MessageKind::Text => {},
            _ => {
                query.push(("type".to_owned(), kind.tag().to_owned()));
            },
        }
        let r = PushRequest { url, query, timeout_secs: self.timeout_secs };
        assert(r@.query =~= query_of(self.push_key@, body@, desp_view(desp), kind));
        r
    }

    /// The request that pushes `body` as plain text.
    pub fn send_text(&self, body: &str) -> (r: PushRequest)
        ensures
            r@ == self@.request(body@, None, MessageKind::Text),
    {
        self.push(body, None, MessageKind::Text)
    }

    /// The request that pushes `body` as plain text, with the description `desp`.
    pub fn send_text_with_desp(&self, body: &str, desp: &str) -> (r: PushRequest)
        ensures
            r@ == self@.request(body@, Some(desp@), MessageKind::Text),
    {
        self.push(body, Some(desp), MessageKind::Text)
    }

    /// The request that pushes `body` as Markdown.
    pub fn send_markdown(&self, body: &str) -> (r: PushRequest)
        ensures
            r@ == self@.request(body@, None, MessageKind::Markdown),
    {
        self.push(body, None, MessageKind::Markdown)
    }

    /// The request that pushes `body` as Markdown, with the description `desp`.
    pub fn send_markdown_with_desp(&self, body: &str, desp: &str) -> (r: PushRequest)
        ensures
            r@ == self@.request(body@, Some(desp@), MessageKind::Markdown),
    {
        self.push(body, Some(desp), MessageKind::Markdown)
    }

    /// The request that pushes an image; `body` is the image's URL.
    pub fn send_image(&self, body: &str) -> (r: PushRequest)
        ensures
            r@ == self@.request(body@, None, MessageKind::Image),
    {
        self.push(body, None, MessageKind::Image)
    }
}

/// Every planned query starts with the key and then the text; it names a
/// description exactly when a non-empty one was given, and a type exactly when
/// the message is not plain text, each with the value that was given.
pub proof fn lemma_query_fields(
    push_key: Seq<char>,
    body: Seq<char>,
    desp: Option<Seq<char>>,
    kind: MessageKind,
)
    ensures
        ({
            let q = query_of(push_key, body, desp, kind);
            &&& q.len() >= 2
            &&& q[0] == ("pushkey"@, push_key)
            &&& q[1] == ("text"@, body)
            &&& has_param(q, "pushkey"@)
            &&& has_param(q, "text"@)
            &&& has_param(q, "desp"@) <==> (desp is Some && desp->0.len() > 0)
            &&& has_param(q, "type"@) <==> kind != MessageKind::Text
            &&& forall|i: int|
                0 <= i < q.len() && #[trigger] q[i].0 == "desp"@ ==> Some(q[i].1) == desp
            &&& forall|i: int|
                0 <= i < q.len() && #[trigger] q[i].0 == "type"@ ==> q[i].1 == kind.tag_spec()
        }),
{
    reveal_strlit("pushkey");
    reveal_strlit("text");
    reveal_strlit("desp");
    reveal_strlit("type");
    assert("pushkey"@.len() == 7 && "text"@.len() == 4 && "desp"@.len() == 4 && "type"@.len() == 4);
    assert("text"@[0] == 't' && "text"@[1] == 'e' && "desp"@[0] == 'd' && "type"@[0] == 't'
        && "type"@[1] == 'y');
    assert("pushkey"@ != "text"@ && "pushkey"@ != "desp"@ && "pushkey"@ != "type"@);
    assert("text"@ != "type"@ && "text"@ != "desp"@ && "desp"@ != "type"@);
    let q = query_of(push_key, body, desp, kind);
    let has_desp = desp is Some && desp->0.len() > 0;
    let has_type = kind != MessageKind::Text;
    let with_desp: Seq<(Seq<char>, Seq<char>)> = if has_desp {
        seq![("pushkey"@, push_key), ("text"@, body), ("desp"@, desp->0)]
    } else {
        seq![("pushkey"@, push_key), ("text"@, body)]
    };
    assert(q =~= if has_type {
        with_desp.push(("type"@, kind.tag_spec()))
    } else {
        with_desp
    });
    assert forall|i: int| 0 <= i < q.len() implies {
        ||| i == 0 && q[i] == ("pushkey"@, push_key)
        ||| i == 1 && q[i] == ("text"@, body)
        ||| has_desp && i == 2 && q[i] == ("desp"@, desp->0)
        ||| has_type && i == q.len() - 1 && q[i] == ("type"@, kind.tag_spec())
    } by {}
    assert(q[0].0 == "pushkey"@);
    assert(q[1].0 == "text"@);
    if has_desp {
        assert(q[2].0 == "desp"@);
    }
    if has_type {
        assert(q[q.len() - 1].0 == "type"@);
    }
}

} // verus!
