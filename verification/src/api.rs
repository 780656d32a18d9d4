//! The session and its operations.
//!
//! A [`Client`] is an authenticated session: the cookie, the organization
//! that the service resolved for it, the proxies to route through and the
//! headers that every request carries. It is made in two steps, because the
//! organization has to be asked for: a [`Handshake`] validates what the caller
//! supplied and names the request to send, and [`Client::try_new`] turns the
//! outcome of that request into a session or a failure.
//!
//! Every operation is a pair of functions: one that ends in `_request` and
//! describes the exchange, and one under the operation's name that decodes
//! the outcome.

use vstd::prelude::*;

use crate::error::ClientError;
use crate::json::{
    json_parse, json_text, lemma_list_without_numbers, lemma_object_without_numbers, trees_of,
    Json, JsonTree, Member, MemberTree,
};
use crate::objects::{conversations_of, history_of, text_at, text_field, Conversation, History};
use crate::proxy::{
    parse_proxy, pick, select_proxies, texts_of, uris_of, ProxyEndpoint, ProxySelection,
    RejectedProxy,
};
use crate::stream::{decode_reply, reply_of};
use crate::transport::{
    base_headers, base_lines, build, header_value_ok, headers_ok, lines_of, Form, FormFields,
    Header, Method, Outcome, Payload, PayloadContent, Request, RequestPlan, Transport,
    UploadOutcome, TIMEOUT_SECS,
};

verus! {

/// The name that a new conversation is created under.
pub const NEW_CHAT_NAME: &'static str = "test";

/// The file name that an uploaded attachment is declared under.
pub const ATTACHMENT_FILE_NAME: &'static str = "demo.pdf";

/// The media type that an uploaded attachment is declared as.
pub const ATTACHMENT_MIME: &'static str = "application/pdf";

/// The time zone that a message is sent under.
pub const TIMEZONE: &'static str = "Asia/Kolkata";

/// Whether `c` is a decimal digit or one of the letters `a` to `f`.
pub open spec fn is_hex_digit(c: char) -> bool {
    ('0' <= c <= '9') || ('a' <= c <= 'f')
}

/// Whether `s` is a random UUID in its usual spelling: 36 characters, hyphens
/// after the 8th, 12th, 16th and 20th hexadecimal digit, lower case, with the
/// version digit 4 and a variant digit from 8 to b.
pub open spec fn is_uuid_text(s: Seq<char>) -> bool {
    &&& s.len() == 36
    &&& forall|i: int|
        0 <= i < 36 ==> if i == 8 || i == 13 || i == 18 || i == 23 {
            #[trigger] s[i] == '-'
        } else {
            is_hex_digit(s[i])
        }
    &&& s[14] == '4'
    &&& (s[19] == '8' || s[19] == '9' || s[19] == 'a' || s[19] == 'b')
}

/// The organization that a listing resolves to: the `uuid` of the first entry
/// of the list, a text that is not empty.
pub open spec fn organization_in(listing: JsonTree) -> Option<Seq<char>> {
    match listing.list() {
        Some(entries) => if entries.len() > 0 {
            match text_at(entries[0], "uuid"@) {
                Some(id) => if id.len() > 0 {
                    Some(id)
                } else {
                    None
                },
                None => None,
            }
        } else {
            None
        },
        None => None,
    }
}

/// The organization that the body of an organization listing resolves to.
pub open spec fn organization_id_of(content: Seq<u8>) -> Option<Seq<char>> {
    match json_parse(content) {
        Some(listing) => organization_in(listing),
        None => None,
    }
}

/// The address of `path` at the service: always over HTTPS.
pub open spec fn service_url(host: Seq<char>, path: Seq<char>) -> Seq<char> {
    "https://"@ + host + path
}

/// The address of the organization listing.
pub open spec fn organizations_url(host: Seq<char>) -> Seq<char> {
    service_url(host, "/api/organizations"@)
}

/// The address of the conversations of an organization.
pub open spec fn conversations_url(host: Seq<char>, organization: Seq<char>) -> Seq<char> {
    service_url(host, "/api/organizations/"@) + organization + "/chat_conversations"@
}

/// The address of one conversation of an organization.
pub open spec fn conversation_url(
    host: Seq<char>,
    organization: Seq<char>,
    conversation: Seq<char>,
) -> Seq<char> {
    conversations_url(host, organization) + "/"@ + conversation
}

/// A member whose value is a string.
pub open spec fn text_member(key: Seq<char>, value: Seq<char>) -> MemberTree {
    MemberTree { key, value: JsonTree::Text(value) }
}

/// What is posted to create the conversation `id`.
pub open spec fn create_body(id: Seq<char>) -> JsonTree {
    JsonTree::Object(seq![text_member("uuid"@, id), text_member("name"@, NEW_CHAT_NAME@)])
}

/// What is posted to rename a conversation.
pub open spec fn rename_body(
    organization: Seq<char>,
    conversation: Seq<char>,
    title: Seq<char>,
) -> JsonTree {
    JsonTree::Object(
        seq![
            text_member("organization_uuid"@, organization),
            text_member("conversation_uuid"@, conversation),
            text_member("title"@, title),
        ],
    )
}

/// What is posted to append a message: the prompt twice, once inside the
/// completion descriptor and once as plain text, and the attachments, each
/// the JSON text of an uploaded document.
pub open spec fn message_body(
    model: Seq<char>,
    organization: Seq<char>,
    conversation: Seq<char>,
    prompt: Seq<char>,
    attachments: Seq<Seq<char>>,
) -> JsonTree {
    JsonTree::Object(
        seq![
            MemberTree {
                key: "completion"@,
                value: JsonTree::Object(
                    seq![
                        text_member("prompt"@, prompt),
                        text_member("timezone"@, TIMEZONE@),
                        text_member("model"@, model),
                    ],
                ),
            },
            text_member("organization_uuid"@, organization),
            text_member("conversation_uuid"@, conversation),
            text_member("text"@, prompt),
            MemberTree {
                key: "attachments"@,
                value: JsonTree::List(
                    Seq::new(attachments.len(), |i: int| JsonTree::Text(attachments[i])),
                ),
            },
        ],
    )
}

/// A request without a payload.
pub open spec fn bare_plan(method: Method, url: Seq<char>) -> RequestPlan {
    RequestPlan { method, url, payload: PayloadContent::Empty }
}

/// A request that posts the JSON text of `body`.
pub open spec fn post_plan(url: Seq<char>, body: JsonTree) -> RequestPlan {
    RequestPlan { method: Method::Post, url, payload: PayloadContent::Body(json_text(body)->0) }
}

/// The request that uploads the file at `path` for an organization.
pub open spec fn upload_plan(
    host: Seq<char>,
    organization: Seq<char>,
    path: Seq<char>,
) -> RequestPlan {
    RequestPlan {
        method: Method::Post,
        url: service_url(host, "/api/convert_document"@),
        payload: PayloadContent::Form(
            FormFields {
                org_uuid: organization,
                file_path: path,
                file_name: ATTACHMENT_FILE_NAME@,
                mime: ATTACHMENT_MIME@,
            },
        ),
    }
}

/// The error that an upload ends in where it yields no descriptor.
pub open spec fn upload_failure(outcome: UploadOutcome) -> ClientError {
    match outcome {
        UploadOutcome::Unreadable => ClientError::Io,
        UploadOutcome::Sent(Outcome::Failed) => ClientError::Transport,
        UploadOutcome::Sent(Outcome::Replied(_)) => ClientError::Decode,
    }
}

/// The descriptor that an upload yields: the JSON value of the reply, where
/// the file was opened, the request completed and the reply is JSON.
pub open spec fn upload_descriptor(outcome: UploadOutcome) -> Option<JsonTree> {
    match outcome {
        UploadOutcome::Sent(Outcome::Replied(content)) => json_parse(content@),
        _ => None,
    }
}

/// The attachments of a message, given the result of the upload that went
/// before it, if there was one: none without an upload, the JSON text of the
/// descriptor after one, and the upload's error where it failed.
pub open spec fn message_attachments(attachment: Option<Result<Json, ClientError>>) -> Result<
    Seq<Seq<char>>,
    ClientError,
> {
    match attachment {
        None => Ok(Seq::empty()),
        Some(Ok(descriptor)) => match json_text(descriptor@) {
            Some(text) => Ok(seq![text]),
            None => Err(ClientError::Decode),
        },
        Some(Err(e)) => Err(e),
    }
}

/// A listing that is empty, or whose first entry has no `uuid`, resolves to
/// no organization; nor does anything that is not a list.
pub proof fn lemma_listing_without_organization(listing: JsonTree)
    requires
        listing.list() is None || listing.list()->0.len() == 0 || listing.list()->0[0].member(
            "uuid"@,
        ) is None,
    ensures
        organization_in(listing) is None,
{
}

/// `uuid::Uuid::new_v4` and the text that `Uuid` displays as: a random UUID.
/// Which one is chance; its spelling is not.
#[verifier::external_body]
fn fresh_uuid() -> (id: String)
    ensures
        is_uuid_text(id@),
{
    uuid::Uuid::new_v4().to_string()
}

/// The organization that a parsed listing resolves to.
pub fn organization_in_listing(listing: &Json) -> (id: Option<String>)
    ensures
        id is Some <==> organization_in(listing@) is Some,
        id is Some ==> id->0@ == organization_in(listing@)->0,
{
    let entries = match listing.as_list() {
        Some(entries) => entries,
        None => {
            return None;
        },
    };
    if entries.len() == 0 {
        return None;
    }
    match text_field(&entries[0], "uuid") {
        Some(id) => {
            if id.as_str().is_empty() {
                None
            } else {
                Some(id)
            }
        },
        None => None,
    }
}

/// Resolves the organization from the body of the organization listing. A
/// body that names none is a [`ClientError::Construct`].
pub fn get_organization_id(content: &[u8]) -> (id: Result<String, ClientError>)
    ensures
        id is Ok <==> organization_id_of(content@) is Some,
        id is Ok ==> id->Ok_0@ == organization_id_of(content@)->0,
        id is Err ==> id->Err_0 == ClientError::Construct,
{
    match Json::parse(content) {
        Some(listing) => match organization_in_listing(&listing) {
            Some(id) => Ok(id),
            None => Err(ClientError::Construct),
        },
        None => Err(ClientError::Construct),
    }
}

/// The text `head` followed by `tail`.
fn join(head: &str, tail: &str) -> (text: String)
    ensures
        text@ == head@ + tail@,
{
    let mut text = head.to_owned();
    text.append(tail);
    text
}

/// The service that a session talks to: the host that serves it and the
/// model that messages are addressed to.
#[derive(Debug, PartialEq, Eq)]
pub struct Service {
    pub host: String,
    pub model: String,
}

/// What the caller supplied for a session, validated, while the organization
/// is still to be asked for.
#[derive(Debug)]
pub struct Handshake {
    service: Service,
    cookie: String,
    selection: ProxySelection,
    base_header: Vec<Header>,
}

/// An authenticated session.
#[derive(Debug)]
pub struct Client {
    service: Service,
    cookie: String,
    proxys: Vec<ProxyEndpoint>,
    organization_id: String,
    base_header: Vec<Header>,
}

/// The mathematical value of a [`Client`].
pub struct Session {
    pub host: Seq<char>,
    pub model: Seq<char>,
    pub cookie: Seq<char>,
    pub organization_id: Seq<char>,
    pub proxys: Seq<Seq<char>>,
}

impl Service {
    /// The service at `host`, with messages addressed to `model`.
    pub fn new(host: &str, model: &str) -> (service: Service)
        ensures
            service.host@ == host@,
            service.model@ == model@,
    {
        Service { host: host.to_owned(), model: model.to_owned() }
    }

    /// The address of `path` at the service.
    pub fn url(&self, path: &str) -> (url: String)
        ensures
            url@ == service_url(self.host@, path@),
    {
        let mut url = join("https://", self.host.as_str());
        url.append(path);
        url
    }
}

impl Handshake {
    #[verifier::type_invariant]
    spec fn well_formed(self) -> bool {
        &&& headers_ok(self.service.host@, self.cookie@)
        &&& lines_of(self.base_header@) == base_lines(self.service.host@, self.cookie@)
    }

    /// The cookie that the session will authenticate with.
    pub closed spec fn cookie_text(self) -> Seq<char> {
        self.cookie@
    }

    /// The host of the service that the session will talk to.
    pub closed spec fn host(self) -> Seq<char> {
        self.service.host@
    }

    /// The model that the session will address messages to.
    pub closed spec fn model(self) -> Seq<char> {
        self.service.model@
    }

    /// The URIs of the proxies that the session will route through.
    pub closed spec fn proxy_uris(self) -> Seq<Seq<char>> {
        uris_of(self.selection.accepted@)
    }

    /// The URIs that were dropped.
    pub closed spec fn rejected_uris(self) -> Seq<Seq<char>> {
        crate::proxy::rejected_uris_of(self.selection.rejected@)
    }

    /// Validates the cookie and the proxies. A cookie or a host that cannot
    /// be sent in a header fails; a proxy that cannot be used is dropped and
    /// never fails anything.
    pub fn begin(service: Service, cookie: &str, proxys: &Vec<String>) -> (handshake: Result<
        Handshake,
        ClientError,
    >)
        ensures
            handshake is Ok <==> headers_ok(service.host@, cookie@),
            handshake is Err ==> handshake->Err_0 == ClientError::Construct,
            handshake is Ok ==> handshake->Ok_0.cookie_text() == cookie@,
            handshake is Ok ==> handshake->Ok_0.host() == service.host@,
            handshake is Ok ==> handshake->Ok_0.model() == service.model@,
            handshake is Ok ==> exists|verdicts: Seq<bool>|
                #![trigger verdicts.len()]
                {
                    &&& verdicts.len() == proxys@.len()
                    &&& handshake->Ok_0.proxy_uris() == pick(texts_of(proxys@), verdicts, true)
                    &&& handshake->Ok_0.rejected_uris() == pick(
                        texts_of(proxys@),
                        verdicts,
                        false,
                    )
                },
    {
        let base_header = match base_headers(service.host.as_str(), cookie) {
            Ok(headers) => headers,
            Err(e) => {
                return Err(e);
            },
        };
        let selection = select_proxies(proxys);
        Ok(Handshake { service, cookie: cookie.to_owned(), selection, base_header })
    }

    /// The request that asks for the organizations of the cookie's owner.
    pub fn request(&self) -> (request: Request)
        ensures
            request@ == bare_plan(Method::Get, organizations_url(self.host())),
    {
        Request {
            method: Method::Get,
            url: self.service.url("/api/organizations"),
            payload: Payload::Empty,
        }
    }

    /// The headers to send the request with.
    pub fn base_header(&self) -> (headers: &Vec<Header>)
        ensures
            lines_of(headers@) == base_lines(self.host(), self.cookie_text()),
    {
        proof {
            use_type_invariant(self);
        }
        &self.base_header
    }

    /// The proxies to send the request through.
    pub fn proxys(&self) -> (proxys: &Vec<ProxyEndpoint>)
        ensures
            uris_of(proxys@) == self.proxy_uris(),
    {
        &self.selection.accepted
    }

    /// The transport to send the request with: the accepted proxies, the
    /// headers of the session and the fixed timeout.
    pub fn transport(&self) -> (transport: Transport<'_>)
        ensures
            uris_of(transport.proxies@) == self.proxy_uris(),
            lines_of(transport.headers@) == base_lines(self.host(), self.cookie_text()),
            transport.timeout_secs == TIMEOUT_SECS,
    {
        proof {
            use_type_invariant(self);
        }
        build(&self.selection.accepted, &self.base_header, TIMEOUT_SECS)
    }

    /// The proxies that were dropped, for the caller to warn about.
    pub fn rejected(&self) -> (rejected: &Vec<RejectedProxy>)
        ensures
            crate::proxy::rejected_uris_of(rejected@) == self.rejected_uris(),
    {
        &self.selection.rejected
    }
}

impl View for Client {
    type V = Session;

    closed spec fn view(&self) -> Session {
        Session {
            host: self.service.host@,
            model: self.service.model@,
            cookie: self.cookie@,
            organization_id: self.organization_id@,
            proxys: uris_of(self.proxys@),
        }
    }
}

impl Client {
    #[verifier::type_invariant]
    spec fn well_formed(self) -> bool {
        &&& self.organization_id@.len() > 0
        &&& headers_ok(self.service.host@, self.cookie@)
        &&& lines_of(self.base_header@) == base_lines(self.service.host@, self.cookie@)
    }

    /// Completes a handshake with the outcome of its request. The session
    /// exists only if the listing that came back names an organization; there
    /// is no session without one.
    pub fn try_new(handshake: Handshake, outcome: &Outcome) -> (client: Result<Client, ClientError>)
        ensures
            client is Ok <==> outcome is Replied && organization_id_of(outcome->Replied_0@)
                is Some,
            client is Ok ==> client->Ok_0@ == (Session {
                host: handshake.host(),
                model: handshake.model(),
                cookie: handshake.cookie_text(),
                organization_id: organization_id_of(outcome->Replied_0@)->0,
                proxys: handshake.proxy_uris(),
            }),
            client is Err ==> client->Err_0 == if outcome is Failed {
                ClientError::Transport
            } else {
                ClientError::Construct
            },
    {
        proof {
            use_type_invariant(&handshake);
        }
        match outcome {
            Outcome::Replied(content) => match get_organization_id(content.as_slice()) {
                Ok(organization_id) => Ok(
                    Client {
                        service: handshake.service,
                        cookie: handshake.cookie,
                        proxys: handshake.selection.accepted,
                        organization_id,
                        base_header: handshake.base_header,
                    },
                ),
                Err(e) => Err(e),
            },
            Outcome::Failed => Err(ClientError::Transport),
        }
    }

    /// The cookie that the session authenticates with.
    pub fn cookie(&self) -> (cookie: &String)
        ensures
            cookie@ == self@.cookie,
            header_value_ok(cookie@),
    {
        proof {
            use_type_invariant(self);
        }
        &self.cookie
    }

    /// The organization that the session acts for. It is never empty.
    pub fn organization_id(&self) -> (id: &String)
        ensures
            id@ == self@.organization_id,
            id@.len() > 0,
    {
        proof {
            use_type_invariant(self);
        }
        &self.organization_id
    }

    /// The proxies that requests are routed through; none means a direct
    /// connection.
    pub fn proxys(&self) -> (proxys: &Vec<ProxyEndpoint>)
        ensures
            uris_of(proxys@) == self@.proxys,
    {
        &self.proxys
    }

    /// The service that the session talks to.
    pub fn service(&self) -> (service: &Service)
        ensures
            service.host@ == self@.host,
            service.model@ == self@.model,
    {
        &self.service
    }

    /// The headers that every request carries.
    pub fn base_header(&self) -> (headers: &Vec<Header>)
        ensures
            lines_of(headers@) == base_lines(self@.host, self@.cookie),
    {
        proof {
            use_type_invariant(self);
        }
        &self.base_header
    }

    /// The transport to send every request of the session with: its proxies,
    /// its headers and the fixed timeout.
    pub fn transport(&self) -> (transport: Transport<'_>)
        ensures
            uris_of(transport.proxies@) == self@.proxys,
            lines_of(transport.headers@) == base_lines(self@.host, self@.cookie),
            transport.timeout_secs == TIMEOUT_SECS,
    {
        proof {
            use_type_invariant(self);
        }
        build(&self.proxys, &self.base_header, TIMEOUT_SECS)
    }

    /// Drops all proxies: requests go out directly from now on.
    pub fn reset_proxy(&mut self)
        ensures
            final(self)@ == (Session { proxys: Seq::empty(), ..old(self)@ }),
    {
        proof {
            use_type_invariant(&*self);
        }
        self.proxys = Vec::new();
        assert(uris_of(self.proxys@) == Seq::<Seq<char>>::empty());
    }

    /// Adds the proxy that `reqwest` made of `uri`, or leaves the session as
    /// it is where `reqwest` refused the URI.
    pub fn admit_proxy(&mut self, uri: &str, verdict: Result<reqwest::Proxy, String>)
        ensures
            final(self)@ == if verdict is Ok {
                Session { proxys: old(self)@.proxys.push(uri@), ..old(self)@ }
            } else {
                old(self)@
            },
    {
        proof {
            use_type_invariant(&*self);
        }
        match verdict {
            Ok(proxy) => {
                let ghost before = uris_of(self.proxys@);
                let mut proxys: Vec<ProxyEndpoint> = Vec::new();
                core::mem::swap(&mut self.proxys, &mut proxys);
                proxys.push(ProxyEndpoint::new(uri.to_owned(), proxy));
                self.proxys = proxys;
                assert(uris_of(self.proxys@) == before.push(uri@));
            },
            Err(_) => {},
        }
    }

    /// Routes through `proxy` as well, if `reqwest` can use it. Whether it
    /// can is for `reqwest` to say: the session either gains the proxy at the
    /// end of its list or stays as it is. Returns the reason where the proxy
    /// was refused, for the caller to warn about.
    pub fn proxy(&mut self, proxy: &str) -> (refusal: Option<String>)
        ensures
            final(self)@ == if refusal is None {
                Session { proxys: old(self)@.proxys.push(proxy@), ..old(self)@ }
            } else {
                old(self)@
            },
    {
        match parse_proxy(proxy) {
            Ok(made) => {
                self.admit_proxy(proxy, Ok(made));
                None
            },
            Err(reason) => Some(reason),
        }
    }
}

impl Client {
    /// A fresh identifier for a conversation: a random UUID.
    pub fn new_conversation_id() -> (id: String)
        ensures
            is_uuid_text(id@),
    {
        fresh_uuid()
    }

    /// The address of the conversations of the session's organization.
    fn conversations_address(&self) -> (url: String)
        ensures
            url@ == conversations_url(self@.host, self@.organization_id),
    {
        let mut url = self.service.url("/api/organizations/");
        url.append(self.organization_id.as_str());
        url.append("/chat_conversations");
        url
    }

    /// The address of one conversation of the session's organization.
    fn conversation_address(&self, conversation_id: &str) -> (url: String)
        ensures
            url@ == conversation_url(self@.host, self@.organization_id, conversation_id@),
    {
        let mut url = self.conversations_address();
        url.append("/");
        url.append(conversation_id);
        url
    }

    /// The request that lists the conversations of the organization.
    pub fn list_all_conversations_request(&self) -> (request: Request)
        ensures
            request@ == bare_plan(Method::Get, conversations_url(self@.host, self@.organization_id)),
    {
        Request { method: Method::Get, url: self.conversations_address(), payload: Payload::Empty }
    }

    /// The conversations that the listing names. A reply that is not a list
    /// of conversations is a [`ClientError::Decode`], a request that did not
    /// complete a [`ClientError::Transport`].
    pub fn list_all_conversations(&self, outcome: &Outcome) -> (conversations: Result<
        Vec<Conversation>,
        ClientError,
    >)
        ensures
            conversations is Ok <==> outcome is Replied && json_parse(outcome->Replied_0@) is Some
                && conversations_of(json_parse(outcome->Replied_0@)->0) is Some,
            conversations is Ok ==> conversations->Ok_0@.len() == conversations_of(
                json_parse(outcome->Replied_0@)->0,
            )->0.len(),
            conversations is Ok ==> forall|i: int|
                0 <= i < conversations->Ok_0@.len() ==> (#[trigger] conversations->Ok_0@[i])@
                    == conversations_of(json_parse(outcome->Replied_0@)->0)->0[i],
            conversations is Err ==> conversations->Err_0 == if outcome is Failed {
                ClientError::Transport
            } else {
                ClientError::Decode
            },
    {
        match outcome {
            Outcome::Replied(content) => match Json::parse(content.as_slice()) {
                Some(json) => match Conversation::list_from_json(&json) {
                    Some(conversations) => Ok(conversations),
                    None => Err(ClientError::Decode),
                },
                None => Err(ClientError::Decode),
            },
            Outcome::Failed => Err(ClientError::Transport),
        }
    }

    /// The request that creates the conversation `id` under the default name.
    pub fn create_chat_conversation_request(&self, id: &str) -> (request: Request)
        ensures
            json_text(create_body(id@)) is Some,
            request@ == post_plan(conversations_url(self@.host, self@.organization_id), create_body(id@)),
    {
        let mut members: Vec<Member> = Vec::new();
        members.push(Member::text("uuid", id));
        members.push(Member::text("name", NEW_CHAT_NAME));
        let body = Json::object(members);
        proof {
            assert(body@->Object_0 =~= create_body(id@)->Object_0);
            lemma_object_without_numbers(create_body(id@)->Object_0);
        }
        let text = match body.render() {
            Some(text) => text,
            None => String::new(),
        };
        Request {
            method: Method::Post,
            url: self.conversations_address(),
            payload: Payload::Body(text),
        }
    }

    /// A fresh identifier and the request that creates a conversation under
    /// it.
    pub fn create_chat_conversation_start(&self) -> (start: (String, Request))
        ensures
            is_uuid_text(start.0@),
            start.1@ == post_plan(
                conversations_url(self@.host, self@.organization_id),
                create_body(start.0@),
            ),
    {
        let id = Client::new_conversation_id();
        let request = self.create_chat_conversation_request(id.as_str());
        (id, request)
    }

    /// The identifier of the created conversation, once its request has
    /// completed. What the service replied is not looked at. A request that
    /// did not complete is a [`ClientError::Operation`].
    pub fn create_chat_conversation(&self, id: String, outcome: &Outcome) -> (created: Result<
        String,
        ClientError,
    >)
        ensures
            created is Ok <==> outcome is Replied,
            created is Ok ==> created->Ok_0 == id,
            created is Err ==> created->Err_0 == ClientError::Operation,
    {
        match outcome {
            Outcome::Replied(_) => Ok(id),
            Outcome::Failed => Err(ClientError::Operation),
        }
    }

    /// The request that deletes a conversation.
    pub fn delete_chat_conversation_request(&self, conversation_id: &str) -> (request: Request)
        ensures
            request@ == bare_plan(
                Method::Delete,
                conversation_url(self@.host, self@.organization_id, conversation_id@),
            ),
    {
        Request {
            method: Method::Delete,
            url: self.conversation_address(conversation_id),
            payload: Payload::Empty,
        }
    }

    /// Whether the deletion went through: it did if its request completed.
    pub fn delete_chat_conversation(&self, outcome: &Outcome) -> (deleted: Result<(), ClientError>)
        ensures
            deleted is Ok <==> outcome is Replied,
            deleted is Err ==> deleted->Err_0 == ClientError::Operation,
    {
        match outcome {
            Outcome::Replied(_) => Ok(()),
            Outcome::Failed => Err(ClientError::Operation),
        }
    }

    /// The request that gives a conversation a new title.
    pub fn rename_chat_conversation_request(&self, conversation_id: &str, new_title: &str) -> (request:
        Request)
        ensures
            json_text(rename_body(self@.organization_id, conversation_id@, new_title@)) is Some,
            request@ == post_plan(
                service_url(self@.host, "/api/rename_chat"@),
                rename_body(self@.organization_id, conversation_id@, new_title@),
            ),
    {
        let mut members: Vec<Member> = Vec::new();
        members.push(Member::text("organization_uuid", self.organization_id.as_str()));
        members.push(Member::text("conversation_uuid", conversation_id));
        members.push(Member::text("title", new_title));
        let body = Json::object(members);
        proof {
            let wanted = rename_body(self@.organization_id, conversation_id@, new_title@);
            assert(body@->Object_0 =~= wanted->Object_0);
            lemma_object_without_numbers(wanted->Object_0);
        }
        let text = match body.render() {
            Some(text) => text,
            None => String::new(),
        };
        Request {
            method: Method::Post,
            url: self.service.url("/api/rename_chat"),
            payload: Payload::Body(text),
        }
    }

    /// Whether the renaming went through: it did if its request completed.
    pub fn rename_chat_conversation(&self, outcome: &Outcome) -> (renamed: Result<(), ClientError>)
        ensures
            renamed is Ok <==> outcome is Replied,
            renamed is Err ==> renamed->Err_0 == ClientError::Operation,
    {
        match outcome {
            Outcome::Replied(_) => Ok(()),
            Outcome::Failed => Err(ClientError::Operation),
        }
    }

    /// The request that uploads the file at `filename` for conversion. The
    /// file is streamed; the caller opens it and reports a file that cannot be
    /// opened as [`UploadOutcome::Unreadable`], without sending anything.
    pub fn upload_attachment_request(&self, filename: &str) -> (request: Request)
        ensures
            request@ == upload_plan(self@.host, self@.organization_id, filename@),
    {
        Request {
            method: Method::Post,
            url: self.service.url("/api/convert_document"),
            payload: Payload::Form(
                Form {
                    org_uuid: self.organization_id.clone(),
                    file_path: filename.to_owned(),
                    file_name: ATTACHMENT_FILE_NAME.to_owned(),
                    mime: ATTACHMENT_MIME.to_owned(),
                },
            ),
        }
    }

    /// The descriptor that the service returned for an uploaded file: any
    /// JSON value, passed on as it came. A file that could not be opened is a
    /// [`ClientError::Io`], a request that did not complete a
    /// [`ClientError::Transport`], a reply that is not JSON a
    /// [`ClientError::Decode`].
    pub fn upload_attachment(&self, outcome: &UploadOutcome) -> (descriptor: Result<
        Json,
        ClientError,
    >)
        ensures
            descriptor is Ok <==> upload_descriptor(*outcome) is Some,
            descriptor is Ok ==> descriptor->Ok_0@ == upload_descriptor(*outcome)->0,
            descriptor is Err ==> descriptor->Err_0 == upload_failure(*outcome),
    {
        match outcome {
            UploadOutcome::Unreadable => Err(ClientError::Io),
            UploadOutcome::Sent(Outcome::Failed) => Err(ClientError::Transport),
            UploadOutcome::Sent(Outcome::Replied(content)) => match Json::parse(
                content.as_slice(),
            ) {
                Some(json) => Ok(json),
                None => Err(ClientError::Decode),
            },
        }
    }

    /// The request that appends `prompt` to a conversation. `attachment` is
    /// the result of the upload that went before, where the message has an
    /// attachment: a failed upload fails the message with the upload's error,
    /// and nothing is to be sent; a descriptor is attached as its JSON text. A
    /// descriptor that has no JSON text is a [`ClientError::Decode`].
    pub fn send_message_request(
        &self,
        conversation_id: &str,
        prompt: &str,
        attachment: Option<Result<Json, ClientError>>,
    ) -> (request: Result<Request, ClientError>)
        ensures
            request is Ok <==> message_attachments(attachment) is Ok,
            request is Ok ==> json_text(
                message_body(
                    self@.model,
                    self@.organization_id,
                    conversation_id@,
                    prompt@,
                    message_attachments(attachment)->Ok_0,
                ),
            ) is Some,
            request is Ok ==> request->Ok_0@ == post_plan(
                service_url(self@.host, "/api/append_message"@),
                message_body(
                    self@.model,
                    self@.organization_id,
                    conversation_id@,
                    prompt@,
                    message_attachments(attachment)->Ok_0,
                ),
            ),
            request is Err ==> request->Err_0 == message_attachments(attachment)->Err_0,
    {
        let mut attachments: Vec<Json> = Vec::new();
        match attachment {
            Some(Ok(descriptor)) => match descriptor.render() {
                Some(text) => {
                    attachments.push(Json::Text(text));
                },
                None => {
                    return Err(ClientError::Decode);
                },
            },
            Some(Err(e)) => {
                return Err(e);
            },
            None => {},
        }
        let ghost texts = message_attachments(attachment)->Ok_0;
        let ghost wanted = message_body(
            self@.model,
            self@.organization_id,
            conversation_id@,
            prompt@,
            texts,
        );
        assert(trees_of(attachments@) =~= Seq::new(texts.len(), |i: int| JsonTree::Text(texts[i])));
        let mut completion: Vec<Member> = Vec::new();
        completion.push(Member::text("prompt", prompt));
        completion.push(Member::text("timezone", TIMEZONE));
        completion.push(Member::text("model", self.service.model.as_str()));
        let completion = Json::object(completion);
        assert(completion@->Object_0 =~= wanted->Object_0[0].value->Object_0);
        let mut members: Vec<Member> = Vec::new();
        members.push(Member::new("completion", completion));
        members.push(Member::text("organization_uuid", self.organization_id.as_str()));
        members.push(Member::text("conversation_uuid", conversation_id));
        members.push(Member::text("text", prompt));
        members.push(Member::new("attachments", Json::list(attachments)));
        let body = Json::object(members);
        proof {
            assert(body@->Object_0 =~= wanted->Object_0);
            lemma_object_without_numbers(wanted->Object_0[0].value->Object_0);
            lemma_list_without_numbers(wanted->Object_0[4].value->List_0);
            lemma_object_without_numbers(wanted->Object_0);
        }
        let text = match body.render() {
            Some(text) => text,
            None => String::new(),
        };
        Ok(
            Request {
                method: Method::Post,
                url: self.service.url("/api/append_message"),
                payload: Payload::Body(text),
            },
        )
    }

    /// The answer to a message: the JSON value that the terminal record of
    /// the streamed reply carries. A reply without one is a
    /// [`ClientError::Format`], a request that did not complete a
    /// [`ClientError::Operation`].
    pub fn send_message(&self, outcome: &Outcome) -> (answer: Result<Json, ClientError>)
        ensures
            answer is Ok <==> outcome is Replied && reply_of(outcome->Replied_0@) is Some,
            answer is Ok ==> answer->Ok_0@ == reply_of(outcome->Replied_0@)->0,
            answer is Err ==> answer->Err_0 == if outcome is Failed {
                ClientError::Operation
            } else {
                ClientError::Format
            },
    {
        match outcome {
            Outcome::Replied(content) => decode_reply(content.as_slice()),
            Outcome::Failed => Err(ClientError::Operation),
        }
    }

    /// The request that fetches a conversation with its messages.
    pub fn chat_conversation_history_request(&self, conversation_id: &str) -> (request: Request)
        ensures
            request@ == bare_plan(
                Method::Get,
                conversation_url(self@.host, self@.organization_id, conversation_id@),
            ),
    {
        Request {
            method: Method::Get,
            url: self.conversation_address(conversation_id),
            payload: Payload::Empty,
        }
    }

    /// The history that the service returned. A reply that does not describe
    /// one is a [`ClientError::Decode`], a request that did not complete a
    /// [`ClientError::Operation`].
    pub fn chat_conversation_history(&self, outcome: &Outcome) -> (history: Result<
        History,
        ClientError,
    >)
        ensures
            history is Ok <==> outcome is Replied && json_parse(outcome->Replied_0@) is Some
                && history_of(json_parse(outcome->Replied_0@)->0) is Some,
            history is Ok ==> history->Ok_0@ == history_of(json_parse(outcome->Replied_0@)->0)->0,
            history is Err ==> history->Err_0 == if outcome is Failed {
                ClientError::Operation
            } else {
                ClientError::Decode
            },
    {
        match outcome {
            Outcome::Replied(content) => match Json::parse(content.as_slice()) {
                Some(json) => match History::from_json(&json) {
                    Some(history) => Ok(history),
                    None => Err(ClientError::Decode),
                },
                None => Err(ClientError::Decode),
            },
            Outcome::Failed => Err(ClientError::Operation),
        }
    }
}

} // verus!
