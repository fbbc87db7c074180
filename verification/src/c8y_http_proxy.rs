//! The decisions of the proxy through which every request to the REST API
//! of Cumulocity goes: which request to send next, when to ask for a fresh
//! token or a fresh internal device identifier, and when to give up.
//!
//! The proxy has one call in flight at a time. Whoever runs it sends what
//! [`C8YHttpProxy::handle`] asks for and hands back what came of it.

use crate::assoc::with_pairs;
use crate::assoc::map_of;
use crate::json::{object_text, parsed_object, JsonModel, JsonObject, JsonValue};
use crate::text::{find_char, first_index_of};
use crate::timestamp::{rfc3339_text, Timestamp};
use vstd::prelude::*;

verus! {

/// Seconds between two attempts to learn the internal identifier of the
/// main device when the proxy starts.
pub const RETRY_TIMEOUT_SECS: u64 = 20;

/// Why a call of the proxy fails.
#[derive(Debug)]
pub enum C8YRestError {
    /// The cloud answered with this status.
    HttpStatusError(u16),
    /// The request did not reach the cloud.
    HttpError,
    /// No token could be had.
    JwtUnavailable,
    /// The proxy was told to stop.
    Interrupted,
    /// The answer of the cloud held no internal identifier.
    InvalidResponse,
    /// Something came back that was not asked for.
    OutOfOrder,
    CustomError(String),
}

/// The mathematical value of a [`C8YRestError`].
pub enum ErrorModel {
    HttpStatusError(u16),
    HttpError,
    JwtUnavailable,
    Interrupted,
    InvalidResponse,
    OutOfOrder,
    CustomError(Seq<char>),
}

impl View for C8YRestError {
    type V = ErrorModel;

    open spec fn view(&self) -> ErrorModel {
        match self {
            C8YRestError::HttpStatusError(code) => ErrorModel::HttpStatusError(*code),
            C8YRestError::HttpError => ErrorModel::HttpError,
            C8YRestError::JwtUnavailable => ErrorModel::JwtUnavailable,
            C8YRestError::Interrupted => ErrorModel::Interrupted,
            C8YRestError::InvalidResponse => ErrorModel::InvalidResponse,
            C8YRestError::OutOfOrder => ErrorModel::OutOfOrder,
            C8YRestError::CustomError(text) => ErrorModel::CustomError(text@),
        }
    }
}

/// What has to happen once an internal identifier has come.
#[derive(Debug, Clone, Copy, PartialEq, Eq, Structural)]
pub enum Resume {
    /// The proxy was starting: it is ready.
    Init,
    /// A call waits for the identifier: its request is sent with it, for
    /// the first time where the proxy held none, again where the request was
    /// answered with `404`.
    Call { token_refreshed: bool, id_refreshed: bool },
}

/// Where the proxy stands.
#[derive(Debug, Clone, Copy, PartialEq, Eq, Structural)]
pub enum Phase {
    /// Nothing is in flight.
    Idle,
    /// A request is in flight.
    Request { token_refreshed: bool, id_refreshed: bool },
    /// A token was asked for, to send the request again.
    TokenForRequest { id_refreshed: bool },
    /// A token was asked for, to ask for an internal identifier.
    TokenForId { retried: bool, resume: Resume },
    /// An internal identifier was asked for.
    IdRequest { retried: bool, resume: Resume },
    /// The proxy could not start and waits to try again.
    InitBackoff,
}

/// What came back.
#[derive(Debug)]
pub enum Event {
    /// The cloud answered, with this status and, where the request was for
    /// an internal identifier and the answer held one, with that.
    Response { status: u16, internal_id: Option<String> },
    /// The token retriever answered.
    Token(Option<String>),
    /// The request did not reach the cloud.
    NetworkError,
    /// The time to wait is over.
    TimerElapsed,
    /// The proxy is told to stop.
    Shutdown,
}

/// The mathematical value of an [`Event`].
pub enum EventModel {
    Response { status: u16, internal_id: Option<Seq<char>> },
    Token(Option<Seq<char>>),
    NetworkError,
    TimerElapsed,
    Shutdown,
}

/// The view of an optional text.
pub open spec fn optional_text(text: Option<String>) -> Option<Seq<char>> {
    match text {
        Some(text) => Some(text@),
        None => None,
    }
}

impl View for Event {
    type V = EventModel;

    open spec fn view(&self) -> EventModel {
        match self {
            Event::Response { status, internal_id } => EventModel::Response {
                status: *status,
                internal_id: optional_text(*internal_id),
            },
            Event::Token(token) => EventModel::Token(optional_text(*token)),
            Event::NetworkError => EventModel::NetworkError,
            Event::TimerElapsed => EventModel::TimerElapsed,
            Event::Shutdown => EventModel::Shutdown,
        }
    }
}

/// What the proxy asks for next.
#[derive(Debug)]
pub enum Action {
    /// Send the request of the call, built for this internal identifier,
    /// with this bearer token.
    Send { internal_id: String, token: String },
    /// Ask the cloud for an internal identifier at this address, with this
    /// bearer token.
    GetInternalId { url: String, token: String },
    /// Ask the token retriever for a token.
    FetchToken,
    /// Wait for so many seconds, or until told to stop.
    Wait { seconds: u64 },
    /// The call is done: the last answer of the cloud is its result.
    Success,
    /// The call failed.
    Failure(C8YRestError),
}

/// The mathematical value of an [`Action`].
pub enum ActionModel {
    Send { internal_id: Seq<char>, token: Seq<char> },
    GetInternalId { url: Seq<char>, token: Seq<char> },
    FetchToken,
    Wait { seconds: u64 },
    Success,
    Failure(ErrorModel),
}

impl View for Action {
    type V = ActionModel;

    open spec fn view(&self) -> ActionModel {
        match self {
            Action::Send { internal_id, token } => ActionModel::Send {
                internal_id: internal_id@,
                token: token@,
            },
            Action::GetInternalId { url, token } => ActionModel::GetInternalId {
                url: url@,
                token: token@,
            },
            Action::FetchToken => ActionModel::FetchToken,
            Action::Wait { seconds } => ActionModel::Wait { seconds: *seconds },
            Action::Success => ActionModel::Success,
            Action::Failure(error) => ActionModel::Failure(error@),
        }
    }
}

/// What the proxy knows and where it stands.
pub struct ProxyModel {
    pub c8y_host: Seq<char>,
    pub device_id: Seq<char>,
    /// The internal identifier of the main device, empty while unknown.
    pub c8y_internal_id: Seq<char>,
    pub token: Option<Seq<char>>,
    /// The internal identifiers of the child devices, by their external
    /// identifiers.
    pub child_internal_ids: Map<Seq<char>, JsonModel>,
    /// The child device that the call in flight is for, if any.
    pub target: Option<Seq<char>>,
    pub phase: Phase,
}

/// The address at which the cloud tells the internal identifier of a
/// device.
pub open spec fn url_for_get_id(host: Seq<char>, external_id: Seq<char>) -> Seq<char> {
    "https://"@ + host + "/identity/externalIds/c8y_Serial/"@ + external_id
}

/// The address of the software list of a device.
pub open spec fn url_for_sw_list(host: Seq<char>, internal_id: Seq<char>) -> Seq<char> {
    "https://"@ + host + "/inventory/managedObjects/"@ + internal_id
}

/// The address at which events are created.
pub open spec fn url_for_create_event(host: Seq<char>) -> Seq<char> {
    "https://"@ + host + "/event/events/"@
}

/// The address at which the binary of an event is uploaded.
pub open spec fn url_for_event_binary_upload(host: Seq<char>, event_id: Seq<char>) -> Seq<char> {
    "https://"@ + host + "/event/events/"@ + event_id + "/binaries"@
}

/// The external identifier of the device that a call is for.
pub open spec fn target_external_id(proxy: ProxyModel) -> Seq<char> {
    match proxy.target {
        Some(child) => child,
        None => proxy.device_id,
    }
}

/// The internal identifier that the proxy holds for the device that a call
/// is for; empty where it holds none.
pub open spec fn target_internal_id(proxy: ProxyModel) -> Seq<char> {
    match proxy.target {
        Some(child) => if proxy.child_internal_ids.contains_key(child)
            && proxy.child_internal_ids[child] is Text {
            proxy.child_internal_ids[child]->Text_0
        } else {
            Seq::<char>::empty()
        },
        None => proxy.c8y_internal_id,
    }
}

/// The bearer token of a request: the token that the proxy holds, empty
/// where it holds none.
pub open spec fn bearer(proxy: ProxyModel) -> Seq<char> {
    match proxy.token {
        Some(token) => token,
        None => Seq::<char>::empty(),
    }
}

/// The proxy without the internal identifier of the device that the call
/// is for.
pub open spec fn without_target_id(proxy: ProxyModel) -> ProxyModel {
    match proxy.target {
        Some(child) => ProxyModel {
            child_internal_ids: proxy.child_internal_ids.remove(child),
            ..proxy
        },
        None => ProxyModel { c8y_internal_id: Seq::<char>::empty(), ..proxy },
    }
}

/// The proxy with an internal identifier for the device that the call is
/// for.
pub open spec fn with_target_id(proxy: ProxyModel, internal_id: Seq<char>) -> ProxyModel {
    match proxy.target {
        Some(child) => ProxyModel {
            child_internal_ids: proxy.child_internal_ids.insert(
                child,
                JsonModel::Text(internal_id),
            ),
            ..proxy
        },
        None => ProxyModel { c8y_internal_id: internal_id, ..proxy },
    }
}

/// Whether a status tells success.
pub open spec fn is_success(status: u16) -> bool {
    200 <= status <= 299
}

/// Whether a status tells that the token is not accepted.
pub open spec fn is_auth_failure(status: u16) -> bool {
    status == 401 || status == 403
}

/// The proxy when a call ends, and the end of the call.
pub open spec fn finish(proxy: ProxyModel, action: ActionModel) -> (ProxyModel, ActionModel) {
    (ProxyModel { phase: Phase::Idle, target: None, ..proxy }, action)
}

/// The end of a request for an internal identifier that failed: while the
/// proxy starts it waits and tries again; within a call the call fails.
pub open spec fn id_failed(proxy: ProxyModel, resume: Resume, error: ErrorModel) -> (
    ProxyModel,
    ActionModel,
) {
    match resume {
        Resume::Init => (
            ProxyModel { phase: Phase::InitBackoff, ..proxy },
            ActionModel::Wait { seconds: RETRY_TIMEOUT_SECS },
        ),
        Resume::Call { .. } => finish(proxy, ActionModel::Failure(error)),
    }
}

/// The request for the internal identifier of the device that the call is
/// for: with the token that the proxy holds, or, where it holds none, after
/// a token has been asked for.
pub open spec fn ask_for_id(proxy: ProxyModel, retried: bool, resume: Resume) -> (
    ProxyModel,
    ActionModel,
) {
    match proxy.token {
        Some(token) => (
            ProxyModel { phase: Phase::IdRequest { retried: retried, resume: resume }, ..proxy },
            ActionModel::GetInternalId {
                url: url_for_get_id(proxy.c8y_host, target_external_id(proxy)),
                token: token,
            },
        ),
        None => (
            ProxyModel { phase: Phase::TokenForId { retried: retried, resume: resume }, ..proxy },
            ActionModel::FetchToken,
        ),
    }
}

/// The proxy and what it asks for when it starts: the internal identifier
/// of the main device.
pub open spec fn started(proxy: ProxyModel) -> (ProxyModel, ActionModel) {
    ask_for_id(ProxyModel { target: None, ..proxy }, false, Resume::Init)
}

/// The proxy and what it asks for when a call begins: the request, built
/// with the internal identifier and the token that the proxy holds. Where it
/// holds no internal identifier for the device of the call, it asks for that
/// first; that first fetch is no refresh, so the request that follows it is
/// still sent again after a `404`.
pub open spec fn begun(proxy: ProxyModel, child: Option<Seq<char>>) -> (ProxyModel, ActionModel) {
    let aimed = ProxyModel { target: child, ..proxy };
    if target_internal_id(aimed).len() == 0 {
        ask_for_id(aimed, false, Resume::Call { token_refreshed: false, id_refreshed: false })
    } else {
        (
            ProxyModel {
                phase: Phase::Request { token_refreshed: false, id_refreshed: false },
                ..aimed
            },
            ActionModel::Send { internal_id: target_internal_id(aimed), token: bearer(aimed) },
        )
    }
}

/// The proxy and what it asks for after something came back.
///
/// A request that is answered with success is done. One that is answered
/// with `401` or `403` is sent once more with a fresh token; one that is
/// answered with `404` is sent once more with a fresh internal identifier.
/// The second failure of the same kind, and any other status, fail the call
/// with that status. A request that does not reach the cloud fails the call.
pub open spec fn next(proxy: ProxyModel, event: EventModel) -> (ProxyModel, ActionModel) {
    match (proxy.phase, event) {
        (_, EventModel::NetworkError) => match proxy.phase {
            Phase::IdRequest { resume, .. } => id_failed(proxy, resume, ErrorModel::HttpError),
            Phase::Request { .. } => finish(proxy, ActionModel::Failure(ErrorModel::HttpError)),
            _ => finish(proxy, ActionModel::Failure(ErrorModel::OutOfOrder)),
        },
        (Phase::Request { token_refreshed, id_refreshed }, EventModel::Response { status, .. }) => {
            if is_success(status) {
                finish(proxy, ActionModel::Success)
            } else if is_auth_failure(status) && !token_refreshed {
                (
                    ProxyModel {
                        token: None,
                        phase: Phase::TokenForRequest { id_refreshed: id_refreshed },
                        ..proxy
                    },
                    ActionModel::FetchToken,
                )
            } else if status == 404 && !id_refreshed {
                ask_for_id(
                    without_target_id(proxy),
                    false,
                    Resume::Call { token_refreshed: token_refreshed, id_refreshed: true },
                )
            } else {
                finish(proxy, ActionModel::Failure(ErrorModel::HttpStatusError(status)))
            }
        },
        (Phase::TokenForRequest { id_refreshed }, EventModel::Token(token)) => match token {
            Some(token) => {
                let refreshed = ProxyModel { token: Some(token), ..proxy };
                (
                    ProxyModel {
                        phase: Phase::Request { token_refreshed: true, id_refreshed: id_refreshed },
                        ..refreshed
                    },
                    ActionModel::Send {
                        internal_id: target_internal_id(refreshed),
                        token: token,
                    },
                )
            },
            None => finish(proxy, ActionModel::Failure(ErrorModel::JwtUnavailable)),
        },
        (Phase::TokenForId { retried, resume }, EventModel::Token(token)) => match token {
            Some(token) => ask_for_id(ProxyModel { token: Some(token), ..proxy }, retried, resume),
            None => id_failed(proxy, resume, ErrorModel::JwtUnavailable),
        },
        (Phase::IdRequest { retried, resume }, EventModel::Response { status, internal_id }) => {
            if is_success(status) {
                match internal_id {
                    Some(internal_id) => {
                        let known = with_target_id(proxy, internal_id);
                        match resume {
                            Resume::Init => finish(known, ActionModel::Success),
                            Resume::Call { token_refreshed, id_refreshed } => (
                                ProxyModel {
                                    phase: Phase::Request {
                                        token_refreshed: token_refreshed,
                                        id_refreshed: id_refreshed,
                                    },
                                    ..known
                                },
                                ActionModel::Send { internal_id: internal_id, token: bearer(known) },
                            ),
                        }
                    },
                    None => id_failed(proxy, resume, ErrorModel::InvalidResponse),
                }
            } else if is_auth_failure(status) && !retried {
                (
                    ProxyModel {
                        token: None,
                        phase: Phase::TokenForId { retried: true, resume: resume },
                        ..proxy
                    },
                    ActionModel::FetchToken,
                )
            } else {
                id_failed(proxy, resume, ErrorModel::HttpStatusError(status))
            }
        },
        (Phase::InitBackoff, EventModel::TimerElapsed) => started(proxy),
        (Phase::InitBackoff, EventModel::Shutdown) => finish(
            proxy,
            ActionModel::Failure(ErrorModel::Interrupted),
        ),
        _ => finish(proxy, ActionModel::Failure(ErrorModel::OutOfOrder)),
    }
}

/// The proxy: what it knows of the cloud, and where it stands.
#[derive(Debug)]
pub struct C8YHttpProxy {
    pub c8y_host: String,
    pub device_id: String,
    pub c8y_internal_id: String,
    pub token: Option<String>,
    pub child_internal_ids: JsonObject,
    pub target: Option<String>,
    pub phase: Phase,
}

impl View for C8YHttpProxy {
    type V = ProxyModel;

    open spec fn view(&self) -> ProxyModel {
        ProxyModel {
            c8y_host: self.c8y_host@,
            device_id: self.device_id@,
            c8y_internal_id: self.c8y_internal_id@,
            token: optional_text(self.token),
            child_internal_ids: self.child_internal_ids@,
            target: optional_text(self.target),
            phase: self.phase,
        }
    }
}

impl C8YHttpProxy {
    /// A proxy for a device, which knows neither internal identifiers nor a
    /// token yet.
    pub fn new(c8y_host: &str, device_id: &str) -> (r: C8YHttpProxy)
        ensures
            r@ == (ProxyModel {
                c8y_host: c8y_host@,
                device_id: device_id@,
                c8y_internal_id: Seq::<char>::empty(),
                token: None,
                child_internal_ids: Map::empty(),
                target: None,
                phase: Phase::Idle,
            }),
    {
        C8YHttpProxy {
            c8y_host: String::from_str(c8y_host),
            device_id: String::from_str(device_id),
            c8y_internal_id: String::new(),
            token: None,
            child_internal_ids: JsonObject::new(),
            target: None,
            phase: Phase::Idle,
        }
    }

    /// The internal identifier of the main device, empty while unknown.
    pub fn get_c8y_internal_id(&self) -> (r: &str)
        ensures
            r@ == self@.c8y_internal_id,
    {
        self.c8y_internal_id.as_str()
    }

    /// Whether the proxy still has to start.
    pub fn needs_init(&self) -> (r: bool)
        ensures
            r == (self@.c8y_internal_id.len() == 0),
    {
        self.c8y_internal_id.as_str().is_empty()
    }

    /// The address at which the cloud tells the internal identifier of a
    /// device: of a child, or of the main device.
    pub fn get_url_for_get_id(&self, device_id: Option<&str>) -> (r: String)
        ensures
            r@ == url_for_get_id(
                self@.c8y_host,
                match device_id {
                    Some(id) => id@,
                    None => self@.device_id,
                },
            ),
    {
        let mut url = String::from_str("https://");
        url.append(self.c8y_host.as_str());
        url.append("/identity/externalIds/c8y_Serial/");
        match device_id {
            Some(id) => url.append(id),
            None => url.append(self.device_id.as_str()),
        }
        url
    }

    /// The address of the software list of the main device.
    pub fn get_url_for_sw_list(&self) -> (r: String)
        ensures
            r@ == url_for_sw_list(self@.c8y_host, self@.c8y_internal_id),
    {
        let mut url = String::from_str("https://");
        url.append(self.c8y_host.as_str());
        url.append("/inventory/managedObjects/");
        url.append(self.c8y_internal_id.as_str());
        url
    }

    /// The address at which events are created.
    pub fn get_url_for_create_event(&self) -> (r: String)
        ensures
            r@ == url_for_create_event(self@.c8y_host),
    {
        let mut url = String::from_str("https://");
        url.append(self.c8y_host.as_str());
        url.append("/event/events/");
        url
    }

    /// The address at which the binary of an event is uploaded.
    pub fn get_url_for_event_binary_upload(&self, event_id: &str) -> (r: String)
        ensures
            r@ == url_for_event_binary_upload(self@.c8y_host, event_id@),
    {
        let mut url = String::from_str("https://");
        url.append(self.c8y_host.as_str());
        url.append("/event/events/");
        url.append(event_id);
        url.append("/binaries");
        url
    }

    fn target_id(&self) -> (r: String)
        ensures
            r@ == target_internal_id(self@),
    {
        match &self.target {
            Some(child) => match self.child_internal_ids.get(child.as_str()) {
                Some(JsonValue::Text(id)) => id.clone(),
                _ => String::new(),
            },
            None => self.c8y_internal_id.clone(),
        }
    }

    fn bearer_token(&self) -> (r: String)
        ensures
            r@ == bearer(self@),
    {
        match &self.token {
            Some(token) => token.clone(),
            None => String::new(),
        }
    }

    fn end(&mut self, action: Action) -> (r: Action)
        ensures
            (final(self)@, r@) == finish(old(self)@, action@),
    {
        self.phase = Phase::Idle;
        self.target = None;
        action
    }

    fn fail_id(&mut self, resume: Resume, error: C8YRestError) -> (r: Action)
        ensures
            (final(self)@, r@) == id_failed(old(self)@, resume, error@),
    {
        match resume {
            Resume::Init => {
                self.phase = Phase::InitBackoff;
                Action::Wait { seconds: RETRY_TIMEOUT_SECS }
            },
            Resume::Call { .. } => self.end(Action::Failure(error)),
        }
    }

    fn request_id(&mut self, retried: bool, resume: Resume) -> (r: Action)
        ensures
            (final(self)@, r@) == ask_for_id(old(self)@, retried, resume),
    {
        match &self.token {
            Some(token) => {
                let token = token.clone();
                let url = match &self.target {
                    Some(child) => self.get_url_for_get_id(Some(child.as_str())),
                    None => self.get_url_for_get_id(None),
                };
                self.phase = Phase::IdRequest { retried, resume };
                Action::GetInternalId { url, token }
            },
            None => {
                self.phase = Phase::TokenForId { retried, resume };
                Action::FetchToken
            },
        }
    }

    /// Starts the proxy: it asks for the internal identifier of the main
    /// device.
    pub fn init(&mut self) -> (r: Action)
        ensures
            (final(self)@, r@) == started(old(self)@),
    {
        self.target = None;
        self.request_id(false, Resume::Init)
    }

    /// Begins a call for the main device or for a child device: the request
    /// is to be sent with the internal identifier and the token that the
    /// proxy holds, once it holds an internal identifier for that device.
    pub fn execute(&mut self, child_device_id: Option<String>) -> (r: Action)
        ensures
            (final(self)@, r@) == begun(old(self)@, optional_text(child_device_id)),
    {
        self.target = child_device_id;
        let internal_id = self.target_id();
        if internal_id.as_str().is_empty() {
            return self.request_id(
                false,
                Resume::Call { token_refreshed: false, id_refreshed: false },
            );
        }
        let token = self.bearer_token();
        self.phase = Phase::Request { token_refreshed: false, id_refreshed: false };
        Action::Send { internal_id, token }
    }

    /// Takes what came back and tells what to do next.
    pub fn handle(&mut self, event: Event) -> (r: Action)
        ensures
            (final(self)@, r@) == next(old(self)@, event@),
    {
        let phase = self.phase;
        match (phase, event) {
            (_, Event::NetworkError) => match phase {
                Phase::IdRequest { retried: _, resume } => self.fail_id(
                    resume,
                    C8YRestError::HttpError,
                ),
                Phase::Request { .. } => self.end(Action::Failure(C8YRestError::HttpError)),
                _ => self.end(Action::Failure(C8YRestError::OutOfOrder)),
            },
            (Phase::Request { token_refreshed, id_refreshed }, Event::Response { status, .. }) => {
                if 200 <= status && status <= 299 {
                    self.end(Action::Success)
                } else if (status == 401 || status == 403) && !token_refreshed {
                    self.token = None;
                    self.phase = Phase::TokenForRequest { id_refreshed };
                    Action::FetchToken
                } else if status == 404 && !id_refreshed {
                    match &self.target {
                        Some(child) => {
                            let _ = self.child_internal_ids.remove(child.as_str());
                        },
                        None => {
                            self.c8y_internal_id = String::new();
                        },
                    }
                    self.request_id(false, Resume::Call { token_refreshed, id_refreshed: true })
                } else {
                    self.end(Action::Failure(C8YRestError::HttpStatusError(status)))
                }
            },
            (Phase::TokenForRequest { id_refreshed }, Event::Token(token)) => match token {
                Some(token) => {
                    self.token = Some(token.clone());
                    let internal_id = self.target_id();
                    self.phase = Phase::Request { token_refreshed: true, id_refreshed };
                    Action::Send { internal_id, token }
                },
                None => self.end(Action::Failure(C8YRestError::JwtUnavailable)),
            },
            (Phase::TokenForId { retried, resume }, Event::Token(token)) => match token {
                Some(token) => {
                    self.token = Some(token);
                    self.request_id(retried, resume)
                },
                None => self.fail_id(resume, C8YRestError::JwtUnavailable),
            },
            (Phase::IdRequest { retried, resume }, Event::Response { status, internal_id }) => {
                if 200 <= status && status <= 299 {
                    match internal_id {
                        Some(internal_id) => {
                            match &self.target {
                                Some(child) => {
                                    let _ = self.child_internal_ids.insert(
                                        child.clone(),
                                        JsonValue::Text(internal_id.clone()),
                                    );
                                },
                                None => {
                                    self.c8y_internal_id = internal_id.clone();
                                },
                            }
                            match resume {
                                Resume::Init => self.end(Action::Success),
                                Resume::Call { token_refreshed, id_refreshed } => {
                                    let token = self.bearer_token();
                                    self.phase = Phase::Request { token_refreshed, id_refreshed };
                                    Action::Send { internal_id, token }
                                },
                            }
                        },
                        None => self.fail_id(resume, C8YRestError::InvalidResponse),
                    }
                } else if (status == 401 || status == 403) && !retried {
                    self.token = None;
                    self.phase = Phase::TokenForId { retried: true, resume };
                    Action::FetchToken
                } else {
                    self.fail_id(resume, C8YRestError::HttpStatusError(status))
                }
            },
            (Phase::InitBackoff, Event::TimerElapsed) => self.init(),
            (Phase::InitBackoff, Event::Shutdown) => self.end(
                Action::Failure(C8YRestError::Interrupted),
            ),
            _ => self.end(Action::Failure(C8YRestError::OutOfOrder)),
        }
    }

    /// The token that the proxy holds, or the need to ask for one.
    pub fn get_jwt_token(&self) -> (r: Option<&str>)
        ensures
            match r {
                Some(token) => self@.token == Some(token@),
                None => self@.token is None,
            },
    {
        match &self.token {
            Some(token) => Some(token.as_str()),
            None => None,
        }
    }

    /// Takes the answer of the token retriever to a caller that asked for a
    /// token: the token is kept, or the call fails where there is none.
    pub fn set_jwt_token(&mut self, token: Option<String>) -> (r: Result<String, C8YRestError>)
        ensures
            match r {
                Ok(kept) => token matches Some(given) && kept@ == given@ && final(self)@
                    == (ProxyModel { token: Some(given@), ..old(self)@ }),
                Err(e) => token is None && e@ == ErrorModel::JwtUnavailable && final(self)@ == old(
                    self,
                )@,
            },
    {
        match token {
            Some(token) => {
                self.token = Some(token.clone());
                Ok(token)
            },
            None => Err(C8YRestError::JwtUnavailable),
        }
    }
}

/// The proxy while the first request of a call is in flight: right after
/// the call began where the proxy held the internal identifier of the
/// device; else after the identifier that it asked for first has come.
pub open spec fn first_sent(
    proxy: ProxyModel,
    child: Option<Seq<char>>,
    first_id: Seq<char>,
) -> ProxyModel {
    if target_internal_id(ProxyModel { target: child, ..proxy }).len() > 0 {
        begun(proxy, child).0
    } else {
        next(
            begun(proxy, child).0,
            EventModel::Response { status: 200, internal_id: Some(first_id) },
        ).0
    }
}

/// Whether two proxies hold the same internal identifiers, but for the
/// device of a call.
pub open spec fn same_ids_but_target(
    before: ProxyModel,
    after: ProxyModel,
    child: Option<Seq<char>>,
) -> bool {
    match child {
        Some(child) => after.c8y_internal_id == before.c8y_internal_id
            && after.child_internal_ids.remove(child) == before.child_internal_ids.remove(child),
        None => after.child_internal_ids == before.child_internal_ids,
    }
}

/// The first request of a call is in flight with both retries ahead of it,
/// whether the proxy held the internal identifier of the device or had to
/// ask for it first.
pub proof fn law_first_request_is_no_retry(
    proxy: ProxyModel,
    child: Option<Seq<char>>,
    first_id: Seq<char>,
)
    requires
        target_internal_id(ProxyModel { target: child, ..proxy }).len() > 0 || proxy.token is Some,
    ensures
        first_sent(proxy, child, first_id).phase == (Phase::Request {
            token_refreshed: false,
            id_refreshed: false,
        }),
        first_sent(proxy, child, first_id).target == child,
        first_sent(proxy, child, first_id).token == proxy.token,
        same_ids_but_target(proxy, first_sent(proxy, child, first_id), child),
        target_internal_id(first_sent(proxy, child, first_id)) == if target_internal_id(
            ProxyModel { target: child, ..proxy },
        ).len() > 0 {
            target_internal_id(ProxyModel { target: child, ..proxy })
        } else {
            first_id
        },
{
    let sent = first_sent(proxy, child, first_id);
    match child {
        Some(child) => {
            assert(sent.child_internal_ids.remove(child) =~= proxy.child_internal_ids.remove(
                child,
            ));
        },
        None => {},
    }
}

/// A request answered with `401` or `403` and then with success succeeds,
/// with exactly one request for a token between the two attempts, and the
/// second attempt carries the fresh token.
pub proof fn law_fresh_token_then_success(
    proxy: ProxyModel,
    child: Option<Seq<char>>,
    first_id: Seq<char>,
    refused: u16,
    token: Seq<char>,
    accepted: u16,
)
    requires
        target_internal_id(ProxyModel { target: child, ..proxy }).len() > 0 || proxy.token is Some,
        is_auth_failure(refused),
        is_success(accepted),
    ensures
        ({
            let sent = first_sent(proxy, child, first_id);
            let (asked, second) = next(sent, EventModel::Response {
                status: refused,
                internal_id: None,
            });
            let (resent, third) = next(asked, EventModel::Token(Some(token)));
            let (done, fourth) = next(resent, EventModel::Response {
                status: accepted,
                internal_id: None,
            });
            &&& second == ActionModel::FetchToken
            &&& third == (ActionModel::Send {
                internal_id: target_internal_id(sent),
                token: token,
            })
            &&& fourth == ActionModel::Success
            &&& done.phase == Phase::Idle
            &&& done.token == Some(token)
        }),
{
}

/// A request answered with `404` and then with success succeeds, with
/// exactly one request for the internal identifier between the two attempts;
/// the second attempt carries the fresh identifier, and of the identifiers
/// that the proxy holds only that of the device of the call changes.
pub proof fn law_fresh_internal_id_then_success(
    proxy: ProxyModel,
    child: Option<Seq<char>>,
    first_id: Seq<char>,
    internal_id: Seq<char>,
    found: u16,
    accepted: u16,
)
    requires
        proxy.token is Some,
        is_success(found),
        is_success(accepted),
    ensures
        ({
            let sent = first_sent(proxy, child, first_id);
            let (asked, second) = next(sent, EventModel::Response {
                status: 404,
                internal_id: None,
            });
            let (resent, third) = next(asked, EventModel::Response {
                status: found,
                internal_id: Some(internal_id),
            });
            let (done, fourth) = next(resent, EventModel::Response {
                status: accepted,
                internal_id: None,
            });
            &&& second == (ActionModel::GetInternalId {
                url: url_for_get_id(
                    proxy.c8y_host,
                    match child {
                        Some(child) => child,
                        None => proxy.device_id,
                    },
                ),
                token: proxy.token->0,
            })
            &&& third == (ActionModel::Send { internal_id: internal_id, token: proxy.token->0 })
            &&& fourth == ActionModel::Success
            &&& done.phase == Phase::Idle
            &&& target_internal_id(ProxyModel { target: child, ..done }) == internal_id
            &&& same_ids_but_target(proxy, done, child)
        }),
{
    let sent = first_sent(proxy, child, first_id);
    law_first_request_is_no_retry(proxy, child, first_id);
    let asked = next(sent, EventModel::Response { status: 404, internal_id: None }).0;
    let resent = next(asked, EventModel::Response {
        status: found,
        internal_id: Some(internal_id),
    }).0;
    let done = next(resent, EventModel::Response { status: accepted, internal_id: None }).0;
    match child {
        Some(child) => {
            assert(done.child_internal_ids.remove(child) =~= proxy.child_internal_ids.remove(
                child,
            ));
        },
        None => {
            assert(done.child_internal_ids =~= proxy.child_internal_ids);
        },
    }
}

/// A request answered with `404` twice fails with that status after
/// exactly one request for the internal identifier and two attempts: the
/// second `404` ends the call.
pub proof fn law_second_missing_is_surfaced(
    proxy: ProxyModel,
    child: Option<Seq<char>>,
    first_id: Seq<char>,
    internal_id: Seq<char>,
    found: u16,
)
    requires
        proxy.token is Some,
        is_success(found),
    ensures
        ({
            let sent = first_sent(proxy, child, first_id);
            let (asked, second) = next(sent, EventModel::Response {
                status: 404,
                internal_id: None,
            });
            let (resent, third) = next(asked, EventModel::Response {
                status: found,
                internal_id: Some(internal_id),
            });
            let (done, fourth) = next(resent, EventModel::Response {
                status: 404,
                internal_id: None,
            });
            &&& second is GetInternalId
            &&& third == (ActionModel::Send { internal_id: internal_id, token: proxy.token->0 })
            &&& fourth == ActionModel::Failure(ErrorModel::HttpStatusError(404))
            &&& done.phase == Phase::Idle
            &&& done.target is None
        }),
{
    law_first_request_is_no_retry(proxy, child, first_id);
}

/// A request answered with `401` or `403` twice fails with the second
/// status after exactly one request for a token and two attempts.
pub proof fn law_second_refusal_is_surfaced(
    proxy: ProxyModel,
    child: Option<Seq<char>>,
    first_id: Seq<char>,
    refused: u16,
    token: Seq<char>,
    refused_again: u16,
)
    requires
        target_internal_id(ProxyModel { target: child, ..proxy }).len() > 0 || proxy.token is Some,
        is_auth_failure(refused),
        is_auth_failure(refused_again),
    ensures
        ({
            let sent = first_sent(proxy, child, first_id);
            let (asked, second) = next(sent, EventModel::Response {
                status: refused,
                internal_id: None,
            });
            let (resent, third) = next(asked, EventModel::Token(Some(token)));
            let (done, fourth) = next(resent, EventModel::Response {
                status: refused_again,
                internal_id: None,
            });
            &&& second == ActionModel::FetchToken
            &&& third is Send
            &&& fourth == ActionModel::Failure(ErrorModel::HttpStatusError(refused_again))
            &&& done.phase == Phase::Idle
        }),
{
    law_first_request_is_no_retry(proxy, child, first_id);
}

/// A call for a device whose internal identifier the proxy does not hold
/// asks for the identifier first and then sends the request with it.
pub proof fn law_unknown_internal_id_is_asked_for_first(
    proxy: ProxyModel,
    child: Option<Seq<char>>,
    internal_id: Seq<char>,
    found: u16,
)
    requires
        target_internal_id(ProxyModel { target: child, ..proxy }).len() == 0,
        proxy.token is Some,
        is_success(found),
    ensures
        ({
            let (asked, first) = begun(proxy, child);
            let (sent, second) = next(asked, EventModel::Response {
                status: found,
                internal_id: Some(internal_id),
            });
            &&& first == (ActionModel::GetInternalId {
                url: url_for_get_id(
                    proxy.c8y_host,
                    match child {
                        Some(child) => child,
                        None => proxy.device_id,
                    },
                ),
                token: proxy.token->0,
            })
            &&& second == (ActionModel::Send { internal_id: internal_id, token: proxy.token->0 })
            &&& target_internal_id(sent) == internal_id
        }),
{
}

/// The second failure of the same kind fails the call with its status: no
/// request is sent a third time for the same reason.
pub proof fn law_second_failure_is_surfaced(proxy: ProxyModel, status: u16)
    requires
        !is_success(status),
    ensures
        proxy.phase matches Phase::Request { token_refreshed, id_refreshed } && ((is_auth_failure(
            status,
        ) && token_refreshed) || (status == 404 && id_refreshed)) ==> next(
            proxy,
            EventModel::Response { status: status, internal_id: None },
        ).1 == ActionModel::Failure(ErrorModel::HttpStatusError(status)),
        proxy.phase matches Phase::IdRequest { retried, resume } && is_auth_failure(status)
            && retried && resume is Call ==> next(
            proxy,
            EventModel::Response { status: status, internal_id: None },
        ).1 == ActionModel::Failure(ErrorModel::HttpStatusError(status)),
{
}

/// While it starts, a proxy whose token is refused asks for a fresh one
/// and, once the cloud has told the internal identifier, holds it.
pub proof fn law_init_with_expired_token(
    proxy: ProxyModel,
    stale: Seq<char>,
    refused: u16,
    fresh: Seq<char>,
    internal_id: Seq<char>,
)
    requires
        proxy.token == Some(stale),
        is_auth_failure(refused),
    ensures
        ({
            let (asked, first) = started(proxy);
            let (waiting, second) = next(asked, EventModel::Response {
                status: refused,
                internal_id: None,
            });
            let (asked_again, third) = next(waiting, EventModel::Token(Some(fresh)));
            let (ready, fourth) = next(asked_again, EventModel::Response {
                status: 200,
                internal_id: Some(internal_id),
            });
            &&& first matches ActionModel::GetInternalId { token, .. } && token == stale
            &&& second == ActionModel::FetchToken
            &&& third matches ActionModel::GetInternalId { token, .. } && token == fresh
            &&& fourth == ActionModel::Success
            &&& ready.c8y_internal_id == internal_id
            &&& ready.phase == Phase::Idle
        }),
{
}

/// A request of a client, with the number of the client.
#[derive(Debug)]
pub struct C8YRestRequestWithClientId(pub usize, pub C8YRestRequest);

/// The answer to a request of a client, with the number of the client.
#[derive(Debug)]
pub struct C8YRestResponseWithClientId(pub usize, pub C8YRestResult);

/// The owner and the mode that a downloaded file gets; what is not given
/// is left as the system made it.
#[derive(Debug)]
pub struct PermissionEntry {
    pub user: Option<String>,
    pub group: Option<String>,
    pub mode: Option<u32>,
}

/// What a client asks of the proxy.
#[derive(Debug)]
pub enum C8YRestRequest {
    GetJwtToken,
    C8yCreateEvent(C8yCreateEvent),
    C8yUpdateSoftwareListResponse(String),
    UploadLogBinary { log_type: String, log_content: String, child_device_id: Option<String> },
    UploadConfigFile { config_path: String, config_type: String, child_device_id: Option<String> },
    DownloadFile { download_url: String, file_path: String, file_permissions: PermissionEntry },
}

/// What the proxy answers.
#[derive(Debug)]
pub enum C8YRestResponse {
    EventId(String),
    Unit,
}

/// The result of a request.
pub type C8YRestResult = Result<C8YRestResponse, C8YRestError>;

impl C8YRestRequestWithClientId {
    /// The answer to this request, for the client that asked.
    pub fn respond(&self, result: C8YRestResult) -> (r: C8YRestResponseWithClientId)
        ensures
            r.0 == self.0,
            r.1 == result,
    {
        C8YRestResponseWithClientId(self.0, result)
    }
}

/// The device that an event comes from.
#[derive(Debug)]
pub struct C8yManagedObject {
    pub id: String,
}

/// An event to create in the cloud.
#[derive(Debug)]
pub struct C8yCreateEvent {
    pub source: Option<C8yManagedObject>,
    pub event_type: String,
    pub time: Timestamp,
    pub text: String,
    pub extras: JsonObject,
}

/// The event, coming from the device of the given internal identifier.
pub fn update_event_with_new_internal_id(internal_id: String, event: &C8yCreateEvent) -> (r:
    C8yCreateEvent)
    ensures
        r.source matches Some(source) && source.id@ == internal_id@,
        r.event_type@ == event.event_type@,
        r.time == event.time,
        r.text@ == event.text@,
        r.extras@ == event.extras@,
        r.extras.members() == event.extras.members(),
{
    C8yCreateEvent {
        source: Some(C8yManagedObject { id: internal_id }),
        event_type: event.event_type.clone(),
        time: event.time,
        text: event.text.clone(),
        extras: event.extras.clone(),
    }
}

/// The event that announces an upload: of the given type, at the given
/// time or else now, with the given text or else its type as text, coming
/// from the device of the given internal identifier.
pub fn create_event_request(
    event_type: String,
    event_text: Option<String>,
    event_time: Option<Timestamp>,
    device_internal_id: String,
    now: Timestamp,
) -> (r: C8yCreateEvent)
    ensures
        r.source matches Some(source) && source.id@ == device_internal_id@,
        r.event_type@ == event_type@,
        r.time == match event_time {
            Some(time) => time,
            None => now,
        },
        r.text@ == match event_text {
            Some(text) => text@,
            None => event_type@,
        },
        r.extras@ == Map::<Seq<char>, JsonModel>::empty(),
{
    let text = match event_text {
        Some(text) => text,
        None => event_type.clone(),
    };
    let time = match event_time {
        Some(time) => time,
        None => now,
    };
    C8yCreateEvent {
        source: Some(C8yManagedObject { id: device_internal_id }),
        event_type,
        time,
        text,
        extras: JsonObject::new(),
    }
}

/// Where the joining of an address failed.
#[derive(Debug, Clone, Copy, PartialEq, Eq, Structural)]
pub enum UrlStage {
    Parse,
    Join,
}

/// What the `url` crate makes of an address and a reference joined to it:
/// the joined address, or where it failed and why, in its words.
pub uninterp spec fn url_joined(base: Seq<char>, reference: Seq<char>) -> Result<
    Seq<char>,
    (UrlStage, Seq<char>),
>;

/// The host that the `url` crate reads from an address; `None` where it
/// reads no address or the address has no host.
pub uninterp spec fn url_host(url: Seq<char>) -> Option<Seq<char>>;

/// Reads an address with `url::Url::parse` and joins a reference to it
/// with `url::Url::join`. The result is named by `url_joined`.
#[verifier::external_body]
fn join_url(base: &str, reference: &str) -> (r: Result<String, (UrlStage, String)>)
    ensures
        match r {
            Ok(joined) => url_joined(base@, reference@) == Ok::<Seq<char>, (UrlStage, Seq<char>)>(
                joined@,
            ),
            Err((stage, reason)) => url_joined(base@, reference@) == Err::<
                Seq<char>,
                (UrlStage, Seq<char>),
            >((stage, reason@)),
        },
{
    let parsed = url::Url::parse(base).map_err(|e| (UrlStage::Parse, e.to_string()))?;
    let joined = parsed.join(reference).map_err(|e| (UrlStage::Join, e.to_string()))?;
    Ok(joined.to_string())
}

/// Reads an address with `url::Url::parse` and hands out its host, as
/// `url::Url::host_str` tells it. The result is named by `url_host`.
#[verifier::external_body]
fn host_of_url(url: &str) -> (r: Option<String>)
    ensures
        optional_text(r) == url_host(url@),
{
    url::Url::parse(url).ok()?.host_str().map(String::from)
}

/// The address with the internal identifier in the place of its last
/// segment.
pub open spec fn url_with_internal_id(internal_id: Seq<char>, url: Seq<char>) -> Result<
    Seq<char>,
    Seq<char>,
> {
    match url_joined(url, "./"@ + internal_id) {
        Ok(joined) => Ok(joined),
        Err((UrlStage::Parse, reason)) => Err("failed to parse string to url due to: "@ + reason),
        Err((UrlStage::Join, reason)) => Err("failed to update the url due to: "@ + reason),
    }
}

/// Puts an internal identifier in the place of the last segment of an
/// address, as a reference joined to the address.
pub fn update_url_with_new_internal_id(internal_id: String, url: &str) -> (r: Result<
    String,
    C8YRestError,
>)
    ensures
        match r {
            Ok(updated) => url_with_internal_id(internal_id@, url@) == Ok::<Seq<char>, Seq<char>>(
                updated@,
            ),
            Err(C8YRestError::CustomError(reason)) => url_with_internal_id(internal_id@, url@)
                == Err::<Seq<char>, Seq<char>>(reason@),
            Err(_) => false,
        },
{
    let mut reference = String::from_str("./");
    reference.append(internal_id.as_str());
    match join_url(url, reference.as_str()) {
        Ok(joined) => Ok(joined),
        Err((UrlStage::Parse, reason)) => {
            let mut message = String::from_str("failed to parse string to url due to: ");
            message.append(reason.as_str());
            Err(C8YRestError::CustomError(message))
        },
        Err((UrlStage::Join, reason)) => {
            let mut message = String::from_str("failed to update the url due to: ");
            message.append(reason.as_str());
            Err(C8YRestError::CustomError(message))
        },
    }
}

/// The domain of a host: what stands behind its first `.`, if anything.
pub open spec fn domain_of(host: Seq<char>) -> Option<Seq<char>> {
    let dot = first_index_of(host, '.');
    if dot < host.len() {
        Some(host.subrange(dot + 1, host.len() as int))
    } else {
        None
    }
}

/// Whether an address lies in the domain of the tenant: it has a host, and
/// that and the host of the tenant have the same domain.
pub open spec fn in_tenant_domain(tenant_host: Seq<char>, url: Seq<char>) -> bool {
    url_host(url) matches Some(host) && domain_of(host) == domain_of(tenant_host)
}

fn domain<'a>(host: &'a str) -> (r: Option<&'a str>)
    ensures
        match r {
            Some(domain) => domain_of(host@) == Some(domain@),
            None => domain_of(host@) is None,
        },
{
    let n: usize = host.unicode_len();
    match find_char(host, '.') {
        Some(dot) => Some(host.substring_char(dot + 1, n)),
        None => None,
    }
}

impl C8YHttpProxy {
    /// Whether an address lies in the domain of the tenant, so that a
    /// download from it carries the token.
    pub fn url_is_in_my_tenant_domain(&self, url: &str) -> (r: bool)
        ensures
            r == in_tenant_domain(self@.c8y_host, url@),
    {
        let host = match host_of_url(url) {
            Some(host) => host,
            None => {
                return false;
            },
        };
        match (domain(host.as_str()), domain(self.c8y_host.as_str())) {
            (Some(a), Some(b)) => crate::text::same_text(a, b),
            (None, None) => true,
            _ => false,
        }
    }
}

/// How a request is made.
#[derive(Debug, Clone, Copy, PartialEq, Eq, Structural)]
pub enum HttpMethod {
    Get,
    Post,
    Put,
}

/// A request to the cloud.
#[derive(Debug)]
pub struct HttpRequest {
    pub method: HttpMethod,
    pub url: String,
    /// The bearer token of the request.
    pub bearer: String,
    pub accept: Option<String>,
    pub content_type: Option<String>,
    pub body: Vec<u8>,
}

/// The mathematical value of an [`HttpRequest`].
pub struct RequestModel {
    pub method: HttpMethod,
    pub url: Seq<char>,
    pub bearer: Seq<char>,
    pub accept: Option<Seq<char>>,
    pub content_type: Option<Seq<char>>,
    pub body: Seq<u8>,
}

impl View for HttpRequest {
    type V = RequestModel;

    open spec fn view(&self) -> RequestModel {
        RequestModel {
            method: self.method,
            url: self.url@,
            bearer: self.bearer@,
            accept: optional_text(self.accept),
            content_type: optional_text(self.content_type),
            body: self.body@,
        }
    }
}

/// The members of an event as the cloud takes it: the device it comes
/// from, its type, its time, its text, and then its other members.
pub open spec fn event_members(
    internal_id: Seq<char>,
    event_type: Seq<char>,
    time: Seq<char>,
    text: Seq<char>,
    extras: Seq<(Seq<char>, JsonModel)>,
) -> Seq<(Seq<char>, JsonModel)> {
    with_pairs(
        seq![
            (
                "source"@,
                JsonModel::Nested(object_text(seq![("id"@, JsonModel::Text(internal_id))])),
            ),
            ("type"@, JsonModel::Text(event_type)),
            ("time"@, JsonModel::Text(time)),
            ("text"@, JsonModel::Text(text)),
        ],
        extras,
    )
}

fn json_request(method: HttpMethod, url: String, token: &str, body: &str) -> (r: HttpRequest)
    ensures
        r@ == (RequestModel {
            method: method,
            url: url@,
            bearer: token@,
            accept: Some("application/json"@),
            content_type: Some("application/json"@),
            body: vstd::utf8::encode_utf8(body@),
        }),
{
    HttpRequest {
        method,
        url,
        bearer: String::from_str(token),
        accept: Some(String::from_str("application/json")),
        content_type: Some(String::from_str("application/json")),
        body: body.as_bytes_vec(),
    }
}

impl C8YHttpProxy {
    /// The request for the internal identifier of a device.
    pub fn get_id_request(url: String, token: &str) -> (r: HttpRequest)
        ensures
            r@ == (RequestModel {
                method: HttpMethod::Get,
                url: url@,
                bearer: token@,
                accept: None,
                content_type: None,
                body: Seq::<u8>::empty(),
            }),
    {
        HttpRequest {
            method: HttpMethod::Get,
            url,
            bearer: String::from_str(token),
            accept: None,
            content_type: None,
            body: Vec::new(),
        }
    }

    /// The request that puts the software list of a device: at the address
    /// of the software list, with the internal identifier joined to it.
    pub fn software_list_request(&self, internal_id: String, token: &str, software_list: &str) -> (r:
        Result<HttpRequest, C8YRestError>)
        ensures
            match r {
                Ok(request) => url_with_internal_id(
                    internal_id@,
                    url_for_sw_list(self@.c8y_host, self@.c8y_internal_id),
                ) == Ok::<Seq<char>, Seq<char>>(request@.url) && request@ == (RequestModel {
                    method: HttpMethod::Put,
                    url: request@.url,
                    bearer: token@,
                    accept: Some("application/json"@),
                    content_type: Some("application/json"@),
                    body: vstd::utf8::encode_utf8(software_list@),
                }),
                Err(C8YRestError::CustomError(reason)) => url_with_internal_id(
                    internal_id@,
                    url_for_sw_list(self@.c8y_host, self@.c8y_internal_id),
                ) == Err::<Seq<char>, Seq<char>>(reason@),
                Err(_) => false,
            },
    {
        let url = self.get_url_for_sw_list();
        match update_url_with_new_internal_id(internal_id, url.as_str()) {
            Ok(url) => Ok(json_request(HttpMethod::Put, url, token, software_list)),
            Err(e) => Err(e),
        }
    }

    /// The request that creates an event for the device of an internal
    /// identifier. There is none for a time that cannot be written.
    pub fn create_event_http_request(
        &self,
        internal_id: String,
        token: &str,
        event: &C8yCreateEvent,
    ) -> (r: Option<HttpRequest>)
        ensures
            match r {
                Some(request) => rfc3339_text(
                    event.time.unix_nanos as int,
                    event.time.offset_seconds as int,
                ) matches Some(time) && request@ == (RequestModel {
                    method: HttpMethod::Post,
                    url: url_for_create_event(self@.c8y_host),
                    bearer: token@,
                    accept: Some("application/json"@),
                    content_type: Some("application/json"@),
                    body: vstd::utf8::encode_utf8(
                        object_text(
                            event_members(
                                internal_id@,
                                event.event_type@,
                                time,
                                event.text@,
                                event.extras.members(),
                            ),
                        ),
                    ),
                }),
                None => rfc3339_text(
                    event.time.unix_nanos as int,
                    event.time.offset_seconds as int,
                ) is None,
            },
    {
        let time = match event.time.to_rfc3339() {
            Some(time) => time,
            None => {
                return None;
            },
        };
        proof {
            reveal_strlit("source");
            reveal_strlit("type");
            reveal_strlit("time");
            reveal_strlit("text");
            assert("source"@.len() == 6 && "type"@.len() == 4 && "time"@.len() == 4 && "text"@.len()
                == 4);
            assert("type"@[1] != "time"@[1] && "type"@[1] != "text"@[1] && "time"@[1] != "text"@[1]);
        }
        let mut source = JsonObject::new();
        proof {
            crate::assoc::lemma_with_pair_fresh(source.members(), "id"@, JsonModel::Text(internal_id@));
        }
        let _ = source.insert(String::from_str("id"), JsonValue::Text(internal_id));
        assert(source.members() =~= seq![("id"@, JsonModel::Text(internal_id@))]);
        let mut body = JsonObject::new();
        let ghost nested = JsonModel::Nested(object_text(source.members()));
        proof {
            crate::assoc::lemma_with_pair_fresh(body.members(), "source"@, nested);
        }
        let _ = body.insert(String::from_str("source"), JsonValue::Nested(source.to_text()));
        proof {
            crate::assoc::lemma_with_pair_fresh(
                body.members(),
                "type"@,
                JsonModel::Text(event.event_type@),
            );
        }
        let _ = body.insert(String::from_str("type"), JsonValue::Text(event.event_type.clone()));
        proof {
            crate::assoc::lemma_with_pair_fresh(body.members(), "time"@, JsonModel::Text(time@));
        }
        let _ = body.insert(String::from_str("time"), JsonValue::Text(time));
        proof {
            crate::assoc::lemma_with_pair_fresh(body.members(), "text"@, JsonModel::Text(event.text@));
        }
        let _ = body.insert(String::from_str("text"), JsonValue::Text(event.text.clone()));
        proof {
            assert(body.members() =~= seq![
                ("source"@, nested),
                ("type"@, JsonModel::Text(event.event_type@)),
                ("time"@, JsonModel::Text(time@)),
                ("text"@, JsonModel::Text(event.text@)),
            ]);
        }
        body.extend(&event.extras);
        Some(
            json_request(
                HttpMethod::Post,
                self.get_url_for_create_event(),
                token,
                body.to_text().as_str(),
            ),
        )
    }

    /// The request that uploads the content of a file as the binary of an
    /// event.
    pub fn upload_binary_request(&self, token: &str, event_id: &str, content: &str) -> (r:
        HttpRequest)
        ensures
            r@ == (RequestModel {
                method: HttpMethod::Post,
                url: url_for_event_binary_upload(self@.c8y_host, event_id@),
                bearer: token@,
                accept: Some("application/json"@),
                content_type: Some("text/plain"@),
                body: vstd::utf8::encode_utf8(content@),
            }),
    {
        HttpRequest {
            method: HttpMethod::Post,
            url: self.get_url_for_event_binary_upload(event_id),
            bearer: String::from_str(token),
            accept: Some(String::from_str("application/json")),
            content_type: Some(String::from_str("text/plain")),
            body: content.as_bytes_vec(),
        }
    }
}

/// What an upload comes to: the address of the binary where the cloud
/// answered with success, else the failure of the upload.
pub fn upload_result(status: u16, binary_upload_event_url: String) -> (r: Result<
    String,
    C8YRestError,
>)
    ensures
        match r {
            Ok(url) => is_success(status) && url@ == binary_upload_event_url@,
            Err(C8YRestError::CustomError(reason)) => !is_success(status) && reason@
                == "Upload failed"@,
            Err(_) => false,
        },
{
    if 200 <= status && status <= 299 {
        Ok(binary_upload_event_url)
    } else {
        Err(C8YRestError::CustomError(String::from_str("Upload failed")))
    }
}

/// The string member of a JSON object that a payload holds, if it holds
/// such an object and the object such a member.
pub open spec fn text_member(payload: Seq<u8>, key: Seq<char>) -> Option<Seq<char>> {
    match parsed_object(payload) {
        Some(members) => if map_of(members).contains_key(key) && map_of(members)[key] is Text {
            Some(map_of(members)[key]->Text_0)
        } else {
            None
        },
        None => None,
    }
}

/// The internal identifier that the cloud tells: the `id` of the
/// `managedObject` of its answer.
pub open spec fn told_internal_id(body: Seq<u8>) -> Option<Seq<char>> {
    match parsed_object(body) {
        Some(members) => if map_of(members).contains_key("managedObject"@) && map_of(
            members,
        )["managedObject"@] is Nested {
            text_member(
                vstd::utf8::encode_utf8(map_of(members)["managedObject"@]->Nested_0),
                "id"@,
            )
        } else {
            None
        },
        None => None,
    }
}

fn text_member_of(payload: &[u8], key: &str) -> (r: Option<String>)
    ensures
        optional_text(r) == text_member(payload@, key@),
{
    match JsonObject::parse(payload) {
        Ok(object) => {
            proof {
                object.lemma_members();
            }
            match object.get(key) {
                Some(JsonValue::Text(text)) => Some(text.clone()),
                _ => None,
            }
        },
        Err(_) => None,
    }
}

/// Reads the internal identifier of a device from the answer of the cloud.
pub fn internal_id_of_response(body: &[u8]) -> (r: Option<String>)
    ensures
        optional_text(r) == told_internal_id(body@),
{
    match JsonObject::parse(body) {
        Ok(object) => {
            proof {
                object.lemma_members();
            }
            match object.get("managedObject") {
                Some(JsonValue::Nested(managed_object)) => text_member_of(
                    managed_object.as_str().as_bytes(),
                    "id",
                ),
                _ => None,
            }
        },
        Err(_) => None,
    }
}

/// Reads the identifier of an event from the answer of the cloud: its
/// `id`.
pub fn event_id_of_response(body: &[u8]) -> (r: Option<String>)
    ensures
        optional_text(r) == text_member(body@, "id"@),
{
    text_member_of(body, "id")
}

} // verus!
