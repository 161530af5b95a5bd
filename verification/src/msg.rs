//! The closed set of message shapes that may cross the wire, and the
//! spec-level views the contracts speak of.
//!
//! Request and response payloads belong to the surrounding system, not to
//! this envelope: each payload-carrying kind holds the payload's structured
//! text as the collaborators define it, carried opaquely and never
//! inspected here.
use vstd::prelude::*;

verus! {

/// A protocol-level failure that can itself be sent as a normal message in
/// place of a reply.
#[derive(Debug, Clone)]
pub enum WireError {
    /// A message arrived for a peer not yet fully admitted.
    MessageWhileInLimbo,
    /// Free-form diagnostic text.
    Other(String),
}

pub enum WireErrorView {
    MessageWhileInLimbo,
    Other(Seq<char>),
}

impl View for WireError {
    type V = WireErrorView;

    open spec fn view(&self) -> WireErrorView {
        match self {
            WireError::MessageWhileInLimbo => WireErrorView::MessageWhileInLimbo,
            WireError::Other(s) => WireErrorView::Other(s@),
        }
    }
}

/// Status snapshot reported in reply to `Status`.
#[derive(Debug, Clone, Copy, PartialEq, Eq, Structural)]
pub struct StatusData {
    pub spaces: usize,
    pub connections: usize,
    pub redundant_count: u64,
    pub version: u32,
}

impl View for StatusData {
    type V = StatusData;

    open spec fn view(&self) -> StatusData {
        *self
    }
}

/// A request from a client peer toward the hub; the field is the payload's
/// structured text.
#[derive(Debug, Clone)]
pub enum ClientToLib3h {
    Bootstrap(String),
    FetchEntry(String),
    JoinSpace(String),
    LeaveSpace(String),
    PublishEntry(String),
    QueryEntry(String),
    SendDirectMessage(String),
}

pub enum ClientToLib3hView {
    Bootstrap(Seq<char>),
    FetchEntry(Seq<char>),
    JoinSpace(Seq<char>),
    LeaveSpace(Seq<char>),
    PublishEntry(Seq<char>),
    QueryEntry(Seq<char>),
    SendDirectMessage(Seq<char>),
}

impl View for ClientToLib3h {
    type V = ClientToLib3hView;

    open spec fn view(&self) -> ClientToLib3hView {
        match self {
            ClientToLib3h::Bootstrap(s) => ClientToLib3hView::Bootstrap(s@),
            ClientToLib3h::FetchEntry(s) => ClientToLib3hView::FetchEntry(s@),
            ClientToLib3h::JoinSpace(s) => ClientToLib3hView::JoinSpace(s@),
            ClientToLib3h::LeaveSpace(s) => ClientToLib3hView::LeaveSpace(s@),
            ClientToLib3h::PublishEntry(s) => ClientToLib3hView::PublishEntry(s@),
            ClientToLib3h::QueryEntry(s) => ClientToLib3hView::QueryEntry(s@),
            ClientToLib3h::SendDirectMessage(s) => ClientToLib3hView::SendDirectMessage(s@),
        }
    }
}

/// A request the hub issues to a client peer.
#[derive(Debug, Clone)]
pub enum Lib3hToClient {
    Connected(String),
    HandleDropEntry(String),
    HandleFetchEntry(String),
    HandleGetAuthoringEntryList(String),
    HandleGetGossipingEntryList(String),
    HandleQueryEntry(String),
    HandleSendDirectMessage(String),
    HandleStoreEntryAspect(String),
    Unbound(String),
}

pub enum Lib3hToClientView {
    Connected(Seq<char>),
    HandleDropEntry(Seq<char>),
    HandleFetchEntry(Seq<char>),
    HandleGetAuthoringEntryList(Seq<char>),
    HandleGetGossipingEntryList(Seq<char>),
    HandleQueryEntry(Seq<char>),
    HandleSendDirectMessage(Seq<char>),
    HandleStoreEntryAspect(Seq<char>),
    Unbound(Seq<char>),
}

impl View for Lib3hToClient {
    type V = Lib3hToClientView;

    open spec fn view(&self) -> Lib3hToClientView {
        match self {
            Lib3hToClient::Connected(s) => Lib3hToClientView::Connected(s@),
            Lib3hToClient::HandleDropEntry(s) => Lib3hToClientView::HandleDropEntry(s@),
            Lib3hToClient::HandleFetchEntry(s) => Lib3hToClientView::HandleFetchEntry(s@),
            Lib3hToClient::HandleGetAuthoringEntryList(s) => Lib3hToClientView::HandleGetAuthoringEntryList(s@),
            Lib3hToClient::HandleGetGossipingEntryList(s) => Lib3hToClientView::HandleGetGossipingEntryList(s@),
            Lib3hToClient::HandleQueryEntry(s) => Lib3hToClientView::HandleQueryEntry(s@),
            Lib3hToClient::HandleSendDirectMessage(s) => Lib3hToClientView::HandleSendDirectMessage(s@),
            Lib3hToClient::HandleStoreEntryAspect(s) => Lib3hToClientView::HandleStoreEntryAspect(s@),
            Lib3hToClient::Unbound(s) => Lib3hToClientView::Unbound(s@),
        }
    }
}

/// A response to a `ClientToLib3h` request.
#[derive(Debug, Clone)]
pub enum ClientToLib3hResponse {
    BootstrapSuccess,
    FetchEntryResult(String),
    JoinSpaceResult,
    LeaveSpaceResult,
    QueryEntryResult(String),
    SendDirectMessageResult(String),
}

pub enum ClientToLib3hResponseView {
    BootstrapSuccess,
    FetchEntryResult(Seq<char>),
    JoinSpaceResult,
    LeaveSpaceResult,
    QueryEntryResult(Seq<char>),
    SendDirectMessageResult(Seq<char>),
}

impl View for ClientToLib3hResponse {
    type V = ClientToLib3hResponseView;

    open spec fn view(&self) -> ClientToLib3hResponseView {
        match self {
            ClientToLib3hResponse::BootstrapSuccess => ClientToLib3hResponseView::BootstrapSuccess,
            ClientToLib3hResponse::FetchEntryResult(s) => ClientToLib3hResponseView::FetchEntryResult(s@),
            ClientToLib3hResponse::JoinSpaceResult => ClientToLib3hResponseView::JoinSpaceResult,
            ClientToLib3hResponse::LeaveSpaceResult => ClientToLib3hResponseView::LeaveSpaceResult,
            ClientToLib3hResponse::QueryEntryResult(s) => ClientToLib3hResponseView::QueryEntryResult(s@),
            ClientToLib3hResponse::SendDirectMessageResult(s) => ClientToLib3hResponseView::SendDirectMessageResult(s@),
        }
    }
}

/// A response to a `Lib3hToClient` request.
#[derive(Debug, Clone)]
pub enum Lib3hToClientResponse {
    HandleDropEntryResult,
    HandleFetchEntryResult(String),
    HandleGetAuthoringEntryListResult(String),
    HandleGetGossipingEntryListResult(String),
    HandleQueryEntryResult(String),
    HandleSendDirectMessageResult(String),
    HandleStoreEntryAspectResult,
}

pub enum Lib3hToClientResponseView {
    HandleDropEntryResult,
    HandleFetchEntryResult(Seq<char>),
    HandleGetAuthoringEntryListResult(Seq<char>),
    HandleGetGossipingEntryListResult(Seq<char>),
    HandleQueryEntryResult(Seq<char>),
    HandleSendDirectMessageResult(Seq<char>),
    HandleStoreEntryAspectResult,
}

impl View for Lib3hToClientResponse {
    type V = Lib3hToClientResponseView;

    open spec fn view(&self) -> Lib3hToClientResponseView {
        match self {
            Lib3hToClientResponse::HandleDropEntryResult => Lib3hToClientResponseView::HandleDropEntryResult,
            Lib3hToClientResponse::HandleFetchEntryResult(s) => Lib3hToClientResponseView::HandleFetchEntryResult(s@),
            Lib3hToClientResponse::HandleGetAuthoringEntryListResult(s) => Lib3hToClientResponseView::HandleGetAuthoringEntryListResult(s@),
            Lib3hToClientResponse::HandleGetGossipingEntryListResult(s) => Lib3hToClientResponseView::HandleGetGossipingEntryListResult(s@),
            Lib3hToClientResponse::HandleQueryEntryResult(s) => Lib3hToClientResponseView::HandleQueryEntryResult(s@),
            Lib3hToClientResponse::HandleSendDirectMessageResult(s) => Lib3hToClientResponseView::HandleSendDirectMessageResult(s@),
            Lib3hToClientResponse::HandleStoreEntryAspectResult => Lib3hToClientResponseView::HandleStoreEntryAspectResult,
        }
    }
}

/// The envelope: every distinguishable message that may appear on the wire.
#[derive(Debug, Clone)]
pub enum WireMessage {
    ClientToLib3hResponse(ClientToLib3hResponse),
    Lib3hToClientResponse(Lib3hToClientResponse),
    ClientToLib3h(ClientToLib3h),
    Lib3hToClient(Lib3hToClient),
    Ping,
    Pong,
    Error(WireError),
    Status,
    StatusResponse(StatusData),
}

pub enum WireMessageView {
    ClientToLib3hResponse(ClientToLib3hResponseView),
    Lib3hToClientResponse(Lib3hToClientResponseView),
    ClientToLib3h(ClientToLib3hView),
    Lib3hToClient(Lib3hToClientView),
    Ping,
    Pong,
    Error(WireErrorView),
    Status,
    StatusResponse(StatusData),
}

impl View for WireMessage {
    type V = WireMessageView;

    open spec fn view(&self) -> WireMessageView {
        match self {
            WireMessage::ClientToLib3hResponse(r) => WireMessageView::ClientToLib3hResponse(r@),
            WireMessage::Lib3hToClientResponse(r) => WireMessageView::Lib3hToClientResponse(r@),
            WireMessage::ClientToLib3h(r) => WireMessageView::ClientToLib3h(r@),
            WireMessage::Lib3hToClient(r) => WireMessageView::Lib3hToClient(r@),
            WireMessage::Ping => WireMessageView::Ping,
            WireMessage::Pong => WireMessageView::Pong,
            WireMessage::Error(e) => WireMessageView::Error(e@),
            WireMessage::Status => WireMessageView::Status,
            WireMessage::StatusResponse(d) => WireMessageView::StatusResponse(d@),
        }
    }
}

impl PartialEq for WireError {
    fn eq(&self, other: &Self) -> (r: bool) {
        match (self, other) {
            (WireError::MessageWhileInLimbo, WireError::MessageWhileInLimbo) => true,
            (WireError::Other(a), WireError::Other(b)) => a.eq(b),
            _ => false,
        }
    }
}

impl vstd::std_specs::cmp::PartialEqSpecImpl for WireError {
    open spec fn obeys_eq_spec() -> bool {
        true
    }

    open spec fn eq_spec(&self, other: &Self) -> bool {
        self@ == other@
    }
}

impl PartialEq for ClientToLib3h {
    fn eq(&self, other: &Self) -> (r: bool) {
        match (self, other) {
            (ClientToLib3h::Bootstrap(a), ClientToLib3h::Bootstrap(b)) => a.eq(b),
            (ClientToLib3h::FetchEntry(a), ClientToLib3h::FetchEntry(b)) => a.eq(b),
            (ClientToLib3h::JoinSpace(a), ClientToLib3h::JoinSpace(b)) => a.eq(b),
            (ClientToLib3h::LeaveSpace(a), ClientToLib3h::LeaveSpace(b)) => a.eq(b),
            (ClientToLib3h::PublishEntry(a), ClientToLib3h::PublishEntry(b)) => a.eq(b),
            (ClientToLib3h::QueryEntry(a), ClientToLib3h::QueryEntry(b)) => a.eq(b),
            (ClientToLib3h::SendDirectMessage(a), ClientToLib3h::SendDirectMessage(b)) => a.eq(b),
            _ => false,
        }
    }
}

impl vstd::std_specs::cmp::PartialEqSpecImpl for ClientToLib3h {
    open spec fn obeys_eq_spec() -> bool {
        true
    }

    open spec fn eq_spec(&self, other: &Self) -> bool {
        self@ == other@
    }
}

impl PartialEq for Lib3hToClient {
    fn eq(&self, other: &Self) -> (r: bool) {
        match (self, other) {
            (Lib3hToClient::Connected(a), Lib3hToClient::Connected(b)) => a.eq(b),
            (Lib3hToClient::HandleDropEntry(a), Lib3hToClient::HandleDropEntry(b)) => a.eq(b),
            (Lib3hToClient::HandleFetchEntry(a), Lib3hToClient::HandleFetchEntry(b)) => a.eq(b),
            (Lib3hToClient::HandleGetAuthoringEntryList(a), Lib3hToClient::HandleGetAuthoringEntryList(b)) => a.eq(b),
            (Lib3hToClient::HandleGetGossipingEntryList(a), Lib3hToClient::HandleGetGossipingEntryList(b)) => a.eq(b),
            (Lib3hToClient::HandleQueryEntry(a), Lib3hToClient::HandleQueryEntry(b)) => a.eq(b),
            (Lib3hToClient::HandleSendDirectMessage(a), Lib3hToClient::HandleSendDirectMessage(b)) => a.eq(b),
            (Lib3hToClient::HandleStoreEntryAspect(a), Lib3hToClient::HandleStoreEntryAspect(b)) => a.eq(b),
            (Lib3hToClient::Unbound(a), Lib3hToClient::Unbound(b)) => a.eq(b),
            _ => false,
        }
    }
}

impl vstd::std_specs::cmp::PartialEqSpecImpl for Lib3hToClient {
    open spec fn obeys_eq_spec() -> bool {
        true
    }

    open spec fn eq_spec(&self, other: &Self) -> bool {
        self@ == other@
    }
}

impl PartialEq for ClientToLib3hResponse {
    fn eq(&self, other: &Self) -> (r: bool) {
        match (self, other) {
            (ClientToLib3hResponse::BootstrapSuccess, ClientToLib3hResponse::BootstrapSuccess) => true,
            (ClientToLib3hResponse::FetchEntryResult(a), ClientToLib3hResponse::FetchEntryResult(b)) => a.eq(b),
            (ClientToLib3hResponse::JoinSpaceResult, ClientToLib3hResponse::JoinSpaceResult) => true,
            (ClientToLib3hResponse::LeaveSpaceResult, ClientToLib3hResponse::LeaveSpaceResult) => true,
            (ClientToLib3hResponse::QueryEntryResult(a), ClientToLib3hResponse::QueryEntryResult(b)) => a.eq(b),
            (ClientToLib3hResponse::SendDirectMessageResult(a), ClientToLib3hResponse::SendDirectMessageResult(b)) => a.eq(b),
            _ => false,
        }
    }
}

impl vstd::std_specs::cmp::PartialEqSpecImpl for ClientToLib3hResponse {
    open spec fn obeys_eq_spec() -> bool {
        true
    }

    open spec fn eq_spec(&self, other: &Self) -> bool {
        self@ == other@
    }
}

impl PartialEq for Lib3hToClientResponse {
    fn eq(&self, other: &Self) -> (r: bool) {
        match (self, other) {
            (Lib3hToClientResponse::HandleDropEntryResult, Lib3hToClientResponse::HandleDropEntryResult) => true,
            (Lib3hToClientResponse::HandleFetchEntryResult(a), Lib3hToClientResponse::HandleFetchEntryResult(b)) => a.eq(b),
            (Lib3hToClientResponse::HandleGetAuthoringEntryListResult(a), Lib3hToClientResponse::HandleGetAuthoringEntryListResult(b)) => a.eq(b),
            (Lib3hToClientResponse::HandleGetGossipingEntryListResult(a), Lib3hToClientResponse::HandleGetGossipingEntryListResult(b)) => a.eq(b),
            (Lib3hToClientResponse::HandleQueryEntryResult(a), Lib3hToClientResponse::HandleQueryEntryResult(b)) => a.eq(b),
            (Lib3hToClientResponse::HandleSendDirectMessageResult(a), Lib3hToClientResponse::HandleSendDirectMessageResult(b)) => a.eq(b),
            (Lib3hToClientResponse::HandleStoreEntryAspectResult, Lib3hToClientResponse::HandleStoreEntryAspectResult) => true,
            _ => false,
        }
    }
}

impl vstd::std_specs::cmp::PartialEqSpecImpl for Lib3hToClientResponse {
    open spec fn obeys_eq_spec() -> bool {
        true
    }

    open spec fn eq_spec(&self, other: &Self) -> bool {
        self@ == other@
    }
}

impl PartialEq for WireMessage {
    fn eq(&self, other: &Self) -> (r: bool) {
        match (self, other) {
            (WireMessage::ClientToLib3hResponse(a), WireMessage::ClientToLib3hResponse(b)) => a.eq(b),
            (WireMessage::Lib3hToClientResponse(a), WireMessage::Lib3hToClientResponse(b)) => a.eq(b),
            (WireMessage::ClientToLib3h(a), WireMessage::ClientToLib3h(b)) => a.eq(b),
            (WireMessage::Lib3hToClient(a), WireMessage::Lib3hToClient(b)) => a.eq(b),
            (WireMessage::Ping, WireMessage::Ping) => true,
            (WireMessage::Pong, WireMessage::Pong) => true,
            (WireMessage::Error(a), WireMessage::Error(b)) => a.eq(b),
            (WireMessage::Status, WireMessage::Status) => true,
            (WireMessage::StatusResponse(a), WireMessage::StatusResponse(b)) => *a == *b,
            _ => false,
        }
    }
}

impl vstd::std_specs::cmp::PartialEqSpecImpl for WireMessage {
    open spec fn obeys_eq_spec() -> bool {
        true
    }

    open spec fn eq_spec(&self, other: &Self) -> bool {
        self@ == other@
    }
}

} // verus!
