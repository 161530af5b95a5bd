//! Observability labels: one short, stable text per message kind, never
//! used for control flow here. Labels name the direction and whether the
//! message is a request or a response; the error label is constant text
//! that carries no detail of the error it stands for.
use vstd::prelude::*;
use crate::msg::ClientToLib3hResponse;
use crate::msg::ClientToLib3hResponseView;
use crate::msg::ClientToLib3h;
use crate::msg::ClientToLib3hView;
use crate::msg::Lib3hToClientResponse;
use crate::msg::Lib3hToClientResponseView;
use crate::msg::Lib3hToClient;
use crate::msg::Lib3hToClientView;
use crate::msg::WireMessage;
use crate::msg::WireMessageView;
use vstd::string::StringExecFns;

verus! {

/// The label of each envelope kind.
pub open spec fn type_label(m: WireMessageView) -> Seq<char> {
    match m {
        WireMessageView::Ping => "Ping"@,
        WireMessageView::Pong => "Pong"@,
        WireMessageView::Status => "Status"@,
        WireMessageView::StatusResponse(_) => "StatusResponse"@,
        WireMessageView::ClientToLib3h(p) => match p {
            ClientToLib3hView::Bootstrap(_) => "[C>L]Bootstrap"@,
            ClientToLib3hView::FetchEntry(_) => "[C>L]FetchEntry"@,
            ClientToLib3hView::JoinSpace(_) => "[C>L]JoinSpace"@,
            ClientToLib3hView::LeaveSpace(_) => "[C>L]LeaveSpace"@,
            ClientToLib3hView::PublishEntry(_) => "[C>L]PublishEntry"@,
            ClientToLib3hView::QueryEntry(_) => "[C>L]QueryEntry"@,
            ClientToLib3hView::SendDirectMessage(_) => "[C>L]SendDirectmessage"@,
        },
        WireMessageView::ClientToLib3hResponse(p) => match p {
            ClientToLib3hResponseView::BootstrapSuccess => "[C<L]BootsrapSuccess"@,
            ClientToLib3hResponseView::FetchEntryResult(_) => "[C<L]FetchEntryResult"@,
            ClientToLib3hResponseView::JoinSpaceResult => "[C<L]JoinSpaceResult"@,
            ClientToLib3hResponseView::LeaveSpaceResult => "[C<L]LeaveSpaceResult"@,
            ClientToLib3hResponseView::QueryEntryResult(_) => "[C<L]QueryEntryResult"@,
            ClientToLib3hResponseView::SendDirectMessageResult(_) => "[C<L]SendDirectMessageResult"@,
        },
        WireMessageView::Lib3hToClient(p) => match p {
            Lib3hToClientView::Connected(_) => "[L>C]Connected"@,
            Lib3hToClientView::HandleDropEntry(_) => "[L>C]HandleDropEntry"@,
            Lib3hToClientView::HandleFetchEntry(_) => "[L>C]HandleFetchEntry"@,
            Lib3hToClientView::HandleGetAuthoringEntryList(_) => "[L>C]HandleGetAuthoringList"@,
            Lib3hToClientView::HandleGetGossipingEntryList(_) => "[L>C]HandleGetGossipingEntryList"@,
            Lib3hToClientView::HandleQueryEntry(_) => "[L>C]HandleQueryEntry"@,
            Lib3hToClientView::HandleSendDirectMessage(_) => "[L>C]HandleSendDirectMessage"@,
            Lib3hToClientView::HandleStoreEntryAspect(_) => "[L>C]HandleStoreEntryAspect"@,
            Lib3hToClientView::Unbound(_) => "[L>C]Unbound"@,
        },
        WireMessageView::Lib3hToClientResponse(p) => match p {
            Lib3hToClientResponseView::HandleDropEntryResult => "[L<C]HandleDropEntryResult"@,
            Lib3hToClientResponseView::HandleFetchEntryResult(_) => "[L<C]HandleFetchEntryResult"@,
            Lib3hToClientResponseView::HandleGetAuthoringEntryListResult(_) => "[L<C]HandleGetAuthoringEntryListResult"@,
            Lib3hToClientResponseView::HandleGetGossipingEntryListResult(_) => "[L<C]HandleGetGossipingEntryListResult"@,
            Lib3hToClientResponseView::HandleQueryEntryResult(_) => "[L<C]HandleQueryEntryResult"@,
            Lib3hToClientResponseView::HandleSendDirectMessageResult(_) => "[L<C]HandleSendDirectMessageResult"@,
            Lib3hToClientResponseView::HandleStoreEntryAspectResult => "[L<C]HandleStoreEntryAspectResult"@,
        },
        WireMessageView::Error(_) => "[Error] {:?}"@,
    }
}

/// Which message class a label text names, read from the label alone:
/// 0 control, 1 client-to-hub request, 2 client-to-hub response,
/// 3 hub-to-client request, 4 hub-to-client response, 5 error.
pub open spec fn label_class(l: Seq<char>) -> int {
    if l.len() >= 3 && l[0] == '[' {
        if l[1] == 'E' {
            5
        } else if l[1] == 'C' && l[2] == '>' {
            1
        } else if l[1] == 'C' && l[2] == '<' {
            2
        } else if l[1] == 'L' && l[2] == '>' {
            3
        } else if l[1] == 'L' && l[2] == '<' {
            4
        } else {
            -1
        }
    } else {
        0
    }
}

/// The class an envelope belongs to, numbered as in `label_class`.
pub open spec fn msg_class(m: WireMessageView) -> int {
    match m {
        WireMessageView::Ping => 0,
        WireMessageView::Pong => 0,
        WireMessageView::Status => 0,
        WireMessageView::StatusResponse(_) => 0,
        WireMessageView::ClientToLib3h(_) => 1,
        WireMessageView::ClientToLib3hResponse(_) => 2,
        WireMessageView::Lib3hToClient(_) => 3,
        WireMessageView::Lib3hToClientResponse(_) => 4,
        WireMessageView::Error(_) => 5,
    }
}

/// Classification is total and distinguishes direction and
/// request-versus-response: every kind's label is non-empty and names the
/// kind's class on its own.
#[verifier::rlimit(100)]
pub proof fn lemma_type_label_class(m: WireMessageView)
    ensures
        type_label(m).len() > 0,
        label_class(type_label(m)) == msg_class(m),
{
    reveal_strlit("Ping");
    reveal_strlit("Pong");
    reveal_strlit("Status");
    reveal_strlit("StatusResponse");
    reveal_strlit("[C>L]Bootstrap");
    reveal_strlit("[C>L]FetchEntry");
    reveal_strlit("[C>L]JoinSpace");
    reveal_strlit("[C>L]LeaveSpace");
    reveal_strlit("[C>L]PublishEntry");
    reveal_strlit("[C>L]QueryEntry");
    reveal_strlit("[C>L]SendDirectmessage");
    reveal_strlit("[C<L]BootsrapSuccess");
    reveal_strlit("[C<L]FetchEntryResult");
    reveal_strlit("[C<L]JoinSpaceResult");
    reveal_strlit("[C<L]LeaveSpaceResult");
    reveal_strlit("[C<L]QueryEntryResult");
    reveal_strlit("[C<L]SendDirectMessageResult");
    reveal_strlit("[L>C]Connected");
    reveal_strlit("[L>C]HandleDropEntry");
    reveal_strlit("[L>C]HandleFetchEntry");
    reveal_strlit("[L>C]HandleGetAuthoringList");
    reveal_strlit("[L>C]HandleGetGossipingEntryList");
    reveal_strlit("[L>C]HandleQueryEntry");
    reveal_strlit("[L>C]HandleSendDirectMessage");
    reveal_strlit("[L>C]HandleStoreEntryAspect");
    reveal_strlit("[L>C]Unbound");
    reveal_strlit("[L<C]HandleDropEntryResult");
    reveal_strlit("[L<C]HandleFetchEntryResult");
    reveal_strlit("[L<C]HandleGetAuthoringEntryListResult");
    reveal_strlit("[L<C]HandleGetGossipingEntryListResult");
    reveal_strlit("[L<C]HandleQueryEntryResult");
    reveal_strlit("[L<C]HandleSendDirectMessageResult");
    reveal_strlit("[L<C]HandleStoreEntryAspectResult");
    reveal_strlit("[Error] {:?}");
}

pub open spec fn c2l_kind(p: ClientToLib3hView) -> int {
    match p {
        ClientToLib3hView::Bootstrap(_) => 0,
        ClientToLib3hView::FetchEntry(_) => 1,
        ClientToLib3hView::JoinSpace(_) => 2,
        ClientToLib3hView::LeaveSpace(_) => 3,
        ClientToLib3hView::PublishEntry(_) => 4,
        ClientToLib3hView::QueryEntry(_) => 5,
        ClientToLib3hView::SendDirectMessage(_) => 6,
    }
}

pub open spec fn c2lr_kind(p: ClientToLib3hResponseView) -> int {
    match p {
        ClientToLib3hResponseView::BootstrapSuccess => 0,
        ClientToLib3hResponseView::FetchEntryResult(_) => 1,
        ClientToLib3hResponseView::JoinSpaceResult => 2,
        ClientToLib3hResponseView::LeaveSpaceResult => 3,
        ClientToLib3hResponseView::QueryEntryResult(_) => 4,
        ClientToLib3hResponseView::SendDirectMessageResult(_) => 5,
    }
}

pub open spec fn l2c_kind(p: Lib3hToClientView) -> int {
    match p {
        Lib3hToClientView::Connected(_) => 0,
        Lib3hToClientView::HandleDropEntry(_) => 1,
        Lib3hToClientView::HandleFetchEntry(_) => 2,
        Lib3hToClientView::HandleGetAuthoringEntryList(_) => 3,
        Lib3hToClientView::HandleGetGossipingEntryList(_) => 4,
        Lib3hToClientView::HandleQueryEntry(_) => 5,
        Lib3hToClientView::HandleSendDirectMessage(_) => 6,
        Lib3hToClientView::HandleStoreEntryAspect(_) => 7,
        Lib3hToClientView::Unbound(_) => 8,
    }
}

pub open spec fn l2cr_kind(p: Lib3hToClientResponseView) -> int {
    match p {
        Lib3hToClientResponseView::HandleDropEntryResult => 0,
        Lib3hToClientResponseView::HandleFetchEntryResult(_) => 1,
        Lib3hToClientResponseView::HandleGetAuthoringEntryListResult(_) => 2,
        Lib3hToClientResponseView::HandleGetGossipingEntryListResult(_) => 3,
        Lib3hToClientResponseView::HandleQueryEntryResult(_) => 4,
        Lib3hToClientResponseView::HandleSendDirectMessageResult(_) => 5,
        Lib3hToClientResponseView::HandleStoreEntryAspectResult => 6,
    }
}

/// The named kind of an envelope, payloads disregarded: the granularity at
/// which labels are handed out.
pub open spec fn kind_index(m: WireMessageView) -> int {
    match m {
        WireMessageView::Ping => 0,
        WireMessageView::Pong => 1,
        WireMessageView::Status => 2,
        WireMessageView::StatusResponse(_) => 3,
        WireMessageView::Error(_) => 4,
        WireMessageView::ClientToLib3h(p) => 10 + c2l_kind(p),
        WireMessageView::ClientToLib3hResponse(p) => 20 + c2lr_kind(p),
        WireMessageView::Lib3hToClient(p) => 30 + l2c_kind(p),
        WireMessageView::Lib3hToClientResponse(p) => 40 + l2cr_kind(p),
    }
}

#[verifier::rlimit(100)]
proof fn lemma_c2l_labels(a: ClientToLib3hView, b: ClientToLib3hView)
    requires
        type_label(WireMessageView::ClientToLib3h(a)) == type_label(
            WireMessageView::ClientToLib3h(b),
        ),
    ensures
        c2l_kind(a) == c2l_kind(b),
{
    reveal_strlit("[C>L]Bootstrap");
    reveal_strlit("[C>L]FetchEntry");
    reveal_strlit("[C>L]JoinSpace");
    reveal_strlit("[C>L]LeaveSpace");
    reveal_strlit("[C>L]PublishEntry");
    reveal_strlit("[C>L]QueryEntry");
    reveal_strlit("[C>L]SendDirectmessage");
    assert("[C>L]Bootstrap"@.len() == 14);
    assert("[C>L]FetchEntry"@.len() == 15);
    assert("[C>L]JoinSpace"@.len() == 14);
    assert("[C>L]LeaveSpace"@.len() == 15);
    assert("[C>L]PublishEntry"@.len() == 17);
    assert("[C>L]QueryEntry"@.len() == 15);
    assert("[C>L]SendDirectmessage"@.len() == 22);
    assert("[C>L]Bootstrap"@ != "[C>L]FetchEntry"@);
    assert("[C>L]Bootstrap"@[5] != "[C>L]JoinSpace"@[5]);
    assert("[C>L]Bootstrap"@ != "[C>L]JoinSpace"@);
    assert("[C>L]Bootstrap"@ != "[C>L]LeaveSpace"@);
    assert("[C>L]Bootstrap"@ != "[C>L]PublishEntry"@);
    assert("[C>L]Bootstrap"@ != "[C>L]QueryEntry"@);
    assert("[C>L]Bootstrap"@ != "[C>L]SendDirectmessage"@);
    assert("[C>L]FetchEntry"@ != "[C>L]JoinSpace"@);
    assert("[C>L]FetchEntry"@[5] != "[C>L]LeaveSpace"@[5]);
    assert("[C>L]FetchEntry"@ != "[C>L]LeaveSpace"@);
    assert("[C>L]FetchEntry"@ != "[C>L]PublishEntry"@);
    assert("[C>L]FetchEntry"@[5] != "[C>L]QueryEntry"@[5]);
    assert("[C>L]FetchEntry"@ != "[C>L]QueryEntry"@);
    assert("[C>L]FetchEntry"@ != "[C>L]SendDirectmessage"@);
    assert("[C>L]JoinSpace"@ != "[C>L]LeaveSpace"@);
    assert("[C>L]JoinSpace"@ != "[C>L]PublishEntry"@);
    assert("[C>L]JoinSpace"@ != "[C>L]QueryEntry"@);
    assert("[C>L]JoinSpace"@ != "[C>L]SendDirectmessage"@);
    assert("[C>L]LeaveSpace"@ != "[C>L]PublishEntry"@);
    assert("[C>L]LeaveSpace"@[5] != "[C>L]QueryEntry"@[5]);
    assert("[C>L]LeaveSpace"@ != "[C>L]QueryEntry"@);
    assert("[C>L]LeaveSpace"@ != "[C>L]SendDirectmessage"@);
    assert("[C>L]PublishEntry"@ != "[C>L]QueryEntry"@);
    assert("[C>L]PublishEntry"@ != "[C>L]SendDirectmessage"@);
    assert("[C>L]QueryEntry"@ != "[C>L]SendDirectmessage"@);
}

#[verifier::rlimit(100)]
proof fn lemma_c2lr_labels(a: ClientToLib3hResponseView, b: ClientToLib3hResponseView)
    requires
        type_label(WireMessageView::ClientToLib3hResponse(a)) == type_label(
            WireMessageView::ClientToLib3hResponse(b),
        ),
    ensures
        c2lr_kind(a) == c2lr_kind(b),
{
    reveal_strlit("[C<L]BootsrapSuccess");
    reveal_strlit("[C<L]FetchEntryResult");
    reveal_strlit("[C<L]JoinSpaceResult");
    reveal_strlit("[C<L]LeaveSpaceResult");
    reveal_strlit("[C<L]QueryEntryResult");
    reveal_strlit("[C<L]SendDirectMessageResult");
    assert("[C<L]BootsrapSuccess"@.len() == 20);
    assert("[C<L]FetchEntryResult"@.len() == 21);
    assert("[C<L]JoinSpaceResult"@.len() == 20);
    assert("[C<L]LeaveSpaceResult"@.len() == 21);
    assert("[C<L]QueryEntryResult"@.len() == 21);
    assert("[C<L]SendDirectMessageResult"@.len() == 28);
    assert("[C<L]BootsrapSuccess"@ != "[C<L]FetchEntryResult"@);
    assert("[C<L]BootsrapSuccess"@[5] != "[C<L]JoinSpaceResult"@[5]);
    assert("[C<L]BootsrapSuccess"@ != "[C<L]JoinSpaceResult"@);
    assert("[C<L]BootsrapSuccess"@ != "[C<L]LeaveSpaceResult"@);
    assert("[C<L]BootsrapSuccess"@ != "[C<L]QueryEntryResult"@);
    assert("[C<L]BootsrapSuccess"@ != "[C<L]SendDirectMessageResult"@);
    assert("[C<L]FetchEntryResult"@ != "[C<L]JoinSpaceResult"@);
    assert("[C<L]FetchEntryResult"@[5] != "[C<L]LeaveSpaceResult"@[5]);
    assert("[C<L]FetchEntryResult"@ != "[C<L]LeaveSpaceResult"@);
    assert("[C<L]FetchEntryResult"@[5] != "[C<L]QueryEntryResult"@[5]);
    assert("[C<L]FetchEntryResult"@ != "[C<L]QueryEntryResult"@);
    assert("[C<L]FetchEntryResult"@ != "[C<L]SendDirectMessageResult"@);
    assert("[C<L]JoinSpaceResult"@ != "[C<L]LeaveSpaceResult"@);
    assert("[C<L]JoinSpaceResult"@ != "[C<L]QueryEntryResult"@);
    assert("[C<L]JoinSpaceResult"@ != "[C<L]SendDirectMessageResult"@);
    assert("[C<L]LeaveSpaceResult"@[5] != "[C<L]QueryEntryResult"@[5]);
    assert("[C<L]LeaveSpaceResult"@ != "[C<L]QueryEntryResult"@);
    assert("[C<L]LeaveSpaceResult"@ != "[C<L]SendDirectMessageResult"@);
    assert("[C<L]QueryEntryResult"@ != "[C<L]SendDirectMessageResult"@);
}

#[verifier::rlimit(100)]
proof fn lemma_l2c_labels(a: Lib3hToClientView, b: Lib3hToClientView)
    requires
        type_label(WireMessageView::Lib3hToClient(a)) == type_label(
            WireMessageView::Lib3hToClient(b),
        ),
    ensures
        l2c_kind(a) == l2c_kind(b),
{
    reveal_strlit("[L>C]Connected");
    reveal_strlit("[L>C]HandleDropEntry");
    reveal_strlit("[L>C]HandleFetchEntry");
    reveal_strlit("[L>C]HandleGetAuthoringList");
    reveal_strlit("[L>C]HandleGetGossipingEntryList");
    reveal_strlit("[L>C]HandleQueryEntry");
    reveal_strlit("[L>C]HandleSendDirectMessage");
    reveal_strlit("[L>C]HandleStoreEntryAspect");
    reveal_strlit("[L>C]Unbound");
    assert("[L>C]Connected"@.len() == 14);
    assert("[L>C]HandleDropEntry"@.len() == 20);
    assert("[L>C]HandleFetchEntry"@.len() == 21);
    assert("[L>C]HandleGetAuthoringList"@.len() == 27);
    assert("[L>C]HandleGetGossipingEntryList"@.len() == 32);
    assert("[L>C]HandleQueryEntry"@.len() == 21);
    assert("[L>C]HandleSendDirectMessage"@.len() == 28);
    assert("[L>C]HandleStoreEntryAspect"@.len() == 27);
    assert("[L>C]Unbound"@.len() == 12);
    assert("[L>C]Connected"@ != "[L>C]HandleDropEntry"@);
    assert("[L>C]Connected"@ != "[L>C]HandleFetchEntry"@);
    assert("[L>C]Connected"@ != "[L>C]HandleGetAuthoringList"@);
    assert("[L>C]Connected"@ != "[L>C]HandleGetGossipingEntryList"@);
    assert("[L>C]Connected"@ != "[L>C]HandleQueryEntry"@);
    assert("[L>C]Connected"@ != "[L>C]HandleSendDirectMessage"@);
    assert("[L>C]Connected"@ != "[L>C]HandleStoreEntryAspect"@);
    assert("[L>C]Connected"@ != "[L>C]Unbound"@);
    assert("[L>C]HandleDropEntry"@ != "[L>C]HandleFetchEntry"@);
    assert("[L>C]HandleDropEntry"@ != "[L>C]HandleGetAuthoringList"@);
    assert("[L>C]HandleDropEntry"@ != "[L>C]HandleGetGossipingEntryList"@);
    assert("[L>C]HandleDropEntry"@ != "[L>C]HandleQueryEntry"@);
    assert("[L>C]HandleDropEntry"@ != "[L>C]HandleSendDirectMessage"@);
    assert("[L>C]HandleDropEntry"@ != "[L>C]HandleStoreEntryAspect"@);
    assert("[L>C]HandleDropEntry"@ != "[L>C]Unbound"@);
    assert("[L>C]HandleFetchEntry"@ != "[L>C]HandleGetAuthoringList"@);
    assert("[L>C]HandleFetchEntry"@ != "[L>C]HandleGetGossipingEntryList"@);
    assert("[L>C]HandleFetchEntry"@[11] != "[L>C]HandleQueryEntry"@[11]);
    assert("[L>C]HandleFetchEntry"@ != "[L>C]HandleQueryEntry"@);
    assert("[L>C]HandleFetchEntry"@ != "[L>C]HandleSendDirectMessage"@);
    assert("[L>C]HandleFetchEntry"@ != "[L>C]HandleStoreEntryAspect"@);
    assert("[L>C]HandleFetchEntry"@ != "[L>C]Unbound"@);
    assert("[L>C]HandleGetAuthoringList"@ != "[L>C]HandleGetGossipingEntryList"@);
    assert("[L>C]HandleGetAuthoringList"@ != "[L>C]HandleQueryEntry"@);
    assert("[L>C]HandleGetAuthoringList"@ != "[L>C]HandleSendDirectMessage"@);
    assert("[L>C]HandleGetAuthoringList"@[11] != "[L>C]HandleStoreEntryAspect"@[11]);
    assert("[L>C]HandleGetAuthoringList"@ != "[L>C]HandleStoreEntryAspect"@);
    assert("[L>C]HandleGetAuthoringList"@ != "[L>C]Unbound"@);
    assert("[L>C]HandleGetGossipingEntryList"@ != "[L>C]HandleQueryEntry"@);
    assert("[L>C]HandleGetGossipingEntryList"@ != "[L>C]HandleSendDirectMessage"@);
    assert("[L>C]HandleGetGossipingEntryList"@ != "[L>C]HandleStoreEntryAspect"@);
    assert("[L>C]HandleGetGossipingEntryList"@ != "[L>C]Unbound"@);
    assert("[L>C]HandleQueryEntry"@ != "[L>C]HandleSendDirectMessage"@);
    assert("[L>C]HandleQueryEntry"@ != "[L>C]HandleStoreEntryAspect"@);
    assert("[L>C]HandleQueryEntry"@ != "[L>C]Unbound"@);
    assert("[L>C]HandleSendDirectMessage"@ != "[L>C]HandleStoreEntryAspect"@);
    assert("[L>C]HandleSendDirectMessage"@ != "[L>C]Unbound"@);
    assert("[L>C]HandleStoreEntryAspect"@ != "[L>C]Unbound"@);
}

#[verifier::rlimit(100)]
proof fn lemma_l2cr_labels(a: Lib3hToClientResponseView, b: Lib3hToClientResponseView)
    requires
        type_label(WireMessageView::Lib3hToClientResponse(a)) == type_label(
            WireMessageView::Lib3hToClientResponse(b),
        ),
    ensures
        l2cr_kind(a) == l2cr_kind(b),
{
    reveal_strlit("[L<C]HandleDropEntryResult");
    reveal_strlit("[L<C]HandleFetchEntryResult");
    reveal_strlit("[L<C]HandleGetAuthoringEntryListResult");
    reveal_strlit("[L<C]HandleGetGossipingEntryListResult");
    reveal_strlit("[L<C]HandleQueryEntryResult");
    reveal_strlit("[L<C]HandleSendDirectMessageResult");
    reveal_strlit("[L<C]HandleStoreEntryAspectResult");
    assert("[L<C]HandleDropEntryResult"@.len() == 26);
    assert("[L<C]HandleFetchEntryResult"@.len() == 27);
    assert("[L<C]HandleGetAuthoringEntryListResult"@.len() == 38);
    assert("[L<C]HandleGetGossipingEntryListResult"@.len() == 38);
    assert("[L<C]HandleQueryEntryResult"@.len() == 27);
    assert("[L<C]HandleSendDirectMessageResult"@.len() == 34);
    assert("[L<C]HandleStoreEntryAspectResult"@.len() == 33);
    assert("[L<C]HandleDropEntryResult"@ != "[L<C]HandleFetchEntryResult"@);
    assert("[L<C]HandleDropEntryResult"@ != "[L<C]HandleGetAuthoringEntryListResult"@);
    assert("[L<C]HandleDropEntryResult"@ != "[L<C]HandleGetGossipingEntryListResult"@);
    assert("[L<C]HandleDropEntryResult"@ != "[L<C]HandleQueryEntryResult"@);
    assert("[L<C]HandleDropEntryResult"@ != "[L<C]HandleSendDirectMessageResult"@);
    assert("[L<C]HandleDropEntryResult"@ != "[L<C]HandleStoreEntryAspectResult"@);
    assert("[L<C]HandleFetchEntryResult"@ != "[L<C]HandleGetAuthoringEntryListResult"@);
    assert("[L<C]HandleFetchEntryResult"@ != "[L<C]HandleGetGossipingEntryListResult"@);
    assert("[L<C]HandleFetchEntryResult"@[11] != "[L<C]HandleQueryEntryResult"@[11]);
    assert("[L<C]HandleFetchEntryResult"@ != "[L<C]HandleQueryEntryResult"@);
    assert("[L<C]HandleFetchEntryResult"@ != "[L<C]HandleSendDirectMessageResult"@);
    assert("[L<C]HandleFetchEntryResult"@ != "[L<C]HandleStoreEntryAspectResult"@);
    assert("[L<C]HandleGetAuthoringEntryListResult"@[14] != "[L<C]HandleGetGossipingEntryListResult"@[14]);
    assert("[L<C]HandleGetAuthoringEntryListResult"@ != "[L<C]HandleGetGossipingEntryListResult"@);
    assert("[L<C]HandleGetAuthoringEntryListResult"@ != "[L<C]HandleQueryEntryResult"@);
    assert("[L<C]HandleGetAuthoringEntryListResult"@ != "[L<C]HandleSendDirectMessageResult"@);
    assert("[L<C]HandleGetAuthoringEntryListResult"@ != "[L<C]HandleStoreEntryAspectResult"@);
    assert("[L<C]HandleGetGossipingEntryListResult"@ != "[L<C]HandleQueryEntryResult"@);
    assert("[L<C]HandleGetGossipingEntryListResult"@ != "[L<C]HandleSendDirectMessageResult"@);
    assert("[L<C]HandleGetGossipingEntryListResult"@ != "[L<C]HandleStoreEntryAspectResult"@);
    assert("[L<C]HandleQueryEntryResult"@ != "[L<C]HandleSendDirectMessageResult"@);
    assert("[L<C]HandleQueryEntryResult"@ != "[L<C]HandleStoreEntryAspectResult"@);
    assert("[L<C]HandleSendDirectMessageResult"@ != "[L<C]HandleStoreEntryAspectResult"@);
}

/// Labels are distinct where expected: two envelopes carry the same label
/// exactly when they are of the same named kind. Payload detail never
/// shows in a label — in particular every error carries the one constant
/// error label.
#[verifier::rlimit(100)]
pub proof fn lemma_type_label_injective(a: WireMessageView, b: WireMessageView)
    ensures
        (type_label(a) == type_label(b)) <==> (kind_index(a) == kind_index(b)),
{
    lemma_type_label_class(a);
    lemma_type_label_class(b);
    if type_label(a) == type_label(b) {
        if a is ClientToLib3h && b is ClientToLib3h {
            lemma_c2l_labels(a->ClientToLib3h_0, b->ClientToLib3h_0);
        }
        if a is ClientToLib3hResponse && b is ClientToLib3hResponse {
            lemma_c2lr_labels(a->ClientToLib3hResponse_0, b->ClientToLib3hResponse_0);
        }
        if a is Lib3hToClient && b is Lib3hToClient {
            lemma_l2c_labels(a->Lib3hToClient_0, b->Lib3hToClient_0);
        }
        if a is Lib3hToClientResponse && b is Lib3hToClientResponse {
            lemma_l2cr_labels(a->Lib3hToClientResponse_0, b->Lib3hToClientResponse_0);
        }
        reveal_strlit("Ping");
        reveal_strlit("Pong");
        reveal_strlit("Status");
        reveal_strlit("StatusResponse");
        assert("Ping"@.len() == 4);
        assert("Pong"@.len() == 4);
        assert("Status"@.len() == 6);
        assert("StatusResponse"@.len() == 14);
        assert("Ping"@[1] != "Pong"@[1]);
        assert("Ping"@ != "Pong"@);
        assert("Ping"@ != "Status"@);
        assert("Ping"@ != "StatusResponse"@);
        assert("Pong"@ != "Status"@);
        assert("Pong"@ != "StatusResponse"@);
        assert("Status"@ != "StatusResponse"@);
    }
}

/// The label of an equal envelope is equal: the label depends on the value
/// alone, never on anything outside it.
pub proof fn lemma_type_label_deterministic(a: WireMessageView, b: WireMessageView)
    requires
        a == b,
    ensures
        type_label(a) == type_label(b),
{
}

impl WireMessage {
    /// The short, stable label of this message's kind, for logging and
    /// metrics.
    pub fn message_type(&self) -> (r: String)
        ensures
            r@ == type_label(self@),
    {
        match self {
            WireMessage::Ping => String::from_str("Ping"),
            WireMessage::Pong => String::from_str("Pong"),
            WireMessage::Status => String::from_str("Status"),
            WireMessage::StatusResponse(_) => String::from_str("StatusResponse"),
            WireMessage::ClientToLib3h(p) => match p {
                ClientToLib3h::Bootstrap(_) => String::from_str("[C>L]Bootstrap"),
                ClientToLib3h::FetchEntry(_) => String::from_str("[C>L]FetchEntry"),
                ClientToLib3h::JoinSpace(_) => String::from_str("[C>L]JoinSpace"),
                ClientToLib3h::LeaveSpace(_) => String::from_str("[C>L]LeaveSpace"),
                ClientToLib3h::PublishEntry(_) => String::from_str("[C>L]PublishEntry"),
                ClientToLib3h::QueryEntry(_) => String::from_str("[C>L]QueryEntry"),
                ClientToLib3h::SendDirectMessage(_) => String::from_str("[C>L]SendDirectmessage"),
            },
            WireMessage::ClientToLib3hResponse(p) => match p {
                ClientToLib3hResponse::BootstrapSuccess => String::from_str("[C<L]BootsrapSuccess"),
                ClientToLib3hResponse::FetchEntryResult(_) => String::from_str(
                    "[C<L]FetchEntryResult",
                ),
                ClientToLib3hResponse::JoinSpaceResult => String::from_str("[C<L]JoinSpaceResult"),
                ClientToLib3hResponse::LeaveSpaceResult => String::from_str(
                    "[C<L]LeaveSpaceResult",
                ),
                ClientToLib3hResponse::QueryEntryResult(_) => String::from_str(
                    "[C<L]QueryEntryResult",
                ),
                ClientToLib3hResponse::SendDirectMessageResult(_) => String::from_str(
                    "[C<L]SendDirectMessageResult",
                ),
            },
            WireMessage::Lib3hToClient(p) => match p {
                Lib3hToClient::Connected(_) => String::from_str("[L>C]Connected"),
                Lib3hToClient::HandleDropEntry(_) => String::from_str("[L>C]HandleDropEntry"),
                Lib3hToClient::HandleFetchEntry(_) => String::from_str("[L>C]HandleFetchEntry"),
                Lib3hToClient::HandleGetAuthoringEntryList(_) => String::from_str(
                    "[L>C]HandleGetAuthoringList",
                ),
                Lib3hToClient::HandleGetGossipingEntryList(_) => String::from_str(
                    "[L>C]HandleGetGossipingEntryList",
                ),
                Lib3hToClient::HandleQueryEntry(_) => String::from_str("[L>C]HandleQueryEntry"),
                Lib3hToClient::HandleSendDirectMessage(_) => String::from_str(
                    "[L>C]HandleSendDirectMessage",
                ),
                Lib3hToClient::HandleStoreEntryAspect(_) => String::from_str(
                    "[L>C]HandleStoreEntryAspect",
                ),
                Lib3hToClient::Unbound(_) => String::from_str("[L>C]Unbound"),
            },
            WireMessage::Lib3hToClientResponse(p) => match p {
                Lib3hToClientResponse::HandleDropEntryResult => String::from_str(
                    "[L<C]HandleDropEntryResult",
                ),
                Lib3hToClientResponse::HandleFetchEntryResult(_) => String::from_str(
                    "[L<C]HandleFetchEntryResult",
                ),
                Lib3hToClientResponse::HandleGetAuthoringEntryListResult(_) => String::from_str(
                    "[L<C]HandleGetAuthoringEntryListResult",
                ),
                Lib3hToClientResponse::HandleGetGossipingEntryListResult(_) => String::from_str(
                    "[L<C]HandleGetGossipingEntryListResult",
                ),
                Lib3hToClientResponse::HandleQueryEntryResult(_) => String::from_str(
                    "[L<C]HandleQueryEntryResult",
                ),
                Lib3hToClientResponse::HandleSendDirectMessageResult(_) => String::from_str(
                    "[L<C]HandleSendDirectMessageResult",
                ),
                Lib3hToClientResponse::HandleStoreEntryAspectResult => String::from_str(
                    "[L<C]HandleStoreEntryAspectResult",
                ),
            },
            WireMessage::Error(_) => String::from_str("[Error] {:?}"),
        }
    }
}

} // verus!
