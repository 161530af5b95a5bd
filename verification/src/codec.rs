//! The wire encoding at spec level: what text each envelope value becomes,
//! what envelope a text reads back as, and the proof that reading undoes
//! writing for every constructible envelope.
//!
//! A message is one self-describing tagged value: a payload-free kind is its
//! quoted tag, a payload-carrying kind is a single-key object whose key is
//! the tag and whose value is the payload's own structured text, spliced
//! verbatim and recovered verbatim.
use vstd::prelude::*;
use crate::digits::dec_digits;
use crate::digits::digits_val;
use crate::digits::leading_digits;
use crate::digits::lemma_dec_digits_wf;
use crate::digits::lemma_digits_val_dec;
use crate::digits::lemma_leading_digits_concat;
use crate::jstr::esc;
use crate::jstr::lemma_unesc_esc;
use crate::jstr::unesc;
use crate::msg::ClientToLib3hResponseView;
use crate::msg::ClientToLib3hView;
use crate::msg::Lib3hToClientResponseView;
use crate::msg::Lib3hToClientView;
use crate::msg::StatusData;
use crate::msg::WireErrorView;
use crate::msg::WireMessageView;
use crate::text::lemma_quoted_ne;
use crate::text::lemma_strip_pre_concat;
use crate::text::lemma_strip_tagged_diff_at;
use crate::text::lemma_strip_tagged_longer;
use crate::text::lemma_strip_tagged_some;
use crate::text::lemma_tagged_ne_quoted;
use crate::text::quoted;
use crate::text::strip_pre;
use crate::text::strip_tagged;
use crate::text::tagged;

verus! {

// ---------------------------------------------------------------- encoding
pub open spec fn err_enc(e: WireErrorView) -> Seq<char> {
    match e {
        WireErrorView::MessageWhileInLimbo => quoted("MessageWhileInLimbo"@),
        WireErrorView::Other(s) => tagged("Other"@, quoted(esc(s))),
    }
}

pub open spec fn sdata_enc(d: StatusData) -> Seq<char> {
    "{\"spaces\":"@ + dec_digits(d.spaces as nat) + ",\"connections\":"@ + dec_digits(
        d.connections as nat,
    ) + ",\"redundant_count\":"@ + dec_digits(d.redundant_count as nat) + ",\"version\":"@
        + dec_digits(d.version as nat) + seq!['}']
}

pub open spec fn c2l_enc(p: ClientToLib3hView) -> Seq<char> {
    match p {
        ClientToLib3hView::Bootstrap(b) => tagged("Bootstrap"@, b),
        ClientToLib3hView::FetchEntry(b) => tagged("FetchEntry"@, b),
        ClientToLib3hView::JoinSpace(b) => tagged("JoinSpace"@, b),
        ClientToLib3hView::LeaveSpace(b) => tagged("LeaveSpace"@, b),
        ClientToLib3hView::PublishEntry(b) => tagged("PublishEntry"@, b),
        ClientToLib3hView::QueryEntry(b) => tagged("QueryEntry"@, b),
        ClientToLib3hView::SendDirectMessage(b) => tagged("SendDirectMessage"@, b),
    }
}

pub open spec fn l2c_enc(p: Lib3hToClientView) -> Seq<char> {
    match p {
        Lib3hToClientView::Connected(b) => tagged("Connected"@, b),
        Lib3hToClientView::HandleDropEntry(b) => tagged("HandleDropEntry"@, b),
        Lib3hToClientView::HandleFetchEntry(b) => tagged("HandleFetchEntry"@, b),
        Lib3hToClientView::HandleGetAuthoringEntryList(b) => tagged(
            "HandleGetAuthoringEntryList"@,
            b,
        ),
        Lib3hToClientView::HandleGetGossipingEntryList(b) => tagged(
            "HandleGetGossipingEntryList"@,
            b,
        ),
        Lib3hToClientView::HandleQueryEntry(b) => tagged("HandleQueryEntry"@, b),
        Lib3hToClientView::HandleSendDirectMessage(b) => tagged("HandleSendDirectMessage"@, b),
        Lib3hToClientView::HandleStoreEntryAspect(b) => tagged("HandleStoreEntryAspect"@, b),
        Lib3hToClientView::Unbound(b) => tagged("Unbound"@, b),
    }
}

pub open spec fn c2lr_enc(p: ClientToLib3hResponseView) -> Seq<char> {
    match p {
        ClientToLib3hResponseView::BootstrapSuccess => quoted("BootstrapSuccess"@),
        ClientToLib3hResponseView::JoinSpaceResult => quoted("JoinSpaceResult"@),
        ClientToLib3hResponseView::LeaveSpaceResult => quoted("LeaveSpaceResult"@),
        ClientToLib3hResponseView::FetchEntryResult(b) => tagged("FetchEntryResult"@, b),
        ClientToLib3hResponseView::QueryEntryResult(b) => tagged("QueryEntryResult"@, b),
        ClientToLib3hResponseView::SendDirectMessageResult(b) => tagged(
            "SendDirectMessageResult"@,
            b,
        ),
    }
}

pub open spec fn l2cr_enc(p: Lib3hToClientResponseView) -> Seq<char> {
    match p {
        Lib3hToClientResponseView::HandleDropEntryResult => quoted("HandleDropEntryResult"@),
        Lib3hToClientResponseView::HandleStoreEntryAspectResult => quoted(
            "HandleStoreEntryAspectResult"@,
        ),
        Lib3hToClientResponseView::HandleFetchEntryResult(b) => tagged(
            "HandleFetchEntryResult"@,
            b,
        ),
        Lib3hToClientResponseView::HandleGetAuthoringEntryListResult(b) => tagged(
            "HandleGetAuthoringEntryListResult"@,
            b,
        ),
        Lib3hToClientResponseView::HandleGetGossipingEntryListResult(b) => tagged(
            "HandleGetGossipingEntryListResult"@,
            b,
        ),
        Lib3hToClientResponseView::HandleQueryEntryResult(b) => tagged(
            "HandleQueryEntryResult"@,
            b,
        ),
        Lib3hToClientResponseView::HandleSendDirectMessageResult(b) => tagged(
            "HandleSendDirectMessageResult"@,
            b,
        ),
    }
}

/// The wire text of an envelope value.
pub open spec fn encode_spec(m: WireMessageView) -> Seq<char> {
    match m {
        WireMessageView::Ping => quoted("Ping"@),
        WireMessageView::Pong => quoted("Pong"@),
        WireMessageView::Status => quoted("Status"@),
        WireMessageView::Error(e) => tagged("Err"@, err_enc(e)),
        WireMessageView::StatusResponse(d) => tagged("StatusResponse"@, sdata_enc(d)),
        WireMessageView::ClientToLib3hResponse(p) => tagged("ClientToLib3hResponse"@, c2lr_enc(p)),
        WireMessageView::Lib3hToClientResponse(p) => tagged("Lib3hToClientResponse"@, l2cr_enc(p)),
        WireMessageView::ClientToLib3h(p) => tagged("ClientToLib3h"@, c2l_enc(p)),
        WireMessageView::Lib3hToClient(p) => tagged("Lib3hToClient"@, l2c_enc(p)),
    }
}

// ---------------------------------------------------------------- decoding
pub open spec fn err_dec(t: Seq<char>) -> Option<WireErrorView> {
    if t == quoted("MessageWhileInLimbo"@) {
        Some(WireErrorView::MessageWhileInLimbo)
    } else {
        match strip_tagged("Other"@, t) {
            Some(mid) => {
                if mid.len() >= 2 && mid[0] == '"' && mid.last() == '"' {
                    match unesc(mid.subrange(1, mid.len() as int - 1)) {
                        Some(s) => Some(WireErrorView::Other(s)),
                        None => None,
                    }
                } else {
                    None
                }
            },
            None => None,
        }
    }
}

/// Reads one numeral and returns its value with the rest of the text.
pub open spec fn num_field(t: Seq<char>) -> Option<(nat, Seq<char>)> {
    let ds = leading_digits(t);
    if ds.len() >= 1 {
        Some((digits_val(ds), t.subrange(ds.len() as int, t.len() as int)))
    } else {
        None
    }
}

pub open spec fn sdata_dec(t: Seq<char>) -> Option<StatusData> {
    match strip_pre("{\"spaces\":"@, t) {
        Some(t1) => match num_field(t1) {
            Some((spaces, t2)) => match strip_pre(",\"connections\":"@, t2) {
                Some(t3) => match num_field(t3) {
                    Some((connections, t4)) => match strip_pre(",\"redundant_count\":"@, t4) {
                        Some(t5) => match num_field(t5) {
                            Some((redundant, t6)) => match strip_pre(",\"version\":"@, t6) {
                                Some(t7) => match num_field(t7) {
                                    Some((version, t8)) => {
                                        if t8 == seq!['}'] && spaces <= usize::MAX as nat
                                            && connections <= usize::MAX as nat && redundant
                                            <= u64::MAX as nat && version <= u32::MAX as nat {
                                            Some(
                                                StatusData {
                                                    spaces: spaces as usize,
                                                    connections: connections as usize,
                                                    redundant_count: redundant as u64,
                                                    version: version as u32,
                                                },
                                            )
                                        } else {
                                            None
                                        }
                                    },
                                    None => None,
                                },
                                None => None,
                            },
                            None => None,
                        },
                        None => None,
                    },
                    None => None,
                },
                None => None,
            },
            None => None,
        },
        None => None,
    }
}

pub open spec fn c2l_dec(t: Seq<char>) -> Option<ClientToLib3hView> {
    if strip_tagged("Bootstrap"@, t) is Some {
        Some(ClientToLib3hView::Bootstrap(strip_tagged("Bootstrap"@, t)->Some_0))
    } else if strip_tagged("FetchEntry"@, t) is Some {
        Some(ClientToLib3hView::FetchEntry(strip_tagged("FetchEntry"@, t)->Some_0))
    } else if strip_tagged("JoinSpace"@, t) is Some {
        Some(ClientToLib3hView::JoinSpace(strip_tagged("JoinSpace"@, t)->Some_0))
    } else if strip_tagged("LeaveSpace"@, t) is Some {
        Some(ClientToLib3hView::LeaveSpace(strip_tagged("LeaveSpace"@, t)->Some_0))
    } else if strip_tagged("PublishEntry"@, t) is Some {
        Some(ClientToLib3hView::PublishEntry(strip_tagged("PublishEntry"@, t)->Some_0))
    } else if strip_tagged("QueryEntry"@, t) is Some {
        Some(ClientToLib3hView::QueryEntry(strip_tagged("QueryEntry"@, t)->Some_0))
    } else if strip_tagged("SendDirectMessage"@, t) is Some {
        Some(ClientToLib3hView::SendDirectMessage(strip_tagged("SendDirectMessage"@, t)->Some_0))
    } else {
        None
    }
}

pub open spec fn l2c_dec(t: Seq<char>) -> Option<Lib3hToClientView> {
    if strip_tagged("Connected"@, t) is Some {
        Some(Lib3hToClientView::Connected(strip_tagged("Connected"@, t)->Some_0))
    } else if strip_tagged("HandleDropEntry"@, t) is Some {
        Some(Lib3hToClientView::HandleDropEntry(strip_tagged("HandleDropEntry"@, t)->Some_0))
    } else if strip_tagged("HandleFetchEntry"@, t) is Some {
        Some(Lib3hToClientView::HandleFetchEntry(strip_tagged("HandleFetchEntry"@, t)->Some_0))
    } else if strip_tagged("HandleGetAuthoringEntryList"@, t) is Some {
        Some(
            Lib3hToClientView::HandleGetAuthoringEntryList(
                strip_tagged("HandleGetAuthoringEntryList"@, t)->Some_0,
            ),
        )
    } else if strip_tagged("HandleGetGossipingEntryList"@, t) is Some {
        Some(
            Lib3hToClientView::HandleGetGossipingEntryList(
                strip_tagged("HandleGetGossipingEntryList"@, t)->Some_0,
            ),
        )
    } else if strip_tagged("HandleQueryEntry"@, t) is Some {
        Some(Lib3hToClientView::HandleQueryEntry(strip_tagged("HandleQueryEntry"@, t)->Some_0))
    } else if strip_tagged("HandleSendDirectMessage"@, t) is Some {
        Some(
            Lib3hToClientView::HandleSendDirectMessage(
                strip_tagged("HandleSendDirectMessage"@, t)->Some_0,
            ),
        )
    } else if strip_tagged("HandleStoreEntryAspect"@, t) is Some {
        Some(
            Lib3hToClientView::HandleStoreEntryAspect(
                strip_tagged("HandleStoreEntryAspect"@, t)->Some_0,
            ),
        )
    } else if strip_tagged("Unbound"@, t) is Some {
        Some(Lib3hToClientView::Unbound(strip_tagged("Unbound"@, t)->Some_0))
    } else {
        None
    }
}

pub open spec fn c2lr_dec(t: Seq<char>) -> Option<ClientToLib3hResponseView> {
    if t == quoted("BootstrapSuccess"@) {
        Some(ClientToLib3hResponseView::BootstrapSuccess)
    } else if t == quoted("JoinSpaceResult"@) {
        Some(ClientToLib3hResponseView::JoinSpaceResult)
    } else if t == quoted("LeaveSpaceResult"@) {
        Some(ClientToLib3hResponseView::LeaveSpaceResult)
    } else if strip_tagged("FetchEntryResult"@, t) is Some {
        Some(
            ClientToLib3hResponseView::FetchEntryResult(strip_tagged("FetchEntryResult"@, t)->Some_0),
        )
    } else if strip_tagged("QueryEntryResult"@, t) is Some {
        Some(
            ClientToLib3hResponseView::QueryEntryResult(strip_tagged("QueryEntryResult"@, t)->Some_0),
        )
    } else if strip_tagged("SendDirectMessageResult"@, t) is Some {
        Some(
            ClientToLib3hResponseView::SendDirectMessageResult(
                strip_tagged("SendDirectMessageResult"@, t)->Some_0,
            ),
        )
    } else {
        None
    }
}

pub open spec fn l2cr_dec(t: Seq<char>) -> Option<Lib3hToClientResponseView> {
    if t == quoted("HandleDropEntryResult"@) {
        Some(Lib3hToClientResponseView::HandleDropEntryResult)
    } else if t == quoted("HandleStoreEntryAspectResult"@) {
        Some(Lib3hToClientResponseView::HandleStoreEntryAspectResult)
    } else if strip_tagged("HandleFetchEntryResult"@, t) is Some {
        Some(
            Lib3hToClientResponseView::HandleFetchEntryResult(
                strip_tagged("HandleFetchEntryResult"@, t)->Some_0,
            ),
        )
    } else if strip_tagged("HandleGetAuthoringEntryListResult"@, t) is Some {
        Some(
            Lib3hToClientResponseView::HandleGetAuthoringEntryListResult(
                strip_tagged("HandleGetAuthoringEntryListResult"@, t)->Some_0,
            ),
        )
    } else if strip_tagged("HandleGetGossipingEntryListResult"@, t) is Some {
        Some(
            Lib3hToClientResponseView::HandleGetGossipingEntryListResult(
                strip_tagged("HandleGetGossipingEntryListResult"@, t)->Some_0,
            ),
        )
    } else if strip_tagged("HandleQueryEntryResult"@, t) is Some {
        Some(
            Lib3hToClientResponseView::HandleQueryEntryResult(
                strip_tagged("HandleQueryEntryResult"@, t)->Some_0,
            ),
        )
    } else if strip_tagged("HandleSendDirectMessageResult"@, t) is Some {
        Some(
            Lib3hToClientResponseView::HandleSendDirectMessageResult(
                strip_tagged("HandleSendDirectMessageResult"@, t)->Some_0,
            ),
        )
    } else {
        None
    }
}

/// The envelope a wire text reads back as; `None` on any text that is not
/// the encoding of one.
pub open spec fn decode_spec(t: Seq<char>) -> Option<WireMessageView> {
    if t == quoted("Ping"@) {
        Some(WireMessageView::Ping)
    } else if t == quoted("Pong"@) {
        Some(WireMessageView::Pong)
    } else if t == quoted("Status"@) {
        Some(WireMessageView::Status)
    } else if strip_tagged("Err"@, t) is Some {
        match err_dec(strip_tagged("Err"@, t)->Some_0) {
            Some(e) => Some(WireMessageView::Error(e)),
            None => None,
        }
    } else if strip_tagged("StatusResponse"@, t) is Some {
        match sdata_dec(strip_tagged("StatusResponse"@, t)->Some_0) {
            Some(d) => Some(WireMessageView::StatusResponse(d)),
            None => None,
        }
    } else if strip_tagged("ClientToLib3hResponse"@, t) is Some {
        match c2lr_dec(strip_tagged("ClientToLib3hResponse"@, t)->Some_0) {
            Some(p) => Some(WireMessageView::ClientToLib3hResponse(p)),
            None => None,
        }
    } else if strip_tagged("Lib3hToClientResponse"@, t) is Some {
        match l2cr_dec(strip_tagged("Lib3hToClientResponse"@, t)->Some_0) {
            Some(p) => Some(WireMessageView::Lib3hToClientResponse(p)),
            None => None,
        }
    } else if strip_tagged("ClientToLib3h"@, t) is Some {
        match c2l_dec(strip_tagged("ClientToLib3h"@, t)->Some_0) {
            Some(p) => Some(WireMessageView::ClientToLib3h(p)),
            None => None,
        }
    } else if strip_tagged("Lib3hToClient"@, t) is Some {
        match l2c_dec(strip_tagged("Lib3hToClient"@, t)->Some_0) {
            Some(p) => Some(WireMessageView::Lib3hToClient(p)),
            None => None,
        }
    } else {
        None
    }
}

// ------------------------------------------------------------ completeness
pub proof fn lemma_err_complete(e: WireErrorView)
    ensures
        err_dec(err_enc(e)) == Some(e),
{
    match e {
        WireErrorView::MessageWhileInLimbo => {
        },
        WireErrorView::Other(s) => {
            let mid = quoted(esc(s));
            lemma_tagged_ne_quoted("Other"@, mid, "MessageWhileInLimbo"@);
            lemma_strip_tagged_some("Other"@, mid);
            assert(mid.len() >= 2);
            assert(mid[0] == '"');
            assert(mid.last() == '"');
            assert(mid.subrange(1, mid.len() as int - 1) =~= esc(s));
            lemma_unesc_esc(s);
        },
    }
}

#[verifier::rlimit(100)]
pub proof fn lemma_sdata_complete(d: StatusData)
    ensures
        sdata_dec(sdata_enc(d)) == Some(d),
{
    reveal_strlit("{\"spaces\":");
    reveal_strlit(",\"connections\":");
    reveal_strlit(",\"redundant_count\":");
    reveal_strlit(",\"version\":");
    let p1 = "{\"spaces\":"@;
    let p2 = ",\"connections\":"@;
    let p3 = ",\"redundant_count\":"@;
    let p4 = ",\"version\":"@;
    let d1 = dec_digits(d.spaces as nat);
    let d2 = dec_digits(d.connections as nat);
    let d3 = dec_digits(d.redundant_count as nat);
    let d4 = dec_digits(d.version as nat);
    lemma_dec_digits_wf(d.spaces as nat);
    lemma_digits_val_dec(d.spaces as nat);
    lemma_dec_digits_wf(d.connections as nat);
    lemma_digits_val_dec(d.connections as nat);
    lemma_dec_digits_wf(d.redundant_count as nat);
    lemma_digits_val_dec(d.redundant_count as nat);
    lemma_dec_digits_wf(d.version as nat);
    lemma_digits_val_dec(d.version as nat);
    let close = seq!['}'];
    let t = sdata_enc(d);

    let r1 = d1 + p2 + d2 + p3 + d3 + p4 + d4 + close;
    assert(t =~= p1 + r1);
    lemma_strip_pre_concat(p1, r1);

    let rest1 = p2 + d2 + p3 + d3 + p4 + d4 + close;
    assert(r1 =~= d1 + rest1);
    assert(rest1[0] == ',');
    lemma_leading_digits_concat(d1, rest1);
    assert(r1.subrange(d1.len() as int, r1.len() as int) =~= rest1);

    let r2 = d2 + p3 + d3 + p4 + d4 + close;
    assert(rest1 =~= p2 + r2);
    lemma_strip_pre_concat(p2, r2);

    let rest2 = p3 + d3 + p4 + d4 + close;
    assert(r2 =~= d2 + rest2);
    assert(rest2[0] == ',');
    lemma_leading_digits_concat(d2, rest2);
    assert(r2.subrange(d2.len() as int, r2.len() as int) =~= rest2);

    let r3 = d3 + p4 + d4 + close;
    assert(rest2 =~= p3 + r3);
    lemma_strip_pre_concat(p3, r3);

    let rest3 = p4 + d4 + close;
    assert(r3 =~= d3 + rest3);
    assert(rest3[0] == ',');
    lemma_leading_digits_concat(d3, rest3);
    assert(r3.subrange(d3.len() as int, r3.len() as int) =~= rest3);

    let r4 = d4 + close;
    assert(rest3 =~= p4 + r4);
    lemma_strip_pre_concat(p4, r4);

    assert(r4 =~= d4 + close);
    assert(close[0] == '}');
    lemma_leading_digits_concat(d4, close);
    assert(r4.subrange(d4.len() as int, r4.len() as int) =~= close);
}

pub proof fn lemma_c2l_complete(p: ClientToLib3hView)
    ensures
        c2l_dec(c2l_enc(p)) == Some(p),
{
    reveal_strlit("Bootstrap");
    reveal_strlit("FetchEntry");
    reveal_strlit("JoinSpace");
    reveal_strlit("LeaveSpace");
    reveal_strlit("PublishEntry");
    reveal_strlit("QueryEntry");
    reveal_strlit("SendDirectMessage");
    match p {
        ClientToLib3hView::Bootstrap(b) => {
            lemma_strip_tagged_some("Bootstrap"@, b);
        },
        ClientToLib3hView::FetchEntry(b) => {
            lemma_strip_tagged_diff_at("FetchEntry"@, "Bootstrap"@, b, 0);
            lemma_strip_tagged_some("FetchEntry"@, b);
        },
        ClientToLib3hView::JoinSpace(b) => {
            lemma_strip_tagged_diff_at("JoinSpace"@, "Bootstrap"@, b, 0);
            lemma_strip_tagged_diff_at("JoinSpace"@, "FetchEntry"@, b, 0);
            lemma_strip_tagged_some("JoinSpace"@, b);
        },
        ClientToLib3hView::LeaveSpace(b) => {
            lemma_strip_tagged_diff_at("LeaveSpace"@, "Bootstrap"@, b, 0);
            lemma_strip_tagged_diff_at("LeaveSpace"@, "FetchEntry"@, b, 0);
            lemma_strip_tagged_diff_at("LeaveSpace"@, "JoinSpace"@, b, 0);
            lemma_strip_tagged_some("LeaveSpace"@, b);
        },
        ClientToLib3hView::PublishEntry(b) => {
            lemma_strip_tagged_diff_at("PublishEntry"@, "Bootstrap"@, b, 0);
            lemma_strip_tagged_diff_at("PublishEntry"@, "FetchEntry"@, b, 0);
            lemma_strip_tagged_diff_at("PublishEntry"@, "JoinSpace"@, b, 0);
            lemma_strip_tagged_diff_at("PublishEntry"@, "LeaveSpace"@, b, 0);
            lemma_strip_tagged_some("PublishEntry"@, b);
        },
        ClientToLib3hView::QueryEntry(b) => {
            lemma_strip_tagged_diff_at("QueryEntry"@, "Bootstrap"@, b, 0);
            lemma_strip_tagged_diff_at("QueryEntry"@, "FetchEntry"@, b, 0);
            lemma_strip_tagged_diff_at("QueryEntry"@, "JoinSpace"@, b, 0);
            lemma_strip_tagged_diff_at("QueryEntry"@, "LeaveSpace"@, b, 0);
            lemma_strip_tagged_diff_at("QueryEntry"@, "PublishEntry"@, b, 0);
            lemma_strip_tagged_some("QueryEntry"@, b);
        },
        ClientToLib3hView::SendDirectMessage(b) => {
            lemma_strip_tagged_diff_at("SendDirectMessage"@, "Bootstrap"@, b, 0);
            lemma_strip_tagged_diff_at("SendDirectMessage"@, "FetchEntry"@, b, 0);
            lemma_strip_tagged_diff_at("SendDirectMessage"@, "JoinSpace"@, b, 0);
            lemma_strip_tagged_diff_at("SendDirectMessage"@, "LeaveSpace"@, b, 0);
            lemma_strip_tagged_diff_at("SendDirectMessage"@, "PublishEntry"@, b, 0);
            lemma_strip_tagged_diff_at("SendDirectMessage"@, "QueryEntry"@, b, 0);
            lemma_strip_tagged_some("SendDirectMessage"@, b);
        },
    }
}

pub proof fn lemma_l2c_complete(p: Lib3hToClientView)
    ensures
        l2c_dec(l2c_enc(p)) == Some(p),
{
    reveal_strlit("Connected");
    reveal_strlit("HandleDropEntry");
    reveal_strlit("HandleFetchEntry");
    reveal_strlit("HandleGetAuthoringEntryList");
    reveal_strlit("HandleGetGossipingEntryList");
    reveal_strlit("HandleQueryEntry");
    reveal_strlit("HandleSendDirectMessage");
    reveal_strlit("HandleStoreEntryAspect");
    reveal_strlit("Unbound");
    match p {
        Lib3hToClientView::Connected(b) => {
            lemma_strip_tagged_some("Connected"@, b);
        },
        Lib3hToClientView::HandleDropEntry(b) => {
            lemma_strip_tagged_diff_at("HandleDropEntry"@, "Connected"@, b, 0);
            lemma_strip_tagged_some("HandleDropEntry"@, b);
        },
        Lib3hToClientView::HandleFetchEntry(b) => {
            lemma_strip_tagged_diff_at("HandleFetchEntry"@, "Connected"@, b, 0);
            lemma_strip_tagged_diff_at("HandleFetchEntry"@, "HandleDropEntry"@, b, 6);
            lemma_strip_tagged_some("HandleFetchEntry"@, b);
        },
        Lib3hToClientView::HandleGetAuthoringEntryList(b) => {
            lemma_strip_tagged_diff_at("HandleGetAuthoringEntryList"@, "Connected"@, b, 0);
            lemma_strip_tagged_diff_at("HandleGetAuthoringEntryList"@, "HandleDropEntry"@, b, 6);
            lemma_strip_tagged_diff_at("HandleGetAuthoringEntryList"@, "HandleFetchEntry"@, b, 6);
            lemma_strip_tagged_some("HandleGetAuthoringEntryList"@, b);
        },
        Lib3hToClientView::HandleGetGossipingEntryList(b) => {
            lemma_strip_tagged_diff_at("HandleGetGossipingEntryList"@, "Connected"@, b, 0);
            lemma_strip_tagged_diff_at("HandleGetGossipingEntryList"@, "HandleDropEntry"@, b, 6);
            lemma_strip_tagged_diff_at("HandleGetGossipingEntryList"@, "HandleFetchEntry"@, b, 6);
            lemma_strip_tagged_diff_at(
                "HandleGetGossipingEntryList"@,
                "HandleGetAuthoringEntryList"@,
                b,
                9,
            );
            lemma_strip_tagged_some("HandleGetGossipingEntryList"@, b);
        },
        Lib3hToClientView::HandleQueryEntry(b) => {
            lemma_strip_tagged_diff_at("HandleQueryEntry"@, "Connected"@, b, 0);
            lemma_strip_tagged_diff_at("HandleQueryEntry"@, "HandleDropEntry"@, b, 6);
            lemma_strip_tagged_diff_at("HandleQueryEntry"@, "HandleFetchEntry"@, b, 6);
            lemma_strip_tagged_diff_at("HandleQueryEntry"@, "HandleGetAuthoringEntryList"@, b, 6);
            lemma_strip_tagged_diff_at("HandleQueryEntry"@, "HandleGetGossipingEntryList"@, b, 6);
            lemma_strip_tagged_some("HandleQueryEntry"@, b);
        },
        Lib3hToClientView::HandleSendDirectMessage(b) => {
            lemma_strip_tagged_diff_at("HandleSendDirectMessage"@, "Connected"@, b, 0);
            lemma_strip_tagged_diff_at("HandleSendDirectMessage"@, "HandleDropEntry"@, b, 6);
            lemma_strip_tagged_diff_at("HandleSendDirectMessage"@, "HandleFetchEntry"@, b, 6);
            lemma_strip_tagged_diff_at(
                "HandleSendDirectMessage"@,
                "HandleGetAuthoringEntryList"@,
                b,
                6,
            );
            lemma_strip_tagged_diff_at(
                "HandleSendDirectMessage"@,
                "HandleGetGossipingEntryList"@,
                b,
                6,
            );
            lemma_strip_tagged_diff_at("HandleSendDirectMessage"@, "HandleQueryEntry"@, b, 6);
            lemma_strip_tagged_some("HandleSendDirectMessage"@, b);
        },
        Lib3hToClientView::HandleStoreEntryAspect(b) => {
            lemma_strip_tagged_diff_at("HandleStoreEntryAspect"@, "Connected"@, b, 0);
            lemma_strip_tagged_diff_at("HandleStoreEntryAspect"@, "HandleDropEntry"@, b, 6);
            lemma_strip_tagged_diff_at("HandleStoreEntryAspect"@, "HandleFetchEntry"@, b, 6);
            lemma_strip_tagged_diff_at(
                "HandleStoreEntryAspect"@,
                "HandleGetAuthoringEntryList"@,
                b,
                6,
            );
            lemma_strip_tagged_diff_at(
                "HandleStoreEntryAspect"@,
                "HandleGetGossipingEntryList"@,
                b,
                6,
            );
            lemma_strip_tagged_diff_at("HandleStoreEntryAspect"@, "HandleQueryEntry"@, b, 6);
            lemma_strip_tagged_diff_at("HandleStoreEntryAspect"@, "HandleSendDirectMessage"@, b, 7);
            lemma_strip_tagged_some("HandleStoreEntryAspect"@, b);
        },
        Lib3hToClientView::Unbound(b) => {
            lemma_strip_tagged_diff_at("Unbound"@, "Connected"@, b, 0);
            lemma_strip_tagged_diff_at("Unbound"@, "HandleDropEntry"@, b, 0);
            lemma_strip_tagged_diff_at("Unbound"@, "HandleFetchEntry"@, b, 0);
            lemma_strip_tagged_diff_at("Unbound"@, "HandleGetAuthoringEntryList"@, b, 0);
            lemma_strip_tagged_diff_at("Unbound"@, "HandleGetGossipingEntryList"@, b, 0);
            lemma_strip_tagged_diff_at("Unbound"@, "HandleQueryEntry"@, b, 0);
            lemma_strip_tagged_diff_at("Unbound"@, "HandleSendDirectMessage"@, b, 0);
            lemma_strip_tagged_diff_at("Unbound"@, "HandleStoreEntryAspect"@, b, 0);
            lemma_strip_tagged_some("Unbound"@, b);
        },
    }
}

pub proof fn lemma_c2lr_complete(p: ClientToLib3hResponseView)
    ensures
        c2lr_dec(c2lr_enc(p)) == Some(p),
{
    reveal_strlit("BootstrapSuccess");
    reveal_strlit("JoinSpaceResult");
    reveal_strlit("LeaveSpaceResult");
    reveal_strlit("FetchEntryResult");
    reveal_strlit("QueryEntryResult");
    reveal_strlit("SendDirectMessageResult");
    match p {
        ClientToLib3hResponseView::BootstrapSuccess => {
        },
        ClientToLib3hResponseView::JoinSpaceResult => {
            lemma_quoted_ne("JoinSpaceResult"@, "BootstrapSuccess"@);
        },
        ClientToLib3hResponseView::LeaveSpaceResult => {
            assert("LeaveSpaceResult"@[0] != "BootstrapSuccess"@[0]);
            lemma_quoted_ne("LeaveSpaceResult"@, "BootstrapSuccess"@);
            lemma_quoted_ne("LeaveSpaceResult"@, "JoinSpaceResult"@);
        },
        ClientToLib3hResponseView::FetchEntryResult(b) => {
            lemma_tagged_ne_quoted("FetchEntryResult"@, b, "BootstrapSuccess"@);
            lemma_tagged_ne_quoted("FetchEntryResult"@, b, "JoinSpaceResult"@);
            lemma_tagged_ne_quoted("FetchEntryResult"@, b, "LeaveSpaceResult"@);
            lemma_strip_tagged_some("FetchEntryResult"@, b);
        },
        ClientToLib3hResponseView::QueryEntryResult(b) => {
            lemma_tagged_ne_quoted("QueryEntryResult"@, b, "BootstrapSuccess"@);
            lemma_tagged_ne_quoted("QueryEntryResult"@, b, "JoinSpaceResult"@);
            lemma_tagged_ne_quoted("QueryEntryResult"@, b, "LeaveSpaceResult"@);
            lemma_strip_tagged_diff_at("QueryEntryResult"@, "FetchEntryResult"@, b, 0);
            lemma_strip_tagged_some("QueryEntryResult"@, b);
        },
        ClientToLib3hResponseView::SendDirectMessageResult(b) => {
            lemma_tagged_ne_quoted("SendDirectMessageResult"@, b, "BootstrapSuccess"@);
            lemma_tagged_ne_quoted("SendDirectMessageResult"@, b, "JoinSpaceResult"@);
            lemma_tagged_ne_quoted("SendDirectMessageResult"@, b, "LeaveSpaceResult"@);
            lemma_strip_tagged_diff_at("SendDirectMessageResult"@, "FetchEntryResult"@, b, 0);
            lemma_strip_tagged_diff_at("SendDirectMessageResult"@, "QueryEntryResult"@, b, 0);
            lemma_strip_tagged_some("SendDirectMessageResult"@, b);
        },
    }
}

pub proof fn lemma_l2cr_complete(p: Lib3hToClientResponseView)
    ensures
        l2cr_dec(l2cr_enc(p)) == Some(p),
{
    reveal_strlit("HandleDropEntryResult");
    reveal_strlit("HandleStoreEntryAspectResult");
    reveal_strlit("HandleFetchEntryResult");
    reveal_strlit("HandleGetAuthoringEntryListResult");
    reveal_strlit("HandleGetGossipingEntryListResult");
    reveal_strlit("HandleQueryEntryResult");
    reveal_strlit("HandleSendDirectMessageResult");
    match p {
        Lib3hToClientResponseView::HandleDropEntryResult => {
        },
        Lib3hToClientResponseView::HandleStoreEntryAspectResult => {
            lemma_quoted_ne("HandleStoreEntryAspectResult"@, "HandleDropEntryResult"@);
        },
        Lib3hToClientResponseView::HandleFetchEntryResult(b) => {
            lemma_tagged_ne_quoted("HandleFetchEntryResult"@, b, "HandleDropEntryResult"@);
            lemma_tagged_ne_quoted("HandleFetchEntryResult"@, b, "HandleStoreEntryAspectResult"@);
            lemma_strip_tagged_some("HandleFetchEntryResult"@, b);
        },
        Lib3hToClientResponseView::HandleGetAuthoringEntryListResult(b) => {
            lemma_tagged_ne_quoted(
                "HandleGetAuthoringEntryListResult"@,
                b,
                "HandleDropEntryResult"@,
            );
            lemma_tagged_ne_quoted(
                "HandleGetAuthoringEntryListResult"@,
                b,
                "HandleStoreEntryAspectResult"@,
            );
            lemma_strip_tagged_diff_at(
                "HandleGetAuthoringEntryListResult"@,
                "HandleFetchEntryResult"@,
                b,
                6,
            );
            lemma_strip_tagged_some("HandleGetAuthoringEntryListResult"@, b);
        },
        Lib3hToClientResponseView::HandleGetGossipingEntryListResult(b) => {
            lemma_tagged_ne_quoted(
                "HandleGetGossipingEntryListResult"@,
                b,
                "HandleDropEntryResult"@,
            );
            lemma_tagged_ne_quoted(
                "HandleGetGossipingEntryListResult"@,
                b,
                "HandleStoreEntryAspectResult"@,
            );
            lemma_strip_tagged_diff_at(
                "HandleGetGossipingEntryListResult"@,
                "HandleFetchEntryResult"@,
                b,
                6,
            );
            lemma_strip_tagged_diff_at(
                "HandleGetGossipingEntryListResult"@,
                "HandleGetAuthoringEntryListResult"@,
                b,
                9,
            );
            lemma_strip_tagged_some("HandleGetGossipingEntryListResult"@, b);
        },
        Lib3hToClientResponseView::HandleQueryEntryResult(b) => {
            lemma_tagged_ne_quoted("HandleQueryEntryResult"@, b, "HandleDropEntryResult"@);
            lemma_tagged_ne_quoted("HandleQueryEntryResult"@, b, "HandleStoreEntryAspectResult"@);
            lemma_strip_tagged_diff_at("HandleQueryEntryResult"@, "HandleFetchEntryResult"@, b, 6);
            lemma_strip_tagged_diff_at(
                "HandleQueryEntryResult"@,
                "HandleGetAuthoringEntryListResult"@,
                b,
                6,
            );
            lemma_strip_tagged_diff_at(
                "HandleQueryEntryResult"@,
                "HandleGetGossipingEntryListResult"@,
                b,
                6,
            );
            lemma_strip_tagged_some("HandleQueryEntryResult"@, b);
        },
        Lib3hToClientResponseView::HandleSendDirectMessageResult(b) => {
            lemma_tagged_ne_quoted("HandleSendDirectMessageResult"@, b, "HandleDropEntryResult"@);
            lemma_tagged_ne_quoted(
                "HandleSendDirectMessageResult"@,
                b,
                "HandleStoreEntryAspectResult"@,
            );
            lemma_strip_tagged_diff_at(
                "HandleSendDirectMessageResult"@,
                "HandleFetchEntryResult"@,
                b,
                6,
            );
            lemma_strip_tagged_diff_at(
                "HandleSendDirectMessageResult"@,
                "HandleGetAuthoringEntryListResult"@,
                b,
                6,
            );
            lemma_strip_tagged_diff_at(
                "HandleSendDirectMessageResult"@,
                "HandleGetGossipingEntryListResult"@,
                b,
                6,
            );
            lemma_strip_tagged_diff_at(
                "HandleSendDirectMessageResult"@,
                "HandleQueryEntryResult"@,
                b,
                6,
            );
            lemma_strip_tagged_some("HandleSendDirectMessageResult"@, b);
        },
    }
}

/// Round trip: decoding the encoding of any constructible envelope yields
/// exactly that envelope.
pub proof fn lemma_round_trip(m: WireMessageView)
    ensures
        decode_spec(encode_spec(m)) == Some(m),
{
    reveal_strlit("Ping");
    reveal_strlit("Pong");
    reveal_strlit("Status");
    reveal_strlit("Err");
    reveal_strlit("StatusResponse");
    reveal_strlit("ClientToLib3hResponse");
    reveal_strlit("Lib3hToClientResponse");
    reveal_strlit("ClientToLib3h");
    reveal_strlit("Lib3hToClient");
    match m {
        WireMessageView::Ping => {
        },
        WireMessageView::Pong => {
            assert("Pong"@[1] != "Ping"@[1]);
            lemma_quoted_ne("Pong"@, "Ping"@);
        },
        WireMessageView::Status => {
            lemma_quoted_ne("Status"@, "Ping"@);
            lemma_quoted_ne("Status"@, "Pong"@);
        },
        WireMessageView::Error(e) => {
            let mid = err_enc(e);
            lemma_tagged_ne_quoted("Err"@, mid, "Ping"@);
            lemma_tagged_ne_quoted("Err"@, mid, "Pong"@);
            lemma_tagged_ne_quoted("Err"@, mid, "Status"@);
            lemma_strip_tagged_some("Err"@, mid);
            lemma_err_complete(e);
        },
        WireMessageView::StatusResponse(d) => {
            let mid = sdata_enc(d);
            lemma_tagged_ne_quoted("StatusResponse"@, mid, "Ping"@);
            lemma_tagged_ne_quoted("StatusResponse"@, mid, "Pong"@);
            lemma_tagged_ne_quoted("StatusResponse"@, mid, "Status"@);
            lemma_strip_tagged_diff_at("StatusResponse"@, "Err"@, mid, 0);
            lemma_strip_tagged_some("StatusResponse"@, mid);
            lemma_sdata_complete(d);
        },
        WireMessageView::ClientToLib3hResponse(p) => {
            let mid = c2lr_enc(p);
            lemma_tagged_ne_quoted("ClientToLib3hResponse"@, mid, "Ping"@);
            lemma_tagged_ne_quoted("ClientToLib3hResponse"@, mid, "Pong"@);
            lemma_tagged_ne_quoted("ClientToLib3hResponse"@, mid, "Status"@);
            lemma_strip_tagged_diff_at("ClientToLib3hResponse"@, "Err"@, mid, 0);
            lemma_strip_tagged_diff_at("ClientToLib3hResponse"@, "StatusResponse"@, mid, 0);
            lemma_strip_tagged_some("ClientToLib3hResponse"@, mid);
            lemma_c2lr_complete(p);
        },
        WireMessageView::Lib3hToClientResponse(p) => {
            let mid = l2cr_enc(p);
            lemma_tagged_ne_quoted("Lib3hToClientResponse"@, mid, "Ping"@);
            lemma_tagged_ne_quoted("Lib3hToClientResponse"@, mid, "Pong"@);
            lemma_tagged_ne_quoted("Lib3hToClientResponse"@, mid, "Status"@);
            lemma_strip_tagged_diff_at("Lib3hToClientResponse"@, "Err"@, mid, 0);
            lemma_strip_tagged_diff_at("Lib3hToClientResponse"@, "StatusResponse"@, mid, 0);
            lemma_strip_tagged_diff_at("Lib3hToClientResponse"@, "ClientToLib3hResponse"@, mid, 0);
            lemma_strip_tagged_some("Lib3hToClientResponse"@, mid);
            lemma_l2cr_complete(p);
        },
        WireMessageView::ClientToLib3h(p) => {
            let mid = c2l_enc(p);
            lemma_tagged_ne_quoted("ClientToLib3h"@, mid, "Ping"@);
            lemma_tagged_ne_quoted("ClientToLib3h"@, mid, "Pong"@);
            lemma_tagged_ne_quoted("ClientToLib3h"@, mid, "Status"@);
            lemma_strip_tagged_diff_at("ClientToLib3h"@, "Err"@, mid, 0);
            lemma_strip_tagged_diff_at("ClientToLib3h"@, "StatusResponse"@, mid, 0);
            lemma_strip_tagged_longer("ClientToLib3h"@, "ClientToLib3hResponse"@, mid);
            lemma_strip_tagged_diff_at("ClientToLib3h"@, "Lib3hToClientResponse"@, mid, 0);
            lemma_strip_tagged_some("ClientToLib3h"@, mid);
            lemma_c2l_complete(p);
        },
        WireMessageView::Lib3hToClient(p) => {
            let mid = l2c_enc(p);
            lemma_tagged_ne_quoted("Lib3hToClient"@, mid, "Ping"@);
            lemma_tagged_ne_quoted("Lib3hToClient"@, mid, "Pong"@);
            lemma_tagged_ne_quoted("Lib3hToClient"@, mid, "Status"@);
            lemma_strip_tagged_diff_at("Lib3hToClient"@, "Err"@, mid, 0);
            lemma_strip_tagged_diff_at("Lib3hToClient"@, "StatusResponse"@, mid, 0);
            lemma_strip_tagged_diff_at("Lib3hToClient"@, "ClientToLib3hResponse"@, mid, 0);
            lemma_strip_tagged_longer("Lib3hToClient"@, "Lib3hToClientResponse"@, mid);
            lemma_strip_tagged_diff_at("Lib3hToClient"@, "ClientToLib3h"@, mid, 0);
            lemma_strip_tagged_some("Lib3hToClient"@, mid);
            lemma_l2c_complete(p);
        },
    }
}

/// Round trip stated on byte buffers: the encoded bytes are valid UTF-8 and
/// decode back to the envelope's wire text, which reads back as the
/// envelope.
pub proof fn lemma_round_trip_bytes(m: WireMessageView)
    ensures
        vstd::utf8::valid_utf8(vstd::utf8::encode_utf8(encode_spec(m))),
        vstd::utf8::decode_utf8(vstd::utf8::encode_utf8(encode_spec(m))) == encode_spec(m),
        decode_spec(vstd::utf8::decode_utf8(vstd::utf8::encode_utf8(encode_spec(m)))) == Some(m),
{
    vstd::utf8::encode_utf8_valid_utf8(encode_spec(m));
    vstd::utf8::encode_utf8_decode_utf8(encode_spec(m));
    lemma_round_trip(m);
}

} // verus!
