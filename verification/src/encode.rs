//! The executable encoder: builds exactly the wire text that `encode_spec`
//! describes, then hands it out as UTF-8 bytes.
use vstd::prelude::*;
use crate::codec::c2l_enc;
use crate::codec::c2lr_enc;
use crate::codec::encode_spec;
use crate::codec::err_enc;
use crate::codec::l2c_enc;
use crate::codec::l2cr_enc;
use crate::codec::sdata_enc;
use crate::digits::push_dec_u64;
use crate::ext::push_char;
use crate::jstr::esc;
use crate::jstr::push_escaped;
use crate::msg::ClientToLib3hResponse;
use crate::msg::ClientToLib3h;
use crate::msg::Lib3hToClientResponse;
use crate::msg::Lib3hToClient;
use crate::msg::StatusData;
use crate::msg::WireError;
use crate::msg::WireMessage;
use crate::text::header;
use crate::text::quoted;
use crate::text::tagged;
use vstd::string::StrSliceExecFns;
use vstd::string::StringExecFns;
use vstd::string::StringSliceAdditionalSpecFns;
use vstd::utf8::encode_utf8;

verus! {

/// Appends `{"tag":`.
fn push_header(out: &mut String, tag: &str)
    ensures
        final(out)@ == old(out)@ + header(tag@),
{
    push_char(out, '{');
    push_char(out, '"');
    out.append(tag);
    push_char(out, '"');
    push_char(out, ':');
    assert(out@ =~= old(out)@ + header(tag@));
}

/// Appends `"tag"`.
fn push_quoted(out: &mut String, tag: &str)
    ensures
        final(out)@ == old(out)@ + quoted(tag@),
{
    push_char(out, '"');
    out.append(tag);
    push_char(out, '"');
    assert(out@ =~= old(out)@ + quoted(tag@));
}

/// Appends `{"tag":body}` with the body spliced verbatim.
fn push_tagged_body(out: &mut String, tag: &str, body: &String)
    ensures
        final(out)@ == old(out)@ + tagged(tag@, body@),
{
    push_header(out, tag);
    out.append(body.as_str());
    push_char(out, '}');
    assert(out@ =~= old(out)@ + tagged(tag@, body@));
}

fn push_err(out: &mut String, e: &WireError)
    ensures
        final(out)@ == old(out)@ + err_enc(e@),
{
    match e {
        WireError::MessageWhileInLimbo => {
            push_quoted(out, "MessageWhileInLimbo");
        },
        WireError::Other(s) => {
            push_header(out, "Other");
            push_char(out, '"');
            push_escaped(out, s.as_str());
            push_char(out, '"');
            push_char(out, '}');
            assert(out@ =~= old(out)@ + tagged("Other"@, quoted(esc(s@))));
        },
    }
}

fn push_sdata(out: &mut String, d: &StatusData)
    ensures
        final(out)@ == old(out)@ + sdata_enc(*d),
{
    out.append("{\"spaces\":");
    push_dec_u64(out, d.spaces as u64);
    out.append(",\"connections\":");
    push_dec_u64(out, d.connections as u64);
    out.append(",\"redundant_count\":");
    push_dec_u64(out, d.redundant_count);
    out.append(",\"version\":");
    push_dec_u64(out, d.version as u64);
    push_char(out, '}');
    assert(out@ =~= old(out)@ + sdata_enc(*d));
}

fn push_c2l(out: &mut String, p: &ClientToLib3h)
    ensures
        final(out)@ == old(out)@ + c2l_enc(p@),
{
    match p {
        ClientToLib3h::Bootstrap(b) => push_tagged_body(out, "Bootstrap", b),
        ClientToLib3h::FetchEntry(b) => push_tagged_body(out, "FetchEntry", b),
        ClientToLib3h::JoinSpace(b) => push_tagged_body(out, "JoinSpace", b),
        ClientToLib3h::LeaveSpace(b) => push_tagged_body(out, "LeaveSpace", b),
        ClientToLib3h::PublishEntry(b) => push_tagged_body(out, "PublishEntry", b),
        ClientToLib3h::QueryEntry(b) => push_tagged_body(out, "QueryEntry", b),
        ClientToLib3h::SendDirectMessage(b) => push_tagged_body(out, "SendDirectMessage", b),
    }
}

fn push_l2c(out: &mut String, p: &Lib3hToClient)
    ensures
        final(out)@ == old(out)@ + l2c_enc(p@),
{
    match p {
        Lib3hToClient::Connected(b) => push_tagged_body(out, "Connected", b),
        Lib3hToClient::HandleDropEntry(b) => push_tagged_body(out, "HandleDropEntry", b),
        Lib3hToClient::HandleFetchEntry(b) => push_tagged_body(out, "HandleFetchEntry", b),
        Lib3hToClient::HandleGetAuthoringEntryList(b) => push_tagged_body(
            out,
            "HandleGetAuthoringEntryList",
            b,
        ),
        Lib3hToClient::HandleGetGossipingEntryList(b) => push_tagged_body(
            out,
            "HandleGetGossipingEntryList",
            b,
        ),
        Lib3hToClient::HandleQueryEntry(b) => push_tagged_body(out, "HandleQueryEntry", b),
        Lib3hToClient::HandleSendDirectMessage(b) => push_tagged_body(
            out,
            "HandleSendDirectMessage",
            b,
        ),
        Lib3hToClient::HandleStoreEntryAspect(b) => push_tagged_body(
            out,
            "HandleStoreEntryAspect",
            b,
        ),
        Lib3hToClient::Unbound(b) => push_tagged_body(out, "Unbound", b),
    }
}

fn push_c2lr(out: &mut String, p: &ClientToLib3hResponse)
    ensures
        final(out)@ == old(out)@ + c2lr_enc(p@),
{
    match p {
        ClientToLib3hResponse::BootstrapSuccess => push_quoted(out, "BootstrapSuccess"),
        ClientToLib3hResponse::JoinSpaceResult => push_quoted(out, "JoinSpaceResult"),
        ClientToLib3hResponse::LeaveSpaceResult => push_quoted(out, "LeaveSpaceResult"),
        ClientToLib3hResponse::FetchEntryResult(b) => push_tagged_body(out, "FetchEntryResult", b),
        ClientToLib3hResponse::QueryEntryResult(b) => push_tagged_body(out, "QueryEntryResult", b),
        ClientToLib3hResponse::SendDirectMessageResult(b) => push_tagged_body(
            out,
            "SendDirectMessageResult",
            b,
        ),
    }
}

fn push_l2cr(out: &mut String, p: &Lib3hToClientResponse)
    ensures
        final(out)@ == old(out)@ + l2cr_enc(p@),
{
    match p {
        Lib3hToClientResponse::HandleDropEntryResult => push_quoted(out, "HandleDropEntryResult"),
        Lib3hToClientResponse::HandleStoreEntryAspectResult => push_quoted(
            out,
            "HandleStoreEntryAspectResult",
        ),
        Lib3hToClientResponse::HandleFetchEntryResult(b) => push_tagged_body(
            out,
            "HandleFetchEntryResult",
            b,
        ),
        Lib3hToClientResponse::HandleGetAuthoringEntryListResult(b) => push_tagged_body(
            out,
            "HandleGetAuthoringEntryListResult",
            b,
        ),
        Lib3hToClientResponse::HandleGetGossipingEntryListResult(b) => push_tagged_body(
            out,
            "HandleGetGossipingEntryListResult",
            b,
        ),
        Lib3hToClientResponse::HandleQueryEntryResult(b) => push_tagged_body(
            out,
            "HandleQueryEntryResult",
            b,
        ),
        Lib3hToClientResponse::HandleSendDirectMessageResult(b) => push_tagged_body(
            out,
            "HandleSendDirectMessageResult",
            b,
        ),
    }
}

impl WireMessage {
    /// The wire text of this envelope. Succeeds on every constructible
    /// envelope value.
    pub fn encode_str(&self) -> (r: String)
        ensures
            r@ == encode_spec(self@),
    {
        let mut out = String::new();
        match self {
            WireMessage::Ping => push_quoted(&mut out, "Ping"),
            WireMessage::Pong => push_quoted(&mut out, "Pong"),
            WireMessage::Status => push_quoted(&mut out, "Status"),
            WireMessage::Error(e) => {
                push_header(&mut out, "Err");
                push_err(&mut out, e);
                push_char(&mut out, '}');
                assert(out@ =~= tagged("Err"@, err_enc(e@)));
            },
            WireMessage::StatusResponse(d) => {
                push_header(&mut out, "StatusResponse");
                push_sdata(&mut out, d);
                push_char(&mut out, '}');
                assert(out@ =~= tagged("StatusResponse"@, sdata_enc(*d)));
            },
            WireMessage::ClientToLib3hResponse(p) => {
                push_header(&mut out, "ClientToLib3hResponse");
                push_c2lr(&mut out, p);
                push_char(&mut out, '}');
                assert(out@ =~= tagged("ClientToLib3hResponse"@, c2lr_enc(p@)));
            },
            WireMessage::Lib3hToClientResponse(p) => {
                push_header(&mut out, "Lib3hToClientResponse");
                push_l2cr(&mut out, p);
                push_char(&mut out, '}');
                assert(out@ =~= tagged("Lib3hToClientResponse"@, l2cr_enc(p@)));
            },
            WireMessage::ClientToLib3h(p) => {
                push_header(&mut out, "ClientToLib3h");
                push_c2l(&mut out, p);
                push_char(&mut out, '}');
                assert(out@ =~= tagged("ClientToLib3h"@, c2l_enc(p@)));
            },
            WireMessage::Lib3hToClient(p) => {
                push_header(&mut out, "Lib3hToClient");
                push_l2c(&mut out, p);
                push_char(&mut out, '}');
                assert(out@ =~= tagged("Lib3hToClient"@, l2c_enc(p@)));
            },
        }
        proof {
            assert(Seq::<char>::empty() + encode_spec(self@) =~= encode_spec(self@));
        }
        out
    }

    /// The wire bytes of this envelope: its wire text as UTF-8.
    pub fn encode(&self) -> (r: Vec<u8>)
        ensures
            r@ == encode_utf8(encode_spec(self@)),
    {
        let s = self.encode_str();
        s.as_str().as_bytes_vec()
    }
}

} // verus!
