//! The executable decoder: reads a byte buffer back into an envelope,
//! returning exactly what `decode_spec` says of the buffer's text, and a
//! typed error — never a panic — on everything else.
use vstd::prelude::*;
use crate::codec::c2l_dec;
use crate::codec::c2lr_dec;
use crate::codec::decode_spec;
use crate::codec::err_dec;
use crate::codec::l2c_dec;
use crate::codec::l2cr_dec;
use crate::codec::num_field;
use crate::codec::sdata_dec;
use crate::digits::leading_digits;
use crate::digits::scan_number;
use crate::ext::lossy_decode;
use crate::ext::push_char;
use crate::ext::utf8_lossy;
use crate::jstr::unescape_range;
use crate::msg::ClientToLib3hResponse;
use crate::msg::ClientToLib3h;
use crate::msg::Lib3hToClientResponse;
use crate::msg::Lib3hToClient;
use crate::msg::StatusData;
use crate::msg::WireError;
use crate::msg::WireErrorView;
use crate::msg::WireMessage;
use crate::text::header;
use crate::text::quoted;
use crate::text::strip_pre;
use crate::text::strip_tagged;
use vstd::string::StrSliceExecFns;
use vstd::string::StringExecFns;
use vstd::utf8::decode_utf8;
use vstd::utf8::valid_utf8;

verus! {

/// The characters of a text, one by one.
fn chars_vec(s: &str) -> (r: Vec<char>)
    ensures
        r@ == s@,
{
    let n: usize = s.unicode_len();
    let mut r: Vec<char> = Vec::new();
    let mut i: usize = 0;
    while i < n
        invariant
            n == s@.len(),
            i <= n,
            r@ == s@.subrange(0, i as int),
        decreases n - i,
    {
        let c = s.get_char(i);
        r.push(c);
        proof {
            assert(r@ =~= s@.subrange(0, i as int + 1));
        }
        i = i + 1;
    }
    proof {
        assert(s@.subrange(0, n as int) =~= s@);
    }
    r
}

/// A copy of `t[lo..hi]`.
fn sub_chars(t: &Vec<char>, lo: usize, hi: usize) -> (r: Vec<char>)
    requires
        lo <= hi <= t.len(),
    ensures
        r@ == t@.subrange(lo as int, hi as int),
{
    let mut r: Vec<char> = Vec::new();
    let mut k: usize = lo;
    while k < hi
        invariant
            lo <= k <= hi <= t.len(),
            r@ == t@.subrange(lo as int, k as int),
        decreases hi - k,
    {
        r.push(t[k]);
        proof {
            assert(r@ =~= t@.subrange(lo as int, k as int + 1));
        }
        k = k + 1;
    }
    r
}

/// `t[lo..hi]` as a text.
fn string_range(t: &Vec<char>, lo: usize, hi: usize) -> (r: String)
    requires
        lo <= hi <= t.len(),
    ensures
        r@ == t@.subrange(lo as int, hi as int),
{
    let mut r = String::new();
    let mut k: usize = lo;
    while k < hi
        invariant
            lo <= k <= hi <= t.len(),
            r@ == t@.subrange(lo as int, k as int),
        decreases hi - k,
    {
        push_char(&mut r, t[k]);
        proof {
            assert(r@ =~= t@.subrange(lo as int, k as int + 1));
        }
        k = k + 1;
    }
    r
}

/// Whether the whole text is exactly `"tag"`.
fn eq_quoted(t: &Vec<char>, tag: &str) -> (r: bool)
    ensures
        r == (t@ == quoted(tag@)),
{
    let m: usize = tag.unicode_len();
    if t.len() < 2 || t.len() - 2 != m {
        proof {
            assert(quoted(tag@).len() == m + 2);
        }
        return false;
    }
    if t[0] != '"' {
        proof {
            assert(quoted(tag@)[0] == '"');
        }
        return false;
    }
    if t[m + 1] != '"' {
        proof {
            assert(quoted(tag@)[m as int + 1] == '"');
        }
        return false;
    }
    let mut j: usize = 0;
    while j < m
        invariant
            m == tag@.len(),
            t@.len() == m + 2,
            j <= m,
            forall|k: int| 0 <= k < j ==> t@[k + 1] == tag@[k],
        decreases m - j,
    {
        if t[1 + j] != tag.get_char(j) {
            proof {
                assert(quoted(tag@)[j as int + 1] == tag@[j as int]);
            }
            return false;
        }
        j = j + 1;
    }
    proof {
        assert(t@ =~= quoted(tag@));
    }
    true
}

/// Opens `{"tag":` and closes `}`, giving the middle range; `None` exactly
/// where `strip_tagged` gives `None`.
fn strip_tag_range(t: &Vec<char>, tag: &str) -> (r: Option<(usize, usize)>)
    ensures
        match r {
            Some(p) => {
                &&& p.0 <= p.1 <= t.len()
                &&& strip_tagged(tag@, t@) == Some(t@.subrange(p.0 as int, p.1 as int))
            },
            None => strip_tagged(tag@, t@) == None::<Seq<char>>,
        },
{
    let m: usize = tag.unicode_len();
    if t.len() < 5 || t.len() - 5 < m {
        return None;
    }
    if t[0] != '{' {
        proof {
            assert(header(tag@)[0] == '{');
        }
        return None;
    }
    if t[1] != '"' {
        proof {
            assert(header(tag@)[1] == '"');
        }
        return None;
    }
    if t[m + 2] != '"' {
        proof {
            assert(header(tag@)[m as int + 2] == '"');
        }
        return None;
    }
    if t[m + 3] != ':' {
        proof {
            assert(header(tag@)[m as int + 3] == ':');
        }
        return None;
    }
    if t[t.len() - 1] != '}' {
        return None;
    }
    let mut j: usize = 0;
    while j < m
        invariant
            m == tag@.len(),
            t@.len() >= m + 5,
            t@.len() <= usize::MAX,
            j <= m,
            forall|k: int| 0 <= k < j ==> t@[k + 2] == tag@[k],
        decreases m - j,
    {
        if t[2 + j] != tag.get_char(j) {
            proof {
                assert(header(tag@)[j as int + 2] == tag@[j as int]);
            }
            return None;
        }
        j = j + 1;
    }
    proof {
        assert(t@.subrange(0, m as int + 4) =~= header(tag@));
        assert(t@.last() == '}');
    }
    Some((m + 4, t.len() - 1))
}

fn parse_err(t: &Vec<char>) -> (r: Option<WireError>)
    ensures
        match r {
            Some(e) => err_dec(t@) == Some(e@),
            None => err_dec(t@) == None::<WireErrorView>,
        },
{
    if eq_quoted(t, "MessageWhileInLimbo") {
        return Some(WireError::MessageWhileInLimbo);
    }
    if let Some((lo, hi)) = strip_tag_range(t, "Other") {
        let ghost mid = t@.subrange(lo as int, hi as int);
        if hi - lo < 2 {
            return None;
        }
        if t[lo] != '"' || t[hi - 1] != '"' {
            proof {
                assert(mid[0] == t@[lo as int]);
                assert(mid.last() == t@[hi as int - 1]);
            }
            return None;
        }
        proof {
            assert(mid[0] == '"' && mid.last() == '"');
            assert(mid.subrange(1, mid.len() as int - 1) =~= t@.subrange(
                lo as int + 1,
                hi as int - 1,
            ));
        }
        match unescape_range(t, lo + 1, hi - 1) {
            Some(s) => Some(WireError::Other(s)),
            None => None,
        }
    } else {
        None
    }
}

/// Reads the literal `lit` at `pos`, giving the position after it.
fn match_lit(t: &Vec<char>, pos: usize, lit: &str) -> (r: Option<usize>)
    requires
        pos <= t.len(),
    ensures
        match r {
            Some(p2) => {
                &&& p2 == pos + lit@.len()
                &&& p2 <= t.len()
                &&& strip_pre(lit@, t@.subrange(pos as int, t@.len() as int)) == Some(
                    t@.subrange(p2 as int, t@.len() as int),
                )
            },
            None => strip_pre(lit@, t@.subrange(pos as int, t@.len() as int)) == None::<Seq<char>>,
        },
{
    let ghost sub = t@.subrange(pos as int, t@.len() as int);
    let m: usize = lit.unicode_len();
    if t.len() - pos < m {
        return None;
    }
    let mut j: usize = 0;
    while j < m
        invariant
            m == lit@.len(),
            pos + m <= t.len(),
            t@.len() <= usize::MAX,
            sub == t@.subrange(pos as int, t@.len() as int),
            j <= m,
            forall|k: int| 0 <= k < j ==> t@[pos + k] == lit@[k],
        decreases m - j,
    {
        if t[pos + j] != lit.get_char(j) {
            proof {
                assert(sub.len() == t@.len() - pos);
                assert(0 <= j as int && (j as int) < sub.len());
                assert(sub[j as int] == t@[pos + j]);
                if strip_pre(lit@, sub) is Some {
                    assert(sub.subrange(0, m as int) == lit@);
                    assert(sub.subrange(0, m as int)[j as int] == sub[j as int]);
                }
            }
            return None;
        }
        j = j + 1;
    }
    proof {
        assert(sub.subrange(0, m as int) =~= lit@);
        assert(sub.subrange(m as int, sub.len() as int) =~= t@.subrange(
            pos as int + m,
            t@.len() as int,
        ));
    }
    Some(pos + m)
}

/// Reads one numeral at `pos` and hands back the position after it and its
/// value; `None` mirrors `num_field` and the bound `bound`.
fn scan_bounded(t: &Vec<char>, pos: usize, bound: u64) -> (r: Option<(usize, u64)>)
    requires
        pos <= t.len(),
    ensures
        ({
            let sub = t@.subrange(pos as int, t@.len() as int);
            match r {
                Some(p) => {
                    &&& num_field(sub) is Some
                    &&& p.1 as nat == num_field(sub)->Some_0.0
                    &&& p.1 <= bound
                    &&& pos <= p.0 <= t.len()
                    &&& num_field(sub)->Some_0.1 == t@.subrange(p.0 as int, t@.len() as int)
                },
                None => num_field(sub) is None || num_field(sub)->Some_0.0 > bound as nat,
            }
        }),
{
    let ghost sub = t@.subrange(pos as int, t@.len() as int);
    let (p2, v) = scan_number(t, pos);
    proof {
        let ds = leading_digits(sub);
        assert(sub.subrange(ds.len() as int, sub.len() as int) =~= t@.subrange(
            pos + ds.len(),
            t@.len() as int,
        ));
    }
    match v {
        Some(x) => {
            if x <= bound {
                Some((p2, x))
            } else {
                None
            }
        },
        None => None,
    }
}

#[verifier::rlimit(100)]
fn parse_sdata(t: &Vec<char>) -> (r: Option<StatusData>)
    ensures
        match r {
            Some(d) => sdata_dec(t@) == Some(d),
            None => sdata_dec(t@) == None::<StatusData>,
        },
{
    proof {
        assert(t@.subrange(0, t@.len() as int) =~= t@);
    }
    let p1 = match match_lit(t, 0, "{\"spaces\":") {
        Some(p) => p,
        None => {
            return None;
        },
    };
    let (p2, spaces) = match scan_bounded(t, p1, usize::MAX as u64) {
        Some(p) => p,
        None => {
            return None;
        },
    };
    let p3 = match match_lit(t, p2, ",\"connections\":") {
        Some(p) => p,
        None => {
            return None;
        },
    };
    let (p4, connections) = match scan_bounded(t, p3, usize::MAX as u64) {
        Some(p) => p,
        None => {
            return None;
        },
    };
    let p5 = match match_lit(t, p4, ",\"redundant_count\":") {
        Some(p) => p,
        None => {
            return None;
        },
    };
    let (p6, redundant) = match scan_bounded(t, p5, u64::MAX) {
        Some(p) => p,
        None => {
            return None;
        },
    };
    let p7 = match match_lit(t, p6, ",\"version\":") {
        Some(p) => p,
        None => {
            return None;
        },
    };
    let (p8, version) = match scan_bounded(t, p7, u32::MAX as u64) {
        Some(p) => p,
        None => {
            return None;
        },
    };
    if p8 < t.len() && t.len() - p8 == 1 && t[p8] == '}' {
        proof {
            assert(t@.subrange(p8 as int, t@.len() as int) =~= seq!['}']);
        }
        Some(
            StatusData {
                spaces: spaces as usize,
                connections: connections as usize,
                redundant_count: redundant,
                version: version as u32,
            },
        )
    } else {
        proof {
            let t8 = t@.subrange(p8 as int, t@.len() as int);
            if t8 == seq!['}'] {
                assert(t8.len() == 1);
                assert(t8[0] == '}');
                assert(t@[p8 as int] == '}');
            }
        }
        None
    }
}

fn parse_c2l(t: &Vec<char>) -> (r: Option<ClientToLib3h>)
    ensures
        match r {
            Some(p) => c2l_dec(t@) == Some(p@),
            None => c2l_dec(t@) is None,
        },
{
    if let Some((lo, hi)) = strip_tag_range(t, "Bootstrap") {
        Some(ClientToLib3h::Bootstrap(string_range(t, lo, hi)))
    } else if let Some((lo, hi)) = strip_tag_range(t, "FetchEntry") {
        Some(ClientToLib3h::FetchEntry(string_range(t, lo, hi)))
    } else if let Some((lo, hi)) = strip_tag_range(t, "JoinSpace") {
        Some(ClientToLib3h::JoinSpace(string_range(t, lo, hi)))
    } else if let Some((lo, hi)) = strip_tag_range(t, "LeaveSpace") {
        Some(ClientToLib3h::LeaveSpace(string_range(t, lo, hi)))
    } else if let Some((lo, hi)) = strip_tag_range(t, "PublishEntry") {
        Some(ClientToLib3h::PublishEntry(string_range(t, lo, hi)))
    } else if let Some((lo, hi)) = strip_tag_range(t, "QueryEntry") {
        Some(ClientToLib3h::QueryEntry(string_range(t, lo, hi)))
    } else if let Some((lo, hi)) = strip_tag_range(t, "SendDirectMessage") {
        Some(ClientToLib3h::SendDirectMessage(string_range(t, lo, hi)))
    } else {
        None
    }
}

fn parse_l2c(t: &Vec<char>) -> (r: Option<Lib3hToClient>)
    ensures
        match r {
            Some(p) => l2c_dec(t@) == Some(p@),
            None => l2c_dec(t@) is None,
        },
{
    if let Some((lo, hi)) = strip_tag_range(t, "Connected") {
        Some(Lib3hToClient::Connected(string_range(t, lo, hi)))
    } else if let Some((lo, hi)) = strip_tag_range(t, "HandleDropEntry") {
        Some(Lib3hToClient::HandleDropEntry(string_range(t, lo, hi)))
    } else if let Some((lo, hi)) = strip_tag_range(t, "HandleFetchEntry") {
        Some(Lib3hToClient::HandleFetchEntry(string_range(t, lo, hi)))
    } else if let Some((lo, hi)) = strip_tag_range(t, "HandleGetAuthoringEntryList") {
        Some(Lib3hToClient::HandleGetAuthoringEntryList(string_range(t, lo, hi)))
    } else if let Some((lo, hi)) = strip_tag_range(t, "HandleGetGossipingEntryList") {
        Some(Lib3hToClient::HandleGetGossipingEntryList(string_range(t, lo, hi)))
    } else if let Some((lo, hi)) = strip_tag_range(t, "HandleQueryEntry") {
        Some(Lib3hToClient::HandleQueryEntry(string_range(t, lo, hi)))
    } else if let Some((lo, hi)) = strip_tag_range(t, "HandleSendDirectMessage") {
        Some(Lib3hToClient::HandleSendDirectMessage(string_range(t, lo, hi)))
    } else if let Some((lo, hi)) = strip_tag_range(t, "HandleStoreEntryAspect") {
        Some(Lib3hToClient::HandleStoreEntryAspect(string_range(t, lo, hi)))
    } else if let Some((lo, hi)) = strip_tag_range(t, "Unbound") {
        Some(Lib3hToClient::Unbound(string_range(t, lo, hi)))
    } else {
        None
    }
}

fn parse_c2lr(t: &Vec<char>) -> (r: Option<ClientToLib3hResponse>)
    ensures
        match r {
            Some(p) => c2lr_dec(t@) == Some(p@),
            None => c2lr_dec(t@) is None,
        },
{
    if eq_quoted(t, "BootstrapSuccess") {
        Some(ClientToLib3hResponse::BootstrapSuccess)
    } else if eq_quoted(t, "JoinSpaceResult") {
        Some(ClientToLib3hResponse::JoinSpaceResult)
    } else if eq_quoted(t, "LeaveSpaceResult") {
        Some(ClientToLib3hResponse::LeaveSpaceResult)
    } else if let Some((lo, hi)) = strip_tag_range(t, "FetchEntryResult") {
        Some(ClientToLib3hResponse::FetchEntryResult(string_range(t, lo, hi)))
    } else if let Some((lo, hi)) = strip_tag_range(t, "QueryEntryResult") {
        Some(ClientToLib3hResponse::QueryEntryResult(string_range(t, lo, hi)))
    } else if let Some((lo, hi)) = strip_tag_range(t, "SendDirectMessageResult") {
        Some(ClientToLib3hResponse::SendDirectMessageResult(string_range(t, lo, hi)))
    } else {
        None
    }
}

fn parse_l2cr(t: &Vec<char>) -> (r: Option<Lib3hToClientResponse>)
    ensures
        match r {
            Some(p) => l2cr_dec(t@) == Some(p@),
            None => l2cr_dec(t@) is None,
        },
{
    if eq_quoted(t, "HandleDropEntryResult") {
        Some(Lib3hToClientResponse::HandleDropEntryResult)
    } else if eq_quoted(t, "HandleStoreEntryAspectResult") {
        Some(Lib3hToClientResponse::HandleStoreEntryAspectResult)
    } else if let Some((lo, hi)) = strip_tag_range(t, "HandleFetchEntryResult") {
        Some(Lib3hToClientResponse::HandleFetchEntryResult(string_range(t, lo, hi)))
    } else if let Some((lo, hi)) = strip_tag_range(t, "HandleGetAuthoringEntryListResult") {
        Some(Lib3hToClientResponse::HandleGetAuthoringEntryListResult(string_range(t, lo, hi)))
    } else if let Some((lo, hi)) = strip_tag_range(t, "HandleGetGossipingEntryListResult") {
        Some(Lib3hToClientResponse::HandleGetGossipingEntryListResult(string_range(t, lo, hi)))
    } else if let Some((lo, hi)) = strip_tag_range(t, "HandleQueryEntryResult") {
        Some(Lib3hToClientResponse::HandleQueryEntryResult(string_range(t, lo, hi)))
    } else if let Some((lo, hi)) = strip_tag_range(t, "HandleSendDirectMessageResult") {
        Some(Lib3hToClientResponse::HandleSendDirectMessageResult(string_range(t, lo, hi)))
    } else {
        None
    }
}

/// A decode failure as a wire error carrying the diagnostic text.
fn diag(msg: &str) -> (e: WireError)
    requires
        msg@.len() > 0,
    ensures
        e@ == WireErrorView::Other(msg@),
{
    WireError::Other(String::from_str(msg))
}

impl WireMessage {
    /// Reads one complete message buffer back into an envelope. The bytes
    /// are read as text with a lossy fallback; the text is then read as a
    /// tagged value. Exactly the texts that `decode_spec` accepts are
    /// decoded, and every other input yields a non-empty `Other`
    /// diagnostic — never a panic.
    pub fn decode(bytes: &[u8]) -> (r: Result<WireMessage, WireError>)
        ensures
            ({
                let t = lossy_decode(bytes@);
                &&& (valid_utf8(bytes@) ==> t == decode_utf8(bytes@))
                &&& match r {
                    Result::Ok(m) => decode_spec(t) == Some(m@),
                    Result::Err(e) => decode_spec(t) is None && (e@ matches WireErrorView::Other(s)
                        && s.len() > 0),
                }
            }),
    {
        let s = utf8_lossy(bytes);
        let t = chars_vec(s.as_str());
        if eq_quoted(&t, "Ping") {
            return Ok(WireMessage::Ping);
        }
        if eq_quoted(&t, "Pong") {
            return Ok(WireMessage::Pong);
        }
        if eq_quoted(&t, "Status") {
            return Ok(WireMessage::Status);
        }
        if let Some((lo, hi)) = strip_tag_range(&t, "Err") {
            let mid = sub_chars(&t, lo, hi);
            match parse_err(&mid) {
                Some(e) => {
                    return Ok(WireMessage::Error(e));
                },
                None => {
                    proof {
                        reveal_strlit("unreadable error payload");
                    }
                    return Err(diag("unreadable error payload"));
                },
            }
        }
        if let Some((lo, hi)) = strip_tag_range(&t, "StatusResponse") {
            let mid = sub_chars(&t, lo, hi);
            match parse_sdata(&mid) {
                Some(d) => {
                    return Ok(WireMessage::StatusResponse(d));
                },
                None => {
                    proof {
                        reveal_strlit("unreadable status payload");
                    }
                    return Err(diag("unreadable status payload"));
                },
            }
        }
        if let Some((lo, hi)) = strip_tag_range(&t, "ClientToLib3hResponse") {
            let mid = sub_chars(&t, lo, hi);
            match parse_c2lr(&mid) {
                Some(p) => {
                    return Ok(WireMessage::ClientToLib3hResponse(p));
                },
                None => {
                    proof {
                        reveal_strlit("unknown client response kind");
                    }
                    return Err(diag("unknown client response kind"));
                },
            }
        }
        if let Some((lo, hi)) = strip_tag_range(&t, "Lib3hToClientResponse") {
            let mid = sub_chars(&t, lo, hi);
            match parse_l2cr(&mid) {
                Some(p) => {
                    return Ok(WireMessage::Lib3hToClientResponse(p));
                },
                None => {
                    proof {
                        reveal_strlit("unknown hub response kind");
                    }
                    return Err(diag("unknown hub response kind"));
                },
            }
        }
        if let Some((lo, hi)) = strip_tag_range(&t, "ClientToLib3h") {
            let mid = sub_chars(&t, lo, hi);
            match parse_c2l(&mid) {
                Some(p) => {
                    return Ok(WireMessage::ClientToLib3h(p));
                },
                None => {
                    proof {
                        reveal_strlit("unknown client request kind");
                    }
                    return Err(diag("unknown client request kind"));
                },
            }
        }
        if let Some((lo, hi)) = strip_tag_range(&t, "Lib3hToClient") {
            let mid = sub_chars(&t, lo, hi);
            match parse_l2c(&mid) {
                Some(p) => {
                    return Ok(WireMessage::Lib3hToClient(p));
                },
                None => {
                    proof {
                        reveal_strlit("unknown hub request kind");
                    }
                    return Err(diag("unknown hub request kind"));
                },
            }
        }
        proof {
            reveal_strlit("unrecognized wire message");
        }
        Err(diag("unrecognized wire message"))
    }
}

} // verus!
