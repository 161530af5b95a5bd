//! Conversions into `WireError`, and its rendering toward the hub-wide
//! error type: the sole integration point this envelope exposes to the
//! rest of the hub's error handling.
use vstd::prelude::*;
use crate::ext::push_char;
use crate::jstr::esc;
use crate::jstr::push_escaped;
use crate::msg::WireError;
use crate::msg::WireErrorView;
use crate::text::quoted;
use vstd::string::StringExecFns;

verus! {

/// The diagnostic text of an error: its kind name, with the quoted,
/// escaped detail for `Other`.
pub open spec fn err_describe(e: WireErrorView) -> Seq<char> {
    match e {
        WireErrorView::MessageWhileInLimbo => "MessageWhileInLimbo"@,
        WireErrorView::Other(s) => "Other(\""@ + esc(s) + "\")"@,
    }
}

impl From<String> for WireError {
    /// Any text value wraps as an `Other` diagnostic, unchanged.
    fn from(err: String) -> (r: WireError) {
        WireError::Other(err)
    }
}

impl vstd::std_specs::convert::FromSpecImpl<String> for WireError {
    open spec fn obeys_from_spec() -> bool {
        true
    }

    open spec fn from_spec(err: String) -> WireError {
        WireError::Other(err)
    }
}

impl WireError {
    /// Wraps borrowed text as an `Other` diagnostic, quoted and escaped the
    /// way the wire format writes string detail.
    pub fn from_text(s: &str) -> (r: WireError)
        ensures
            r@ == WireErrorView::Other(quoted(esc(s@))),
    {
        let mut out = String::new();
        push_char(&mut out, '"');
        push_escaped(&mut out, s);
        push_char(&mut out, '"');
        proof {
            assert(out@ =~= quoted(esc(s@)));
        }
        WireError::Other(out)
    }

    /// The diagnostic rendering of this error, for the hub-wide error type.
    pub fn describe(&self) -> (r: String)
        ensures
            r@ == err_describe(self@),
    {
        match self {
            WireError::MessageWhileInLimbo => String::from_str("MessageWhileInLimbo"),
            WireError::Other(s) => {
                let mut out = String::from_str("Other(\"");
                push_escaped(&mut out, s.as_str());
                out.append("\")");
                proof {
                    assert(out@ =~= err_describe(self@));
                }
                out
            },
        }
    }
}

} // verus!
