//! The priority preorder over envelopes: the two response kinds form one
//! class above everything else, and members of a class are mutually equal.
use vstd::prelude::*;
use core::cmp::Ordering;
use crate::msg::WireMessage;
use crate::msg::WireMessageView;

verus! {

/// A response envelope, in the sense of the priority order.
pub open spec fn is_response(m: WireMessageView) -> bool {
    m is ClientToLib3hResponse || m is Lib3hToClientResponse
}

/// Priority class: responses rank above everything else.
pub open spec fn rank(m: WireMessageView) -> int {
    if is_response(m) {
        1
    } else {
        0
    }
}

/// The two-class priority order, as a comparison.
pub open spec fn rank_cmp(a: WireMessageView, b: WireMessageView) -> Ordering {
    if rank(a) < rank(b) {
        Ordering::Less
    } else if rank(a) == rank(b) {
        Ordering::Equal
    } else {
        Ordering::Greater
    }
}

impl WireMessage {
    /// Compares two envelopes in the two-class priority order: all
    /// non-responses are mutually equal and below all responses, which are
    /// mutually equal.
    pub fn cmp(&self, other: &Self) -> (r: Ordering)
        ensures
            r == rank_cmp(self@, other@),
    {
        let a = self.response_rank();
        let b = other.response_rank();
        if a < b {
            Ordering::Less
        } else if a == b {
            Ordering::Equal
        } else {
            Ordering::Greater
        }
    }

    /// The envelope's priority class as a number: 1 for a response, 0 for
    /// everything else.
    pub fn response_rank(&self) -> (r: u8)
        ensures
            r as int == rank(self@),
    {
        match self {
            WireMessage::ClientToLib3hResponse(_) => 1,
            WireMessage::Lib3hToClientResponse(_) => 1,
            _ => 0,
        }
    }
}

impl PartialOrd for WireMessage {
    fn partial_cmp(&self, other: &Self) -> (r: Option<Ordering>) {
        Some(self.cmp(other))
    }
}

impl vstd::std_specs::cmp::PartialOrdSpecImpl for WireMessage {
    open spec fn obeys_partial_cmp_spec() -> bool {
        true
    }

    open spec fn partial_cmp_spec(&self, other: &Self) -> Option<Ordering> {
        Some(rank_cmp(self@, other@))
    }
}

/// The order is reflexive: every envelope compares equal to itself.
pub proof fn lemma_order_reflexive(a: WireMessageView)
    ensures
        rank_cmp(a, a) == Ordering::Equal,
{
}

/// The order is antisymmetric up to its two classes: the comparison of a
/// pair reverses when the pair is flipped.
pub proof fn lemma_order_antisymmetric(a: WireMessageView, b: WireMessageView)
    ensures
        (rank_cmp(a, b) == Ordering::Less) <==> (rank_cmp(b, a) == Ordering::Greater),
        (rank_cmp(a, b) == Ordering::Equal) <==> (rank_cmp(b, a) == Ordering::Equal),
{
}

/// The non-strict order is transitive.
pub proof fn lemma_order_transitive(a: WireMessageView, b: WireMessageView, c: WireMessageView)
    requires
        rank_cmp(a, b) != Ordering::Greater,
        rank_cmp(b, c) != Ordering::Greater,
    ensures
        rank_cmp(a, c) != Ordering::Greater,
{
}

/// The order is exactly the two-class partition: envelopes compare equal
/// precisely when they are in the same class, and a non-response is
/// strictly below every response.
pub proof fn lemma_order_classes(a: WireMessageView, b: WireMessageView)
    ensures
        (rank_cmp(a, b) == Ordering::Equal) <==> (is_response(a) == is_response(b)),
        (rank_cmp(a, b) == Ordering::Less) <==> (!is_response(a) && is_response(b)),
        (rank_cmp(a, b) == Ordering::Greater) <==> (is_response(a) && !is_response(b)),
{
}

} // verus!
