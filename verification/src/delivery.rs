//! What a session sends for a directive of the router.
//!
//! A directive may hold directives; the session sends what they ask for in
//! the order in which they stand. A directive that holds a message that
//! cannot be encoded is not carried out at all.

use crate::error::Error;
use crate::handlers::{PeerId, SendTo};
use crate::mining::Mining;
use vstd::prelude::*;
use vstd::std_specs::vec::axiom_vec_index_decreases;

verus! {



/// One message for the session to send.
#[derive(Debug, Clone, PartialEq, Eq)]
pub enum Delivery {
    /// The frame that came in, unchanged, to an upstream.
    RelaySameMessage(PeerId),
    /// A message for an upstream: the peer, the type tag, the body.
    ToUpstream(PeerId, u8, Vec<u8>),
    /// A message for the downstream of the session: the type tag, the body.
    ToDownstream(u8, Vec<u8>),
}

/// What a `Delivery` holds.
pub enum DeliveryView {
    RelaySameMessage(PeerId),
    ToUpstream(PeerId, u8, Seq<u8>),
    ToDownstream(u8, Seq<u8>),
}

impl View for Delivery {
    type V = DeliveryView;

    open spec fn view(&self) -> DeliveryView {
        match self {
            Delivery::RelaySameMessage(peer) => DeliveryView::RelaySameMessage(*peer),
            Delivery::ToUpstream(peer, message_type, body) => DeliveryView::ToUpstream(
                *peer,
                *message_type,
                body@,
            ),
            Delivery::ToDownstream(message_type, body) => DeliveryView::ToDownstream(
                *message_type,
                body@,
            ),
        }
    }
}

/// What each of the deliveries holds.
pub open spec fn spec_views(deliveries: Seq<Delivery>) -> Seq<DeliveryView> {
    deliveries.map_values(|delivery: Delivery| delivery@)
}

/// What a directive asks the session to send, in order; `BadMessage` where
/// a message in it cannot be encoded.
pub open spec fn spec_deliveries(send_to: SendTo) -> Result<Seq<DeliveryView>, Error>
    decreases send_to, 0nat,
{
    match send_to {
        SendTo::RelaySameMessage(peer) => Ok(seq![DeliveryView::RelaySameMessage(peer)]),
        SendTo::RelayNewMessage(peer, m) => if m.spec_encodable() {
            Ok(
                seq![
                    DeliveryView::ToUpstream(peer, m.spec_message_type().spec_code(), m.spec_body()),
                ],
            )
        } else {
            Err(Error::BadMessage)
        },
        SendTo::Respond(m) => if m.spec_encodable() {
            Ok(seq![DeliveryView::ToDownstream(m.spec_message_type().spec_code(), m.spec_body())])
        } else {
            Err(Error::BadMessage)
        },
        SendTo::Multiple(directives) => spec_deliveries_from(directives, 0),
        SendTo::Nothing(_) => Ok(Seq::empty()),
    }
}

/// What the directives from place `from` on ask the session to send.
pub open spec fn spec_deliveries_from(directives: Vec<SendTo>, from: nat) -> Result<
    Seq<DeliveryView>,
    Error,
>
    decreases directives, directives.len() - from,
{
    if from >= directives.len() {
        Ok(Seq::empty())
    } else {
        match spec_deliveries(directives[from as int]) {
            Err(e) => Err(e),
            Ok(first) => match spec_deliveries_from(directives, from + 1) {
                Err(e) => Err(e),
                Ok(rest) => Ok(first + rest),
            },
        }
    }
}

/// Appends to `out` what a directive asks the session to send.
fn collect(send_to: &SendTo, out: &mut Vec<Delivery>) -> (res: Result<(), Error>)
    ensures
        match spec_deliveries(*send_to) {
            Ok(deliveries) => res is Ok && spec_views(final(out)@) == spec_views(old(out)@)
                + deliveries,
            Err(e) => res == Err::<(), Error>(e),
        },
    decreases send_to, 0nat,
{
    match send_to {
        SendTo::RelaySameMessage(peer) => {
            out.push(Delivery::RelaySameMessage(*peer));
            assert(spec_views(out@) =~= spec_views(old(out)@) + seq![
                DeliveryView::RelaySameMessage(*peer),
            ]);
            Ok(())
        },
        SendTo::RelayNewMessage(peer, m) => {
            let body = match m.to_bytes() {
                Ok(body) => body,
                Err(e) => {
                    return Err(e);
                },
            };
            let code = m.message_type().code();
            out.push(Delivery::ToUpstream(*peer, code, body));
            assert(spec_views(out@) =~= spec_views(old(out)@) + seq![
                DeliveryView::ToUpstream(*peer, code, body@),
            ]);
            Ok(())
        },
        SendTo::Respond(m) => {
            let body = match m.to_bytes() {
                Ok(body) => body,
                Err(e) => {
                    return Err(e);
                },
            };
            let code = m.message_type().code();
            out.push(Delivery::ToDownstream(code, body));
            assert(spec_views(out@) =~= spec_views(old(out)@) + seq![
                DeliveryView::ToDownstream(code, body@),
            ]);
            Ok(())
        },
        SendTo::Multiple(directives) => {
            let n = directives.len();
            let mut i: usize = 0;
            proof {
                lemma_deliveries_from_end(*directives);
            }
            while i < n
                invariant
                    n == directives.len(),
                    i <= n,
                    *send_to == SendTo::Multiple(*directives),
                    spec_deliveries(*send_to) == spec_deliveries_from(*directives, 0),
                    match spec_deliveries_from(*directives, 0) {
                        Ok(all) => spec_deliveries_from(*directives, i as nat) matches Ok(rest)
                            && spec_views(out@) + rest == spec_views(old(out)@) + all,
                        Err(e) => spec_deliveries_from(*directives, i as nat) == Err::<
                            Seq<DeliveryView>,
                            Error,
                        >(e),
                    },
                decreases n - i,
            {
                let ghost before = out@;
                proof {
                    axiom_vec_index_decreases(*directives, i as int);
                }
                match collect(&directives[i], out) {
                    Ok(()) => {},
                    Err(e) => {
                        return Err(e);
                    },
                }
                proof {
                    let first = spec_deliveries(directives[i as int]).unwrap();
                    if let Ok(all) = spec_deliveries_from(*directives, 0) {
                        let rest = spec_deliveries_from(*directives, (i + 1) as nat).unwrap();
                        assert(spec_views(out@) + rest =~= spec_views(before) + (first + rest));
                    }
                }
                i = i + 1;
            }
            proof {
                if let Ok(all) = spec_deliveries_from(*directives, 0) {
                    assert(spec_views(out@) + Seq::<DeliveryView>::empty() =~= spec_views(out@));
                }
            }
            Ok(())
        },
        SendTo::Nothing(_) => {
            assert(spec_views(out@) =~= spec_views(old(out)@) + Seq::<DeliveryView>::empty());
            Ok(())
        },
    }
}

/// Past the last directive nothing is asked for.
proof fn lemma_deliveries_from_end(directives: Vec<SendTo>)
    ensures
        spec_deliveries_from(directives, directives.len() as nat) == Ok::<
            Seq<DeliveryView>,
            Error,
        >(Seq::empty()),
{
}

/// What a directive asks the session to send, in order. Fails with
/// `BadMessage` exactly when a message in it cannot be encoded.
pub fn deliveries(send_to: &SendTo) -> (res: Result<Vec<Delivery>, Error>)
    ensures
        match spec_deliveries(*send_to) {
            Ok(expected) => res matches Ok(out) && spec_views(out@) == expected,
            Err(e) => res matches Err(f) && f == e,
        },
{
    let mut out: Vec<Delivery> = Vec::new();
    match collect(send_to, &mut out) {
        Ok(()) => {
            assert(spec_views(Seq::<Delivery>::empty()) + spec_deliveries(*send_to).unwrap()
                =~= spec_deliveries(*send_to).unwrap());
            Ok(out)
        },
        Err(e) => Err(e),
    }
}

/// A directive to send nothing asks for nothing, and a directive that holds
/// no directive asks for nothing either.
pub proof fn lemma_nothing_to_deliver(kept: Option<Mining>, directives: Vec<SendTo>)
    requires
        directives.len() == 0,
    ensures
        spec_deliveries(SendTo::Nothing(kept)) == Ok::<Seq<DeliveryView>, Error>(Seq::empty()),
        spec_deliveries(SendTo::Multiple(directives)) == Ok::<Seq<DeliveryView>, Error>(
            Seq::empty(),
        ),
{
}

} // verus!
