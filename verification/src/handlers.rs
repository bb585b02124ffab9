//! The connection-wide parsers of mining messages.
//!
//! A parser decodes a message, checks it against the kind of channel that the
//! connection carries, and hands it to the handler of its kind. What a
//! handler does is up to the type that implements the parser; the parser
//! states which handler ran, on which message, and what came of it.

use crate::error::Error;
use crate::mining::{
    Mining, MiningType, Payload, SubmitSharesError, SubmitSharesStandard,
    MESSAGE_TYPE_OPEN_STANDARD_MINING_CHANNEL, MESSAGE_TYPE_OPEN_STANDARD_MINING_CHANNEL_SUCCESS,
};
use vstd::prelude::*;

verus! {

/// Names a peer of the session: peers are looked up by number in the table
/// that owns them.
pub type PeerId = u32;

/// The kinds of channel that a connection can carry.
#[derive(Debug, Clone, Copy, PartialEq, Eq, Structural)]
pub enum SupportedChannelTypes {
    Standard,
    Extended,
    Group,
    /// A connection that is not header-only carries both group and extended
    /// channels.
    GroupAndExtended,
}

/// What the session has to do with a message once it is handled.
#[derive(Debug, PartialEq, Eq)]
pub enum SendTo {
    /// Hand the frame that came in to the peer, unchanged.
    RelaySameMessage(PeerId),
    /// Send the peer a message that the handler made.
    RelayNewMessage(PeerId, Mining),
    /// Answer on the connection that the message came in on.
    Respond(Mining),
    /// Several of these at once.
    Multiple(Vec<SendTo>),
    /// Nothing is sent. The message may be kept for the caller to see.
    Nothing(Option<Mining>),
}

/// What a downstream said of itself when it set the connection up.
#[derive(Debug, Clone, Copy, PartialEq, Eq, Structural)]
pub struct CommonDownstreamData {
    pub header_only: bool,
    pub work_selection: bool,
    pub version_rolling: bool,
}

/// Chooses the peer on the other side when a channel is opened.
///
/// `Down` and `Up` are what the router is shown of the two sides: the side
/// that asks is shown as it stands when the router is consulted.
pub trait MiningRouter<Down, Up>: Sized {
    /// What consulting the router on a request for a standard channel may
    /// do: how it may leave the router and the request, and what it may
    /// answer. Unless a router says more, it may do anything.
    open spec fn routed_open_standard_channel(
        pre: Self,
        downstream: Down,
        request: Payload,
        downstream_mining_data: CommonDownstreamData,
        post: Self,
        rewritten: Payload,
        res: Result<PeerId, Error>,
    ) -> bool {
        true
    }

    /// What consulting the router on the news of an opened standard channel
    /// may do: how it may leave the router and the news, and what it may
    /// answer. Unless a router says more, it may do anything.
    open spec fn routed_open_standard_channel_success(
        pre: Self,
        upstream: Up,
        request: Payload,
        post: Self,
        rewritten: Payload,
        res: Result<PeerId, Error>,
    ) -> bool {
        true
    }

    /// A downstream asks for a standard channel: which upstream serves it.
    /// The router may rewrite the request.
    fn on_open_standard_channel(
        &mut self,
        downstream: &Down,
        request: &mut Payload,
        downstream_mining_data: &CommonDownstreamData,
    ) -> (res: Result<PeerId, Error>)
        ensures
            Self::routed_open_standard_channel(
                *old(self),
                *downstream,
                *old(request),
                *downstream_mining_data,
                *final(self),
                *final(request),
                res,
            ),
    ;

    /// An upstream has opened a standard channel: which downstream asked.
    /// The router may rewrite the answer.
    fn on_open_standard_channel_success(
        &mut self,
        upstream: &Up,
        request: &mut Payload,
    ) -> (res: Result<PeerId, Error>)
        ensures
            Self::routed_open_standard_channel_success(
                *old(self),
                *upstream,
                *old(request),
                *final(self),
                *final(request),
                res,
            ),
    ;
}

/// Whether a parser consults a router when a channel is opened.
pub enum MiningRoutingLogic<R> {
    /// No router: the handler is given no peer.
    NoRouting,
    /// The router that a proxy consults.
    Proxy(R),
}

impl<R> MiningRoutingLogic<R> {
    /// The router that the routing logic holds, where it holds one.
    pub open spec fn spec_router(self) -> R
        recommends
            self is Proxy,
    {
        match self {
            MiningRoutingLogic::Proxy(router) => router,
            MiningRoutingLogic::NoRouting => arbitrary(),
        }
    }
}

/// Which messages a downstream may send, by the kind of channel and by
/// whether the downstream may select its own work.
pub open spec fn downstream_admissible(
    channel_type: SupportedChannelTypes,
    work_selection: bool,
    kind: MiningType,
) -> bool {
    match kind {
        MiningType::OpenStandardMiningChannel | MiningType::SubmitSharesStandard => channel_type
            != SupportedChannelTypes::Extended,
        MiningType::OpenExtendedMiningChannel | MiningType::SubmitSharesExtended => channel_type
            == SupportedChannelTypes::Extended || channel_type
            == SupportedChannelTypes::GroupAndExtended,
        MiningType::UpdateChannel => true,
        MiningType::SetCustomMiningJob => work_selection && channel_type
            != SupportedChannelTypes::Standard,
        _ => false,
    }
}

/// Which messages an upstream may send, by the kind of channel and by
/// whether the downstream may select its own work.
pub open spec fn upstream_admissible(
    channel_type: SupportedChannelTypes,
    work_selection: bool,
    kind: MiningType,
) -> bool {
    match kind {
        MiningType::OpenStandardMiningChannelSuccess => channel_type
            != SupportedChannelTypes::Extended,
        MiningType::OpenExtendedMiningChannelSuccess => channel_type
            == SupportedChannelTypes::Extended || channel_type
            == SupportedChannelTypes::GroupAndExtended,
        MiningType::NewMiningJob => channel_type == SupportedChannelTypes::Standard,
        MiningType::NewExtendedMiningJob => channel_type != SupportedChannelTypes::Standard,
        MiningType::SetGroupChannel => channel_type == SupportedChannelTypes::Group
            || channel_type == SupportedChannelTypes::GroupAndExtended,
        MiningType::SetCustomMiningJobSuccess | MiningType::SetCustomMiningJobError =>
            work_selection && channel_type != SupportedChannelTypes::Standard,
        MiningType::OpenMiningChannelError
        | MiningType::UpdateChannelError
        | MiningType::CloseChannel
        | MiningType::SetExtranoncePrefix
        | MiningType::SubmitSharesSuccess
        | MiningType::SubmitSharesError
        | MiningType::SetNewPrevHash
        | MiningType::SetTarget
        | MiningType::Reconnect => true,
        _ => false,
    }
}

/// Decides whether a downstream may send a message of this kind.
pub fn is_downstream_admissible(
    channel_type: SupportedChannelTypes,
    work_selection: bool,
    kind: MiningType,
) -> (ok: bool)
    ensures
        ok == downstream_admissible(channel_type, work_selection, kind),
{
    match kind {
        MiningType::OpenStandardMiningChannel | MiningType::SubmitSharesStandard => {
            match channel_type {
                SupportedChannelTypes::Standard => true,
                SupportedChannelTypes::Extended => false,
                SupportedChannelTypes::Group => true,
                SupportedChannelTypes::GroupAndExtended => true,
            }
        },
        MiningType::OpenExtendedMiningChannel | MiningType::SubmitSharesExtended => {
            match channel_type {
                SupportedChannelTypes::Standard => false,
                SupportedChannelTypes::Extended => true,
                SupportedChannelTypes::Group => false,
                SupportedChannelTypes::GroupAndExtended => true,
            }
        },
        MiningType::UpdateChannel => true,
        MiningType::SetCustomMiningJob => {
            match (channel_type, work_selection) {
                (SupportedChannelTypes::Extended, true) => true,
                (SupportedChannelTypes::Group, true) => true,
                (SupportedChannelTypes::GroupAndExtended, true) => true,
                _ => false,
            }
        },
        _ => false,
    }
}

/// Decides whether an upstream may send a message of this kind.
pub fn is_upstream_admissible(
    channel_type: SupportedChannelTypes,
    work_selection: bool,
    kind: MiningType,
) -> (ok: bool)
    ensures
        ok == upstream_admissible(channel_type, work_selection, kind),
{
    match kind {
        MiningType::OpenStandardMiningChannelSuccess => {
            match channel_type {
                SupportedChannelTypes::Standard => true,
                SupportedChannelTypes::Extended => false,
                SupportedChannelTypes::Group => true,
                SupportedChannelTypes::GroupAndExtended => true,
            }
        },
        MiningType::OpenExtendedMiningChannelSuccess => {
            match channel_type {
                SupportedChannelTypes::Standard => false,
                SupportedChannelTypes::Extended => true,
                SupportedChannelTypes::Group => false,
                SupportedChannelTypes::GroupAndExtended => true,
            }
        },
        MiningType::NewMiningJob => {
            match channel_type {
                SupportedChannelTypes::Standard => true,
                SupportedChannelTypes::Extended => false,
                SupportedChannelTypes::Group => false,
                SupportedChannelTypes::GroupAndExtended => false,
            }
        },
        MiningType::NewExtendedMiningJob => {
            match channel_type {
                SupportedChannelTypes::Standard => false,
                SupportedChannelTypes::Extended => true,
                SupportedChannelTypes::Group => true,
                SupportedChannelTypes::GroupAndExtended => true,
            }
        },
        MiningType::SetGroupChannel => {
            match channel_type {
                SupportedChannelTypes::Standard => false,
                SupportedChannelTypes::Extended => false,
                SupportedChannelTypes::Group => true,
                SupportedChannelTypes::GroupAndExtended => true,
            }
        },
        MiningType::SetCustomMiningJobSuccess | MiningType::SetCustomMiningJobError => {
            match (channel_type, work_selection) {
                (SupportedChannelTypes::Extended, true) => true,
                (SupportedChannelTypes::Group, true) => true,
                (SupportedChannelTypes::GroupAndExtended, true) => true,
                _ => false,
            }
        },
        MiningType::OpenMiningChannelError
        | MiningType::UpdateChannelError
        | MiningType::CloseChannel
        | MiningType::SetExtranoncePrefix
        | MiningType::SubmitSharesSuccess
        | MiningType::SubmitSharesError
        | MiningType::SetNewPrevHash
        | MiningType::SetTarget
        | MiningType::Reconnect => true,
        _ => false,
    }
}

/// No kind of message is admissible in both directions, whatever the channel.
pub proof fn lemma_directions_disjoint(
    channel_type: SupportedChannelTypes,
    work_selection: bool,
    kind: MiningType,
)
    ensures
        !(downstream_admissible(channel_type, work_selection, kind) && upstream_admissible(
            channel_type,
            work_selection,
            kind,
        )),
{
}

/// What the caller of a parser gets for what the handler returned: a lookup
/// that missed is reported as an unexpected message.
pub open spec fn spec_surface(raw: Result<SendTo, Error>) -> Result<SendTo, Error> {
    match raw {
        Ok(send_to) => Ok(send_to),
        Err(e) => Err(e.spec_surfaced()),
    }
}

/// Reports what a handler returned to the caller of the parser.
pub fn surface(raw: Result<SendTo, Error>) -> (res: Result<SendTo, Error>)
    ensures
        res == spec_surface(raw),
{
    match raw {
        Ok(send_to) => Ok(send_to),
        Err(e) => Err(e.surfaced()),
    }
}

/// The error with which a parser of downstream messages turns a message away
/// before any router or handler is called, if it does: in this order, the
/// error of a connection that is not set up, `BadMessage` for what does not
/// decode, `UnexpectedMessage` for a kind that the channel does not admit.
pub open spec fn downstream_refusal(
    data: Result<CommonDownstreamData, Error>,
    channel_type: SupportedChannelTypes,
    work_selection: bool,
    message_type: u8,
    payload: Seq<u8>,
) -> Option<Error> {
    match data {
        Err(e) => Some(e),
        Ok(_) => {
            if !Mining::spec_decodable(message_type, payload) {
                Some(Error::BadMessage)
            } else if !downstream_admissible(
                channel_type,
                work_selection,
                MiningType::spec_from_code(message_type).unwrap(),
            ) {
                Some(Error::UnexpectedMessage)
            } else {
                None
            }
        },
    }
}

/// Whether a parser of downstream messages consults its router on a
/// message: the message is not turned away, it asks for a standard channel,
/// and the routing logic holds a router.
pub open spec fn downstream_consults(refusal: Option<Error>, routed: bool, message_type: u8) -> bool {
    refusal is None && routed && message_type == MESSAGE_TYPE_OPEN_STANDARD_MINING_CHANNEL
}

/// A downstream that has said what it is.
pub trait IsDownstream {
    /// What the downstream said of itself, or the error that asking for it
    /// gives while the connection is not set up. An implementor that wants
    /// its parser reasoned about says here what
    /// `get_downstream_mining_data` returns.
    open spec fn spec_downstream_mining_data(&self) -> Result<CommonDownstreamData, Error> {
        arbitrary()
    }

    fn get_downstream_mining_data(&self) -> (res: Result<CommonDownstreamData, Error>)
        ensures
            res == self.spec_downstream_mining_data(),
    ;
}

/// Connection-wide parser of the messages of a downstream, implemented by
/// what stands upstream of it. `Up` is the table of upstream peers that the
/// handlers work on.
pub trait ParseDownstreamMiningMessages<Up>: IsDownstream + Sized {
    /// The kind of channel that the connection carries: what
    /// `get_channel_type` returns.
    open spec fn spec_channel_type(&self) -> SupportedChannelTypes {
        arbitrary()
    }

    /// Whether the downstream may select its own work: what
    /// `is_work_selection_enabled` returns.
    open spec fn spec_work_selection_enabled(&self) -> bool {
        arbitrary()
    }

    /// What the handler of the kind of `m` may do on `m`: how it may leave
    /// the parser and the upstream table, and what it may return. `selected`
    /// is the upstream that a router chose, where one was consulted. Unless
    /// an implementor says more, a handler may do anything.
    open spec fn handled(
        pre: Self,
        upstreams_pre: Up,
        m: Mining,
        selected: Option<PeerId>,
        post: Self,
        upstreams_post: Up,
        res: Result<SendTo, Error>,
    ) -> bool {
        true
    }

    fn get_channel_type(&self) -> (t: SupportedChannelTypes)
        ensures
            t == self.spec_channel_type(),
    ;

    fn is_work_selection_enabled(&self) -> (b: bool)
        ensures
            b == self.spec_work_selection_enabled(),
    ;

    fn handle_open_standard_mining_channel(
        &mut self,
        upstreams: &mut Up,
        m: Payload,
        up: Option<PeerId>,
    ) -> (res: Result<SendTo, Error>)
        ensures
            Self::handled(
                *old(self),
                *old(upstreams),
                Mining::OpenStandardMiningChannel(m),
                up,
                *final(self),
                *final(upstreams),
                res,
            ),
    ;

    fn handle_open_extended_mining_channel(&mut self, upstreams: &mut Up, m: Payload) -> (res:
        Result<SendTo, Error>)
        ensures
            Self::handled(
                *old(self),
                *old(upstreams),
                Mining::OpenExtendedMiningChannel(m),
                None,
                *final(self),
                *final(upstreams),
                res,
            ),
    ;

    fn handle_update_channel(&mut self, upstreams: &mut Up, m: Payload) -> (res: Result<
        SendTo,
        Error,
    >)
        ensures
            Self::handled(
                *old(self),
                *old(upstreams),
                Mining::UpdateChannel(m),
                None,
                *final(self),
                *final(upstreams),
                res,
            ),
    ;

    fn handle_submit_shares_standard(
        &mut self,
        upstreams: &mut Up,
        m: SubmitSharesStandard,
    ) -> (res: Result<SendTo, Error>)
        ensures
            Self::handled(
                *old(self),
                *old(upstreams),
                Mining::SubmitSharesStandard(m),
                None,
                *final(self),
                *final(upstreams),
                res,
            ),
    ;

    fn handle_submit_shares_extended(&mut self, upstreams: &mut Up, m: Payload) -> (res: Result<
        SendTo,
        Error,
    >)
        ensures
            Self::handled(
                *old(self),
                *old(upstreams),
                Mining::SubmitSharesExtended(m),
                None,
                *final(self),
                *final(upstreams),
                res,
            ),
    ;

    fn handle_set_custom_mining_job(&mut self, upstreams: &mut Up, m: Payload) -> (res: Result<
        SendTo,
        Error,
    >)
        ensures
            Self::handled(
                *old(self),
                *old(upstreams),
                Mining::SetCustomMiningJob(m),
                None,
                *final(self),
                *final(upstreams),
                res,
            ),
    ;

    /// Parses one message of the downstream and has it handled.
    ///
    /// In this order: while the connection is not set up, the error of
    /// `get_downstream_mining_data`; `BadMessage` for what does not decode;
    /// `UnexpectedMessage` for a kind that the channel does not admit. In
    /// these three cases no router and no handler is called and nothing
    /// changes. Otherwise the router is consulted where a standard channel is
    /// opened and `routing_logic` holds one, and its refusal is returned;
    /// then the handler of the kind runs on the message, with the peer that
    /// the router chose and on the message as the router left it, and what
    /// the handler returns is surfaced to the caller. The routing logic is
    /// as it was unless its router was consulted.
    fn handle_message_mining<R: MiningRouter<Self, Up>>(
        &mut self,
        upstreams: &mut Up,
        message_type: u8,
        payload: &[u8],
        routing_logic: &mut MiningRoutingLogic<R>,
    ) -> (res: Result<SendTo, Error>)
        ensures
            *final(routing_logic) is Proxy <==> *old(routing_logic) is Proxy,
            !downstream_consults(
                downstream_refusal(
                old(self).spec_downstream_mining_data(),
                old(self).spec_channel_type(),
                old(self).spec_work_selection_enabled(),
                message_type,
                payload@,
            ),
                *old(routing_logic) is Proxy,
                message_type,
            ) ==> *final(routing_logic) == *old(routing_logic),
            downstream_refusal(
                old(self).spec_downstream_mining_data(),
                old(self).spec_channel_type(),
                old(self).spec_work_selection_enabled(),
                message_type,
                payload@,
            ) matches Some(e) ==> res == Err::<SendTo, Error>(e) && *final(self) == *old(self)
                && *final(upstreams) == *old(upstreams),
            downstream_refusal(
                old(self).spec_downstream_mining_data(),
                old(self).spec_channel_type(),
                old(self).spec_work_selection_enabled(),
                message_type,
                payload@,
            ) is None && !downstream_consults(
                downstream_refusal(
                old(self).spec_downstream_mining_data(),
                old(self).spec_channel_type(),
                old(self).spec_work_selection_enabled(),
                message_type,
                payload@,
            ),
                *old(routing_logic) is Proxy,
                message_type,
            ) ==> exists|handed: Mining, raw: Result<SendTo, Error>|
                {
                    &&& Mining::spec_decodes_to(message_type, payload@, handed)
                    &&& #[trigger] Self::handled(
                        *old(self),
                        *old(upstreams),
                        handed,
                        None,
                        *final(self),
                        *final(upstreams),
                        raw,
                    )
                    &&& res == spec_surface(raw)
                },
            downstream_consults(
                downstream_refusal(
                old(self).spec_downstream_mining_data(),
                old(self).spec_channel_type(),
                old(self).spec_work_selection_enabled(),
                message_type,
                payload@,
            ),
                *old(routing_logic) is Proxy,
                message_type,
            ) ==> exists|request: Payload, rewritten: Payload, routed: Result<PeerId, Error>|
                {
                    &&& request.bytes@ == payload@
                    &&& #[trigger] R::routed_open_standard_channel(
                        old(routing_logic).spec_router(),
                        *old(self),
                        request,
                        old(self).spec_downstream_mining_data().unwrap(),
                        final(routing_logic).spec_router(),
                        rewritten,
                        routed,
                    )
                    &&& match routed {
                        Err(e) => res == Err::<SendTo, Error>(e) && *final(self) == *old(self)
                            && *final(upstreams) == *old(upstreams),
                        Ok(peer) => exists|raw: Result<SendTo, Error>|
                            {
                                &&& #[trigger] Self::handled(
                                    *old(self),
                                    *old(upstreams),
                                    Mining::OpenStandardMiningChannel(rewritten),
                                    Some(peer),
                                    *final(self),
                                    *final(upstreams),
                                    raw,
                                )
                                &&& res == spec_surface(raw)
                            },
                    }
                },
    {
        let data = match self.get_downstream_mining_data() {
            Ok(data) => data,
            Err(e) => {
                return Err(e);
            },
        };
        let channel_type = self.get_channel_type();
        let work_selection = self.is_work_selection_enabled();
        let m = match Mining::decode(message_type, payload) {
            Ok(m) => m,
            Err(e) => {
                return Err(e);
            },
        };
        if !is_downstream_admissible(channel_type, work_selection, m.message_type()) {
            return Err(Error::UnexpectedMessage);
        }
        let ghost decoded = m;
        let raw = match m {
            Mining::OpenStandardMiningChannel(request) => {
                let mut request = request;
                let ghost asked = request;
                let ghost logic = *routing_logic;
                let routed = match routing_logic {
                    MiningRoutingLogic::NoRouting => None,
                    MiningRoutingLogic::Proxy(router) => Some(
                        router.on_open_standard_channel(&*self, &mut request, &data),
                    ),
                };
                proof {
                    assert(asked.bytes@ == payload@);
                    if logic is Proxy {
                        assert(R::routed_open_standard_channel(
                            logic.spec_router(),
                            *old(self),
                            asked,
                            data,
                            routing_logic.spec_router(),
                            request,
                            routed.unwrap(),
                        ));
                    }
                }
                let selected = match routed {
                    None => None,
                    Some(Ok(peer)) => Some(peer),
                    Some(Err(e)) => {
                        return Err(e);
                    },
                };
                let ghost handed = Mining::OpenStandardMiningChannel(request);
                let raw = self.handle_open_standard_mining_channel(upstreams, request, selected);
                assert(selected is None ==> Mining::spec_decodes_to(message_type, payload@, handed));
                raw
            },
            Mining::OpenExtendedMiningChannel(m) => {
                let raw = self.handle_open_extended_mining_channel(upstreams, m);
                assert(Mining::spec_decodes_to(message_type, payload@, decoded));
                raw
            },
            Mining::UpdateChannel(m) => {
                let raw = self.handle_update_channel(upstreams, m);
                assert(Mining::spec_decodes_to(message_type, payload@, decoded));
                raw
            },
            Mining::SubmitSharesStandard(m) => {
                let raw = self.handle_submit_shares_standard(upstreams, m);
                assert(Mining::spec_decodes_to(message_type, payload@, decoded));
                raw
            },
            Mining::SubmitSharesExtended(m) => {
                let raw = self.handle_submit_shares_extended(upstreams, m);
                assert(Mining::spec_decodes_to(message_type, payload@, decoded));
                raw
            },
            Mining::SetCustomMiningJob(m) => {
                let raw = self.handle_set_custom_mining_job(upstreams, m);
                assert(Mining::spec_decodes_to(message_type, payload@, decoded));
                raw
            },
            _ => {
                return Err(Error::UnexpectedMessage);
            },
        };
        surface(raw)
    }
}

/// The error with which a parser of upstream messages turns a message away
/// before any router or handler is called, if it does: `BadMessage` for what
/// does not decode, `UnexpectedMessage` for a kind that the channel does not
/// admit.
pub open spec fn upstream_refusal(
    channel_type: SupportedChannelTypes,
    work_selection: bool,
    message_type: u8,
    payload: Seq<u8>,
) -> Option<Error> {
    if !Mining::spec_decodable(message_type, payload) {
        Some(Error::BadMessage)
    } else if !upstream_admissible(
        channel_type,
        work_selection,
        MiningType::spec_from_code(message_type).unwrap(),
    ) {
        Some(Error::UnexpectedMessage)
    } else {
        None
    }
}

/// Whether a parser of upstream messages consults its router on a message:
/// the message is not turned away, it tells of an opened standard channel,
/// and the routing logic holds a router.
pub open spec fn upstream_consults(refusal: Option<Error>, routed: bool, message_type: u8) -> bool {
    refusal is None && routed && message_type == MESSAGE_TYPE_OPEN_STANDARD_MINING_CHANNEL_SUCCESS
}

/// Connection-wide parser of the messages of an upstream, implemented by
/// what stands downstream of it. `Down` is the table of downstream peers that
/// the handlers work on.
pub trait ParseUpstreamMiningMessages<Down>: Sized {
    /// The kind of channel that the connection carries: what
    /// `get_channel_type` returns.
    open spec fn spec_channel_type(&self) -> SupportedChannelTypes {
        arbitrary()
    }

    /// Whether the downstream may select its own work: what
    /// `is_work_selection_enabled` returns.
    open spec fn spec_work_selection_enabled(&self) -> bool {
        arbitrary()
    }

    /// What the handler of the kind of `m` may do on `m`: how it may leave
    /// the parser and the downstream table, and what it may return.
    /// `selected` is the downstream that a router chose, where one was
    /// consulted. Unless an implementor says more, a handler may do
    /// anything.
    open spec fn handled(
        pre: Self,
        downstreams_pre: Down,
        m: Mining,
        selected: Option<PeerId>,
        post: Self,
        downstreams_post: Down,
        res: Result<SendTo, Error>,
    ) -> bool {
        true
    }

    fn get_channel_type(&self) -> (t: SupportedChannelTypes)
        ensures
            t == self.spec_channel_type(),
    ;

    fn is_work_selection_enabled(&self) -> (b: bool)
        ensures
            b == self.spec_work_selection_enabled(),
    ;

    fn handle_open_standard_mining_channel_success(
        &mut self,
        downstreams: &mut Down,
        m: Payload,
        remote: Option<PeerId>,
    ) -> (res: Result<SendTo, Error>)
        ensures
            Self::handled(
                *old(self),
                *old(downstreams),
                Mining::OpenStandardMiningChannelSuccess(m),
                remote,
                *final(self),
                *final(downstreams),
                res,
            ),
    ;

    fn handle_open_extended_mining_channel_success(&mut self, downstreams: &mut Down, m: Payload) -> (res: Result<
        SendTo,
        Error,
    >)
        ensures
            Self::handled(
                *old(self),
                *old(downstreams),
                Mining::OpenExtendedMiningChannelSuccess(m),
                None,
                *final(self),
                *final(downstreams),
                res,
            ),
    ;

    fn handle_open_mining_channel_error(&mut self, downstreams: &mut Down, m: Payload) -> (res: Result<
        SendTo,
        Error,
    >)
        ensures
            Self::handled(
                *old(self),
                *old(downstreams),
                Mining::OpenMiningChannelError(m),
                None,
                *final(self),
                *final(downstreams),
                res,
            ),
    ;

    fn handle_update_channel_error(&mut self, downstreams: &mut Down, m: Payload) -> (res: Result<
        SendTo,
        Error,
    >)
        ensures
            Self::handled(
                *old(self),
                *old(downstreams),
                Mining::UpdateChannelError(m),
                None,
                *final(self),
                *final(downstreams),
                res,
            ),
    ;

    fn handle_close_channel(&mut self, downstreams: &mut Down, m: Payload) -> (res: Result<
        SendTo,
        Error,
    >)
        ensures
            Self::handled(
                *old(self),
                *old(downstreams),
                Mining::CloseChannel(m),
                None,
                *final(self),
                *final(downstreams),
                res,
            ),
    ;

    fn handle_set_extranonce_prefix(&mut self, downstreams: &mut Down, m: Payload) -> (res: Result<
        SendTo,
        Error,
    >)
        ensures
            Self::handled(
                *old(self),
                *old(downstreams),
                Mining::SetExtranoncePrefix(m),
                None,
                *final(self),
                *final(downstreams),
                res,
            ),
    ;

    fn handle_submit_shares_success(&mut self, downstreams: &mut Down, m: Payload) -> (res: Result<
        SendTo,
        Error,
    >)
        ensures
            Self::handled(
                *old(self),
                *old(downstreams),
                Mining::SubmitSharesSuccess(m),
                None,
                *final(self),
                *final(downstreams),
                res,
            ),
    ;

    fn handle_submit_shares_error(&mut self, downstreams: &mut Down, m: SubmitSharesError) -> (res: Result<
        SendTo,
        Error,
    >)
        ensures
            Self::handled(
                *old(self),
                *old(downstreams),
                Mining::SubmitSharesError(m),
                None,
                *final(self),
                *final(downstreams),
                res,
            ),
    ;

    fn handle_new_mining_job(&mut self, downstreams: &mut Down, m: Payload) -> (res: Result<
        SendTo,
        Error,
    >)
        ensures
            Self::handled(
                *old(self),
                *old(downstreams),
                Mining::NewMiningJob(m),
                None,
                *final(self),
                *final(downstreams),
                res,
            ),
    ;

    fn handle_new_extended_mining_job(&mut self, downstreams: &mut Down, m: Payload) -> (res: Result<
        SendTo,
        Error,
    >)
        ensures
            Self::handled(
                *old(self),
                *old(downstreams),
                Mining::NewExtendedMiningJob(m),
                None,
                *final(self),
                *final(downstreams),
                res,
            ),
    ;

    fn handle_set_new_prev_hash(&mut self, downstreams: &mut Down, m: Payload) -> (res: Result<
        SendTo,
        Error,
    >)
        ensures
            Self::handled(
                *old(self),
                *old(downstreams),
                Mining::SetNewPrevHash(m),
                None,
                *final(self),
                *final(downstreams),
                res,
            ),
    ;

    fn handle_set_custom_mining_job_success(&mut self, downstreams: &mut Down, m: Payload) -> (res: Result<
        SendTo,
        Error,
    >)
        ensures
            Self::handled(
                *old(self),
                *old(downstreams),
                Mining::SetCustomMiningJobSuccess(m),
                None,
                *final(self),
                *final(downstreams),
                res,
            ),
    ;

    fn handle_set_custom_mining_job_error(&mut self, downstreams: &mut Down, m: Payload) -> (res: Result<
        SendTo,
        Error,
    >)
        ensures
            Self::handled(
                *old(self),
                *old(downstreams),
                Mining::SetCustomMiningJobError(m),
                None,
                *final(self),
                *final(downstreams),
                res,
            ),
    ;

    fn handle_set_target(&mut self, downstreams: &mut Down, m: Payload) -> (res: Result<
        SendTo,
        Error,
    >)
        ensures
            Self::handled(
                *old(self),
                *old(downstreams),
                Mining::SetTarget(m),
                None,
                *final(self),
                *final(downstreams),
                res,
            ),
    ;

    fn handle_reconnect(&mut self, downstreams: &mut Down, m: Payload) -> (res: Result<
        SendTo,
        Error,
    >)
        ensures
            Self::handled(
                *old(self),
                *old(downstreams),
                Mining::Reconnect(m),
                None,
                *final(self),
                *final(downstreams),
                res,
            ),
    ;

    fn handle_set_group_channel(&mut self, downstreams: &mut Down, m: Payload) -> (res: Result<
        SendTo,
        Error,
    >)
        ensures
            Self::handled(
                *old(self),
                *old(downstreams),
                Mining::SetGroupChannel(m),
                None,
                *final(self),
                *final(downstreams),
                res,
            ),
    ;

    /// Parses one message of the upstream and has it handled.
    ///
    /// In this order: `BadMessage` for what does not decode;
    /// `UnexpectedMessage` for a kind that the channel does not admit. In
    /// these two cases no router and no handler is called and nothing
    /// changes. Otherwise the router is consulted where a standard channel
    /// was opened and `routing_logic` holds one, and its refusal is returned;
    /// then the handler of the kind runs on the message, with the peer that
    /// the router chose and on the message as the router left it, and what
    /// the handler returns is surfaced to the caller. The routing logic is
    /// as it was unless its router was consulted.
    fn handle_message_mining<R: MiningRouter<Down, Self>>(
        &mut self,
        downstreams: &mut Down,
        message_type: u8,
        payload: &[u8],
        routing_logic: &mut MiningRoutingLogic<R>,
    ) -> (res: Result<SendTo, Error>)
        ensures
            *final(routing_logic) is Proxy <==> *old(routing_logic) is Proxy,
            !upstream_consults(
                upstream_refusal(
                old(self).spec_channel_type(),
                old(self).spec_work_selection_enabled(),
                message_type,
                payload@,
            ),
                *old(routing_logic) is Proxy,
                message_type,
            ) ==> *final(routing_logic) == *old(routing_logic),
            upstream_refusal(
                old(self).spec_channel_type(),
                old(self).spec_work_selection_enabled(),
                message_type,
                payload@,
            ) matches Some(e) ==> res == Err::<SendTo, Error>(e) && *final(self) == *old(self)
                && *final(downstreams) == *old(downstreams),
            upstream_refusal(
                old(self).spec_channel_type(),
                old(self).spec_work_selection_enabled(),
                message_type,
                payload@,
            ) is None && !upstream_consults(
                upstream_refusal(
                old(self).spec_channel_type(),
                old(self).spec_work_selection_enabled(),
                message_type,
                payload@,
            ),
                *old(routing_logic) is Proxy,
                message_type,
            ) ==> exists|handed: Mining, raw: Result<SendTo, Error>|
                {
                    &&& Mining::spec_decodes_to(message_type, payload@, handed)
                    &&& #[trigger] Self::handled(
                        *old(self),
                        *old(downstreams),
                        handed,
                        None,
                        *final(self),
                        *final(downstreams),
                        raw,
                    )
                    &&& res == spec_surface(raw)
                },
            upstream_consults(
                upstream_refusal(
                old(self).spec_channel_type(),
                old(self).spec_work_selection_enabled(),
                message_type,
                payload@,
            ),
                *old(routing_logic) is Proxy,
                message_type,
            ) ==> exists|request: Payload, rewritten: Payload, routed: Result<PeerId, Error>|
                {
                    &&& request.bytes@ == payload@
                    &&& #[trigger] R::routed_open_standard_channel_success(
                        old(routing_logic).spec_router(),
                        *old(self),
                        request,
                        final(routing_logic).spec_router(),
                        rewritten,
                        routed,
                    )
                    &&& match routed {
                        Err(e) => res == Err::<SendTo, Error>(e) && *final(self) == *old(self)
                            && *final(downstreams) == *old(downstreams),
                        Ok(peer) => exists|raw: Result<SendTo, Error>|
                            {
                                &&& #[trigger] Self::handled(
                                    *old(self),
                                    *old(downstreams),
                                    Mining::OpenStandardMiningChannelSuccess(rewritten),
                                    Some(peer),
                                    *final(self),
                                    *final(downstreams),
                                    raw,
                                )
                                &&& res == spec_surface(raw)
                            },
                    }
                },
    {
        let channel_type = self.get_channel_type();
        let work_selection = self.is_work_selection_enabled();
        let m = match Mining::decode(message_type, payload) {
            Ok(m) => m,
            Err(e) => {
                return Err(e);
            },
        };
        if !is_upstream_admissible(channel_type, work_selection, m.message_type()) {
            return Err(Error::UnexpectedMessage);
        }
        let ghost decoded = m;
        let raw = match m {
            Mining::OpenStandardMiningChannelSuccess(request) => {
                let mut request = request;
                let ghost asked = request;
                let ghost logic = *routing_logic;
                let routed = match routing_logic {
                    MiningRoutingLogic::NoRouting => None,
                    MiningRoutingLogic::Proxy(router) => Some(
                        router.on_open_standard_channel_success(&*self, &mut request),
                    ),
                };
                proof {
                    assert(asked.bytes@ == payload@);
                    if logic is Proxy {
                        assert(R::routed_open_standard_channel_success(
                            logic.spec_router(),
                            *old(self),
                            asked,
                            routing_logic.spec_router(),
                            request,
                            routed.unwrap(),
                        ));
                    }
                }
                let selected = match routed {
                    None => None,
                    Some(Ok(peer)) => Some(peer),
                    Some(Err(e)) => {
                        return Err(e);
                    },
                };
                let ghost handed = Mining::OpenStandardMiningChannelSuccess(request);
                let raw = self.handle_open_standard_mining_channel_success(
                    downstreams,
                    request,
                    selected,
                );
                assert(selected is None ==> Mining::spec_decodes_to(message_type, payload@, handed));
                raw
            },
            Mining::OpenExtendedMiningChannelSuccess(m) => {
                let raw = self.handle_open_extended_mining_channel_success(downstreams, m);
                assert(Mining::spec_decodes_to(message_type, payload@, decoded));
                raw
            },
            Mining::OpenMiningChannelError(m) => {
                let raw = self.handle_open_mining_channel_error(downstreams, m);
                assert(Mining::spec_decodes_to(message_type, payload@, decoded));
                raw
            },
            Mining::UpdateChannelError(m) => {
                let raw = self.handle_update_channel_error(downstreams, m);
                assert(Mining::spec_decodes_to(message_type, payload@, decoded));
                raw
            },
            Mining::CloseChannel(m) => {
                let raw = self.handle_close_channel(downstreams, m);
                assert(Mining::spec_decodes_to(message_type, payload@, decoded));
                raw
            },
            Mining::SetExtranoncePrefix(m) => {
                let raw = self.handle_set_extranonce_prefix(downstreams, m);
                assert(Mining::spec_decodes_to(message_type, payload@, decoded));
                raw
            },
            Mining::SubmitSharesSuccess(m) => {
                let raw = self.handle_submit_shares_success(downstreams, m);
                assert(Mining::spec_decodes_to(message_type, payload@, decoded));
                raw
            },
            Mining::SubmitSharesError(m) => {
                let raw = self.handle_submit_shares_error(downstreams, m);
                assert(Mining::spec_decodes_to(message_type, payload@, decoded));
                raw
            },
            Mining::NewMiningJob(m) => {
                let raw = self.handle_new_mining_job(downstreams, m);
                assert(Mining::spec_decodes_to(message_type, payload@, decoded));
                raw
            },
            Mining::NewExtendedMiningJob(m) => {
                let raw = self.handle_new_extended_mining_job(downstreams, m);
                assert(Mining::spec_decodes_to(message_type, payload@, decoded));
                raw
            },
            Mining::SetNewPrevHash(m) => {
                let raw = self.handle_set_new_prev_hash(downstreams, m);
                assert(Mining::spec_decodes_to(message_type, payload@, decoded));
                raw
            },
            Mining::SetCustomMiningJobSuccess(m) => {
                let raw = self.handle_set_custom_mining_job_success(downstreams, m);
                assert(Mining::spec_decodes_to(message_type, payload@, decoded));
                raw
            },
            Mining::SetCustomMiningJobError(m) => {
                let raw = self.handle_set_custom_mining_job_error(downstreams, m);
                assert(Mining::spec_decodes_to(message_type, payload@, decoded));
                raw
            },
            Mining::SetTarget(m) => {
                let raw = self.handle_set_target(downstreams, m);
                assert(Mining::spec_decodes_to(message_type, payload@, decoded));
                raw
            },
            Mining::Reconnect(m) => {
                let raw = self.handle_reconnect(downstreams, m);
                assert(Mining::spec_decodes_to(message_type, payload@, decoded));
                raw
            },
            Mining::SetGroupChannel(m) => {
                let raw = self.handle_set_group_channel(downstreams, m);
                assert(Mining::spec_decodes_to(message_type, payload@, decoded));
                raw
            },
            _ => {
                return Err(Error::UnexpectedMessage);
            },
        };
        surface(raw)
    }
}

} // verus!
