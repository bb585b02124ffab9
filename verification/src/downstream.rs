//! One connection of a proxy with a downstream node that speaks the mining
//! protocol: a mining device or another proxy.
//!
//! The node keeps the tables of the session: which group each channel belongs
//! to, which channels each group holds, and which upstream announced each
//! job. Upstream peers are named by number and looked up in the table that is
//! handed to the handlers.

use crate::error::Error;
use crate::delivery::{deliveries, spec_deliveries, spec_views, Delivery, DeliveryView};
use crate::handlers::{
    downstream_consults, downstream_refusal, spec_surface, CommonDownstreamData, IsDownstream,
    MiningRouter, MiningRoutingLogic, ParseDownstreamMiningMessages, PeerId, SendTo,
    SupportedChannelTypes,
};
use crate::jobs::{jobs_with_channel_stale, jobs_without_channel, JobEntry, JobTable};
use crate::mining::{Mining, Payload, SubmitSharesError, SubmitSharesStandard};
use crate::wire::{push_le16, push_le32, spec_le16_bytes, spec_le32_bytes};
use std::collections::HashMap;
use vstd::prelude::*;

verus! {

broadcast use vstd::std_specs::hash::group_hash_axioms;

/// A standard channel of a downstream.
#[derive(Debug, Clone, PartialEq, Eq)]
pub struct StandardChannel {
    pub channel_id: u32,
    pub group_id: u32,
    pub target: [u8; 32],
    pub extranonce: Vec<u8>,
}

/// A channel that a downstream has opened.
#[derive(Debug, Clone, PartialEq, Eq)]
pub enum DownstreamChannel {
    Extended(u32),
    Group(u32),
    Standard(StandardChannel),
}

impl DownstreamChannel {
    /// The group of the channel. A group channel is its own group; an
    /// extended channel belongs to none.
    pub open spec fn spec_group_id(self) -> Option<u32> {
        match self {
            DownstreamChannel::Extended(_) => None,
            DownstreamChannel::Group(id) => Some(id),
            DownstreamChannel::Standard(channel) => Some(channel.group_id),
        }
    }

    /// The id of the channel, where the session keeps the channel in its
    /// tables: not for an extended channel.
    pub open spec fn spec_channel_id(self) -> Option<u32> {
        match self {
            DownstreamChannel::Extended(_) => None,
            DownstreamChannel::Group(id) => Some(id),
            DownstreamChannel::Standard(channel) => Some(channel.channel_id),
        }
    }

    pub fn group_id(&self) -> (id: Option<u32>)
        ensures
            id == self.spec_group_id(),
    {
        match self {
            DownstreamChannel::Extended(_) => None,
            DownstreamChannel::Group(id) => Some(*id),
            DownstreamChannel::Standard(channel) => Some(channel.group_id),
        }
    }

    pub fn channel_id(&self) -> (id: Option<u32>)
        ensures
            id == self.spec_channel_id(),
    {
        match self {
            DownstreamChannel::Extended(_) => None,
            DownstreamChannel::Group(id) => Some(*id),
            DownstreamChannel::Standard(channel) => Some(channel.channel_id),
        }
    }
}

/// Where the connection with the downstream stands.
#[derive(Debug)]
pub enum DownstreamMiningNodeStatus {
    /// The connection is not set up yet.
    Initializing,
    /// The connection is set up: what the downstream said of itself, and its
    /// channels by group.
    Paired((CommonDownstreamData, HashMap<u32, Vec<DownstreamChannel>>)),
}

impl DownstreamMiningNodeStatus {
    /// What the downstream said of itself, once the connection is set up.
    pub open spec fn spec_data(self) -> Option<CommonDownstreamData> {
        match self {
            DownstreamMiningNodeStatus::Initializing => None,
            DownstreamMiningNodeStatus::Paired(paired) => Some(paired.0),
        }
    }

    /// The channels of a group, in the order in which they were added.
    pub open spec fn spec_group(self, group_id: u32) -> Seq<DownstreamChannel> {
        match self {
            DownstreamMiningNodeStatus::Initializing => Seq::empty(),
            DownstreamMiningNodeStatus::Paired(paired) => {
                if paired.1@.contains_key(group_id) {
                    paired.1@[group_id]@
                } else {
                    Seq::empty()
                }
            },
        }
    }

    pub fn is_paired(&self) -> (paired: bool)
        ensures
            paired == (*self is Paired),
    {
        match self {
            DownstreamMiningNodeStatus::Initializing => false,
            DownstreamMiningNodeStatus::Paired(_) => true,
        }
    }

    /// Sets the connection up, without channels. Fails with `ProtocolMisuse`,
    /// and changes nothing, where the connection is set up already.
    pub fn pair(&mut self, data: CommonDownstreamData) -> (res: Result<(), Error>)
        ensures
            match res {
                Ok(()) => *old(self) is Initializing && final(self).spec_data() == Some(data)
                    && forall|group_id: u32| #[trigger]
                    final(self).spec_group(group_id) == Seq::<DownstreamChannel>::empty(),
                Err(e) => e == Error::ProtocolMisuse && *old(self) is Paired && *final(self)
                    == *old(self),
            },
    {
        match self {
            DownstreamMiningNodeStatus::Initializing => {
                *self = DownstreamMiningNodeStatus::Paired((data, HashMap::new()));
                Ok(())
            },
            DownstreamMiningNodeStatus::Paired(_) => Err(Error::ProtocolMisuse),
        }
    }

    /// The channels of the downstream, by group, to read or to change. Fails
    /// with `ProtocolMisuse` while the connection is not set up.
    pub fn get_channels(&mut self) -> (res: Result<
        &mut HashMap<u32, Vec<DownstreamChannel>>,
        Error,
    >)
        ensures
            match res {
                Ok(channels) => {
                    &&& *old(self) matches DownstreamMiningNodeStatus::Paired(paired)
                    &&& *channels == paired.1
                    &&& *final(self) == DownstreamMiningNodeStatus::Paired(
                        (paired.0, *final(channels)),
                    )
                },
                Err(e) => e == Error::ProtocolMisuse && *old(self) is Initializing && *final(self)
                    == *old(self),
            },
    {
        match self {
            DownstreamMiningNodeStatus::Initializing => Err(Error::ProtocolMisuse),
            DownstreamMiningNodeStatus::Paired((_, channels)) => Ok(channels),
        }
    }

    /// Why a channel cannot be added, if it cannot: `ProtocolMisuse` while
    /// the connection is not set up, `UnexpectedMessage` for an extended
    /// channel, which belongs to no group.
    pub open spec fn spec_add_channel_refusal(self, channel: DownstreamChannel) -> Option<Error> {
        if self is Initializing {
            Some(Error::ProtocolMisuse)
        } else if channel.spec_group_id() is None {
            Some(Error::UnexpectedMessage)
        } else {
            None
        }
    }

    /// Adds a channel at the end of its group.
    pub fn add_channel(&mut self, channel: DownstreamChannel) -> (res: Result<(), Error>)
        ensures
            match old(self).spec_add_channel_refusal(channel) {
                Some(e) => res == Err::<(), Error>(e) && *final(self) == *old(self),
                None => {
                    &&& res is Ok
                    &&& final(self).spec_data() == old(self).spec_data()
                    &&& forall|group_id: u32| #[trigger]
                        final(self).spec_group(group_id) == (if Some(group_id)
                            == channel.spec_group_id() {
                            old(self).spec_group(group_id).push(channel)
                        } else {
                            old(self).spec_group(group_id)
                        })
                },
            },
    {
        match self {
            DownstreamMiningNodeStatus::Initializing => Err(Error::ProtocolMisuse),
            DownstreamMiningNodeStatus::Paired((_, channels)) => {
                let group_id = match channel.group_id() {
                    Some(group_id) => group_id,
                    None => {
                        return Err(Error::UnexpectedMessage);
                    },
                };
                let mut group = match channels.remove(&group_id) {
                    Some(group) => group,
                    None => Vec::new(),
                };
                group.push(channel);
                channels.insert(group_id, group);
                Ok(())
            },
        }
    }
}

/// The channels of a group once the channel `channel_id` is closed.
pub open spec fn spec_without_channel(channels: Seq<DownstreamChannel>, channel_id: u32) -> Seq<
    DownstreamChannel,
> {
    channels.filter(|channel: DownstreamChannel| channel.spec_channel_id() != Some(channel_id))
}

proof fn lemma_without_channel_step(channels: Seq<DownstreamChannel>, upto: int, channel_id: u32)
    requires
        0 <= upto < channels.len(),
    ensures
        spec_without_channel(channels.take(upto + 1), channel_id) == (if channels[upto].spec_channel_id()
            != Some(channel_id) {
            spec_without_channel(channels.take(upto), channel_id).push(channels[upto])
        } else {
            spec_without_channel(channels.take(upto), channel_id)
        }),
{
    reveal(Seq::filter);
    assert(channels.take(upto + 1).drop_last() =~= channels.take(upto));
}

impl DownstreamMiningNodeStatus {
    /// Takes a closed channel out of its group; the other channels of the
    /// group keep their order. Nothing changes while the connection is not
    /// set up.
    pub fn remove_channel(&mut self, group_id: u32, channel_id: u32)
        ensures
            final(self).spec_data() == old(self).spec_data(),
            forall|g: u32| #[trigger]
                final(self).spec_group(g) == (if g == group_id {
                    spec_without_channel(old(self).spec_group(g), channel_id)
                } else {
                    old(self).spec_group(g)
                }),
    {
        match self {
            DownstreamMiningNodeStatus::Initializing => {
                assert(spec_without_channel(Seq::<DownstreamChannel>::empty(), channel_id)
                    =~= Seq::<DownstreamChannel>::empty()) by {
                    reveal(Seq::filter);
                }
            },
            DownstreamMiningNodeStatus::Paired((_, channels)) => {
                let mut group = match channels.remove(&group_id) {
                    Some(group) => group,
                    None => {
                        assert(spec_without_channel(Seq::<DownstreamChannel>::empty(), channel_id)
                            =~= Seq::<DownstreamChannel>::empty()) by {
                            reveal(Seq::filter);
                        }
                        return ;
                    },
                };
                let ghost before = group@;
                let ghost mut seen: int = 0;
                let mut i: usize = 0;
                assert(spec_without_channel(before.take(0), channel_id) =~= group@.take(0)) by {
                    reveal(Seq::filter);
                }
                while i < group.len()
                    invariant
                        0 <= seen <= before.len(),
                        i <= group@.len(),
                        group@.len() - i == before.len() - seen,
                        group@.take(i as int) == spec_without_channel(before.take(seen), channel_id),
                        group@.skip(i as int) == before.skip(seen),
                    decreases group@.len() - i,
                {
                    proof {
                        lemma_without_channel_step(before, seen, channel_id);
                        assert(group@[i as int] == group@.skip(i as int)[0]);
                        assert(before[seen] == before.skip(seen)[0]);
                    }
                    let ghost current = group@;
                    if group[i].channel_id() == Some(channel_id) {
                        group.remove(i);
                        proof {
                            assert(group@.take(i as int) =~= current.take(i as int));
                            let rest = group@.skip(i as int);
                            let target = before.skip(seen + 1);
                            assert forall|j: int| 0 <= j < rest.len() implies #[trigger] rest[j]
                                == target[j] by {
                                assert(current.skip(i as int)[j + 1] == before.skip(seen)[j + 1]);
                            }
                            assert(rest =~= target);
                        }
                    } else {
                        proof {
                            assert(current.take(i + 1) =~= current.take(i as int).push(
                                current[i as int],
                            ));
                            let rest = current.skip(i + 1);
                            let target = before.skip(seen + 1);
                            assert forall|j: int| 0 <= j < rest.len() implies #[trigger] rest[j]
                                == target[j] by {
                                assert(current.skip(i as int)[j + 1] == before.skip(seen)[j + 1]);
                            }
                            assert(rest =~= target);
                        }
                        i = i + 1;
                    }
                    proof {
                        seen = seen + 1;
                    }
                }
                proof {
                    assert(group@.take(i as int) =~= group@);
                    assert(before.take(seen) =~= before);
                }
                channels.insert(group_id, group);
            },
        }
    }
}

/// What a job dispatcher makes of a share.
#[derive(Debug, Clone, PartialEq, Eq)]
pub enum SendSharesResponse {
    /// The share as the upstream has to see it: with the upstream's job id
    /// and, where they differ, its extranonce bytes.
    Valid(SubmitSharesStandard),
    /// The refusal that goes back to the downstream.
    Invalid(SubmitSharesError),
}

/// Validates the shares of a group and rewrites them for the upstream.
pub trait JobDispatcher {
    /// What the dispatcher makes of a share, as it stands: a dispatcher that
    /// is reasoned about says here what `on_submit_shares` returns.
    open spec fn spec_on_submit_shares(&self, share: SubmitSharesStandard) -> SendSharesResponse {
        arbitrary()
    }

    /// Validates a share and, where it is valid, rewrites it for the
    /// upstream.
    fn on_submit_shares(&self, share: SubmitSharesStandard) -> (response: SendSharesResponse)
        ensures
            response == self.spec_on_submit_shares(share),
    ;
}

/// The dispatcher for an upstream that numbers its jobs as the downstream
/// does: every share is valid and goes on as it came.
#[derive(Debug, Clone, Copy, PartialEq, Eq, Structural)]
pub struct Forwarding;

impl JobDispatcher for Forwarding {
    open spec fn spec_on_submit_shares(&self, share: SubmitSharesStandard) -> SendSharesResponse {
        SendSharesResponse::Valid(share)
    }

    fn on_submit_shares(&self, share: SubmitSharesStandard) -> (response: SendSharesResponse) {
        SendSharesResponse::Valid(share)
    }
}

/// What a proxy keeps of one upstream: the job dispatcher of each group that
/// the upstream serves.
pub struct UpstreamMiningNode<D> {
    pub channel_id_to_job_dispatcher: HashMap<u32, D>,
}

/// The upstream peers of a proxy. A peer is named by its place in the table.
pub struct Upstreams<D> {
    pub peers: Vec<UpstreamMiningNode<D>>,
}

impl<D> Upstreams<D> {
    /// Whether the peer is in the table.
    pub open spec fn spec_has_peer(self, peer: PeerId) -> bool {
        peer < self.peers@.len()
    }

    /// Whether the peer is in the table and has a dispatcher for the group.
    pub open spec fn spec_has_dispatcher(self, peer: PeerId, group_id: u32) -> bool {
        self.spec_has_peer(peer) && self.peers@[peer as int].channel_id_to_job_dispatcher@.contains_key(
            group_id,
        )
    }

    /// A table without peers.
    pub fn new() -> (upstreams: Upstreams<D>)
        ensures
            upstreams.peers@.len() == 0,
    {
        Upstreams { peers: Vec::new() }
    }

    /// Adds a peer that serves no group yet, and gives the name under which
    /// it is found. Fails with `TooLarge`, and changes nothing, where the
    /// names are used up.
    pub fn add_peer(&mut self) -> (res: Result<PeerId, Error>)
        ensures
            match res {
                Ok(peer) => {
                    &&& peer == old(self).peers@.len()
                    &&& final(self).peers@.len() == old(self).peers@.len() + 1
                    &&& forall|i: int|
                        0 <= i < old(self).peers@.len() ==> final(self).peers@[i] == old(
                            self
                        ).peers@[i]
                    &&& final(self).peers@[peer as int].channel_id_to_job_dispatcher@
                        == Map::<u32, D>::empty()
                },
                Err(e) => e == Error::TooLarge && old(self).peers@.len() > u32::MAX && *final(self)
                    == *old(self),
            },
    {
        let n = self.peers.len();
        if n > u32::MAX as usize {
            return Err(Error::TooLarge);
        }
        self.peers.push(UpstreamMiningNode { channel_id_to_job_dispatcher: HashMap::new() });
        Ok(n as u32)
    }

    /// Gives the peer a dispatcher for a group, in place of the one it had.
    /// Fails with `PeerClosed`, and changes nothing, where the peer is not in
    /// the table.
    pub fn set_dispatcher(&mut self, peer: PeerId, group_id: u32, dispatcher: D) -> (res: Result<
        (),
        Error,
    >)
        ensures
            match res {
                Ok(()) => {
                    &&& old(self).spec_has_peer(peer)
                    &&& final(self).peers@.len() == old(self).peers@.len()
                    &&& forall|i: int|
                        0 <= i < old(self).peers@.len() && i != peer ==> final(self).peers@[i]
                            == old(self).peers@[i]
                    &&& final(self).peers@[peer as int].channel_id_to_job_dispatcher@ == old(
                        self
                    ).peers@[peer as int].channel_id_to_job_dispatcher@.insert(
                        group_id,
                        dispatcher,
                    )
                },
                Err(e) => e == Error::PeerClosed && !old(self).spec_has_peer(peer) && *final(self)
                    == *old(self),
            },
    {
        if peer as usize >= self.peers.len() {
            return Err(Error::PeerClosed);
        }
        self.peers[peer as usize].channel_id_to_job_dispatcher.insert(group_id, dispatcher);
        Ok(())
    }
}

/// What the session does with a share once the dispatcher has seen it: a
/// valid share goes to the upstream as a new message, a refusal goes back to
/// the downstream.
pub open spec fn spec_share_directive(peer: PeerId, response: SendSharesResponse) -> SendTo {
    match response {
        SendSharesResponse::Valid(share) => SendTo::RelayNewMessage(
            peer,
            Mining::SubmitSharesStandard(share),
        ),
        SendSharesResponse::Invalid(refusal) => SendTo::Respond(Mining::SubmitSharesError(refusal)),
    }
}

/// Turns the answer of a dispatcher into what the session has to send.
pub fn share_directive(peer: PeerId, response: SendSharesResponse) -> (send_to: SendTo)
    ensures
        send_to == spec_share_directive(peer, response),
{
    match response {
        SendSharesResponse::Valid(share) => SendTo::RelayNewMessage(
            peer,
            Mining::SubmitSharesStandard(share),
        ),
        SendSharesResponse::Invalid(refusal) => SendTo::Respond(Mining::SubmitSharesError(refusal)),
    }
}

/// The answer to a downstream that set the connection up.
#[derive(Debug, Clone, Copy, PartialEq, Eq, Structural)]
pub struct SetupConnectionSuccess {
    pub used_version: u16,
    pub flags: u32,
}

/// The type tag of the message that sets a connection up.
pub const MESSAGE_TYPE_SETUP_CONNECTION: u8 = 0x0;

/// The type tag of the answer to a connection that was set up.
pub const MESSAGE_TYPE_SETUP_CONNECTION_SUCCESS: u8 = 0x1;

impl SetupConnectionSuccess {
    /// The six bytes of the answer: the version and the flags, each
    /// little-endian.
    pub open spec fn spec_to_bytes(self) -> Seq<u8> {
        spec_le16_bytes(self.used_version) + spec_le32_bytes(self.flags)
    }

    /// Encodes the answer.
    pub fn to_bytes(&self) -> (out: Vec<u8>)
        ensures
            out@ == self.spec_to_bytes(),
    {
        let mut out: Vec<u8> = Vec::new();
        push_le16(&mut out, self.used_version);
        push_le32(&mut out, self.flags);
        assert(out@ =~= self.spec_to_bytes());
        out
    }
}

/// What the session sends for what a parser returned: the deliveries of the
/// directive, or the error.
pub open spec fn spec_planned(outcome: Result<SendTo, Error>) -> Result<Seq<DeliveryView>, Error> {
    match outcome {
        Ok(send_to) => spec_deliveries(send_to),
        Err(e) => Err(e),
    }
}

/// What each delivery of a plan holds.
pub open spec fn spec_plan_views(plan: Result<Vec<Delivery>, Error>) -> Result<
    Seq<DeliveryView>,
    Error,
> {
    match plan {
        Ok(deliveries) => Ok(spec_views(deliveries@)),
        Err(e) => Err(e),
    }
}

/// What an upstream says that changes the tables of a session.
#[derive(Debug, Clone, PartialEq, Eq)]
pub enum UpstreamNotice {
    /// The upstream has opened a channel for the downstream.
    ChannelOpened(DownstreamChannel),
    /// A channel is closed.
    ChannelClosed { channel_id: u32 },
    /// The upstream has announced a job under a channel.
    NewJob { channel_id: u32, job_id: u32 },
    /// A new previous-block hash has arrived on a channel.
    NewPrevHash { channel_id: u32 },
}

/// One connection with a downstream node that speaks the mining protocol.
#[derive(Debug)]
pub struct DownstreamMiningNode {
    pub status: DownstreamMiningNodeStatus,
    /// From the id of a channel to the id of its group; a group channel is
    /// its own group.
    pub channel_id_to_group_id: HashMap<u32, u32>,
    pub prev_job_id: Option<u32>,
    /// The jobs that upstreams have announced to the session.
    pub jobs: JobTable,
}

impl DownstreamMiningNode {
    /// The group of each channel that the session knows.
    pub open spec fn spec_groups(self) -> Map<u32, u32> {
        self.channel_id_to_group_id@
    }

    /// The jobs that upstreams have announced to the session.
    pub open spec fn spec_jobs(self) -> Map<u32, JobEntry> {
        self.jobs@
    }

    /// The upstream that announced a job.
    pub open spec fn spec_upstream_from_job_id(self, job_id: u32) -> Option<PeerId> {
        if self.spec_jobs().contains_key(job_id) {
            Some(self.spec_jobs()[job_id].upstream)
        } else {
            None
        }
    }

    /// A node whose connection is not set up: no channel, no job.
    pub fn new() -> (node: DownstreamMiningNode)
        ensures
            node.status is Initializing,
            node.spec_groups() == Map::<u32, u32>::empty(),
            node.spec_jobs() == Map::<u32, JobEntry>::empty(),
            node.prev_job_id is None,
    {
        DownstreamMiningNode {
            status: DownstreamMiningNodeStatus::Initializing,
            channel_id_to_group_id: HashMap::new(),
            prev_job_id: None,
            jobs: JobTable::new(),
        }
    }

    /// How adding a channel leaves the node: where the status refuses the
    /// channel, as it was, with the error of the refusal; else the channel
    /// stands at the end of its group and its id is mapped to the group.
    /// The jobs are not touched.
    pub open spec fn spec_channel_added(
        self,
        channel: DownstreamChannel,
        after: DownstreamMiningNode,
        res: Result<(), Error>,
    ) -> bool {
        &&& after.prev_job_id == self.prev_job_id
        &&& after.spec_jobs() == self.spec_jobs()
        &&& match self.status.spec_add_channel_refusal(channel) {
            Some(e) => res == Err::<(), Error>(e) && after.status == self.status
                && after.spec_groups() == self.spec_groups(),
            None => {
                &&& res is Ok
                &&& after.spec_groups() == self.spec_groups().insert(
                    channel.spec_channel_id().unwrap(),
                    channel.spec_group_id().unwrap(),
                )
                &&& after.status.spec_data() == self.status.spec_data()
                &&& forall|group_id: u32| #[trigger]
                    after.status.spec_group(group_id) == (if Some(group_id)
                        == channel.spec_group_id() {
                        self.status.spec_group(group_id).push(channel)
                    } else {
                        self.status.spec_group(group_id)
                    })
            },
        }
    }

    /// Records a channel that an upstream has opened for the downstream: the
    /// channel joins its group, and its id is mapped to the group.
    ///
    /// Fails as `DownstreamMiningNodeStatus::add_channel` does, and then
    /// changes nothing.
    pub fn add_channel(&mut self, channel: DownstreamChannel) -> (res: Result<(), Error>)
        ensures
            old(self).spec_channel_added(channel, *final(self), res),
    {
        if !self.status.is_paired() {
            return Err(Error::ProtocolMisuse);
        }
        let (channel_id, group_id) = match (channel.channel_id(), channel.group_id()) {
            (Some(channel_id), Some(group_id)) => (channel_id, group_id),
            _ => {
                return Err(Error::UnexpectedMessage);
            },
        };
        self.channel_id_to_group_id.insert(channel_id, group_id);
        self.status.add_channel(channel)
    }

    /// The group of a channel. Fails with `UnknownChannel` exactly for a
    /// channel that the session does not know.
    pub fn group_of(&self, channel_id: u32) -> (res: Result<u32, Error>)
        ensures
            match res {
                Ok(group_id) => self.spec_groups().contains_key(channel_id)
                    && self.spec_groups()[channel_id] == group_id,
                Err(e) => e == Error::UnknownChannel && !self.spec_groups().contains_key(
                    channel_id,
                ),
            },
    {
        match self.channel_id_to_group_id.get(&channel_id) {
            Some(group_id) => Ok(*group_id),
            None => Err(Error::UnknownChannel),
        }
    }

    /// The upstream that announced a job. Fails with `UnknownJob` exactly for
    /// a job that no upstream announced.
    pub fn upstream_from_job_id(&self, job_id: u32) -> (res: Result<PeerId, Error>)
        ensures
            match res {
                Ok(peer) => self.spec_upstream_from_job_id(job_id) == Some(peer),
                Err(e) => e == Error::UnknownJob && self.spec_upstream_from_job_id(job_id)
                    is None,
            },
    {
        match self.jobs.upstream_from_job_id(job_id) {
            Some(peer) => Ok(peer),
            None => Err(Error::UnknownJob),
        }
    }

    /// How the announcement of a job leaves the node: the job is recorded
    /// as fresh, for the upstream and the channel, in place of what was
    /// known of it, and it is the job that the downstream heard of last.
    pub open spec fn spec_job_announced(
        self,
        job_id: u32,
        upstream: PeerId,
        channel_id: u32,
        after: DownstreamMiningNode,
    ) -> bool {
        &&& after.spec_jobs() == self.spec_jobs().insert(
            job_id,
            JobEntry { job_id, upstream, channel_id, stale: false },
        )
        &&& after.prev_job_id == Some(job_id)
        &&& after.status == self.status
        &&& after.spec_groups() == self.spec_groups()
    }

    /// How a new previous-block hash on a channel leaves the node: the jobs
    /// that were announced under the channel are stale, and nothing else
    /// has changed.
    pub open spec fn spec_prev_hash_set(self, channel_id: u32, after: DownstreamMiningNode) -> bool {
        &&& after.spec_jobs() == jobs_with_channel_stale(self.spec_jobs(), channel_id)
        &&& after.prev_job_id == self.prev_job_id
        &&& after.status == self.status
        &&& after.spec_groups() == self.spec_groups()
    }

    /// How the closing of a channel leaves the node: for a channel that the
    /// session does not know, as it was, with `UnknownChannel`; else without
    /// the group of the channel, without the jobs that were last announced
    /// under it, and without the channel among the channels of its group.
    pub open spec fn spec_channel_closed(
        self,
        channel_id: u32,
        after: DownstreamMiningNode,
        res: Result<(), Error>,
    ) -> bool {
        &&& after.prev_job_id == self.prev_job_id
        &&& after.status.spec_data() == self.status.spec_data()
        &&& if self.spec_groups().contains_key(channel_id) {
            &&& res is Ok
            &&& after.spec_groups() == self.spec_groups().remove(channel_id)
            &&& after.spec_jobs() == jobs_without_channel(self.spec_jobs(), channel_id)
            &&& forall|g: u32| #[trigger]
                after.status.spec_group(g) == (if g == self.spec_groups()[channel_id] {
                    spec_without_channel(self.status.spec_group(g), channel_id)
                } else {
                    self.status.spec_group(g)
                })
        } else {
            &&& res == Err::<(), Error>(Error::UnknownChannel)
            &&& after.spec_groups() == self.spec_groups()
            &&& after.spec_jobs() == self.spec_jobs()
            &&& after.status == self.status
        }
    }

    /// Records that `upstream` announced a job under a channel. The job is
    /// fresh, and it is the job that the downstream heard of last.
    pub fn on_new_job(&mut self, job_id: u32, upstream: PeerId, channel_id: u32)
        ensures
            old(self).spec_job_announced(job_id, upstream, channel_id, *final(self)),
    {
        self.jobs.record(job_id, upstream, channel_id);
        self.prev_job_id = Some(job_id);
    }

    /// A new previous-block hash has arrived on a channel: the jobs that were
    /// announced under it are stale from now on. Their shares are still
    /// translated.
    pub fn on_set_new_prev_hash(&mut self, channel_id: u32)
        ensures
            old(self).spec_prev_hash_set(channel_id, *final(self)),
    {
        self.jobs.invalidate_channel(channel_id);
    }

    /// A channel is closed: the session forgets its group and the jobs that
    /// were last announced under it, and takes it out of the channels of the
    /// group. Fails with `UnknownChannel`, and changes nothing, for a channel
    /// that the session does not know.
    pub fn on_close_channel(&mut self, channel_id: u32) -> (res: Result<(), Error>)
        ensures
            old(self).spec_channel_closed(channel_id, *final(self), res),
    {
        match self.channel_id_to_group_id.remove(&channel_id) {
            Some(group_id) => {
                self.jobs.remove_channel(channel_id);
                self.status.remove_channel(group_id, channel_id);
                Ok(())
            },
            None => {
                assert(self.channel_id_to_group_id@ =~= old(self).channel_id_to_group_id@);
                Err(Error::UnknownChannel)
            },
        }
    }

    /// How a notice of an upstream leaves the node, by the kind of the
    /// notice.
    pub open spec fn spec_noticed(
        self,
        upstream: PeerId,
        notice: UpstreamNotice,
        after: DownstreamMiningNode,
        res: Result<(), Error>,
    ) -> bool {
        match notice {
            UpstreamNotice::ChannelOpened(channel) => self.spec_channel_added(channel, after, res),
            UpstreamNotice::ChannelClosed { channel_id } => self.spec_channel_closed(
                channel_id,
                after,
                res,
            ),
            UpstreamNotice::NewJob { channel_id, job_id } => res is Ok && self.spec_job_announced(
                job_id,
                upstream,
                channel_id,
                after,
            ),
            UpstreamNotice::NewPrevHash { channel_id } => res is Ok && self.spec_prev_hash_set(
                channel_id,
                after,
            ),
        }
    }

    /// Keeps the tables of the session up to date with what an upstream
    /// says: an opened channel is added, a closed channel is forgotten with
    /// its jobs, a new job is recorded for the upstream, and a new
    /// previous-block hash makes the jobs of its channel stale.
    pub fn on_upstream_notice(&mut self, upstream: PeerId, notice: UpstreamNotice) -> (res: Result<
        (),
        Error,
    >)
        ensures
            old(self).spec_noticed(upstream, notice, *final(self), res),
    {
        match notice {
            UpstreamNotice::ChannelOpened(channel) => self.add_channel(channel),
            UpstreamNotice::ChannelClosed { channel_id } => self.on_close_channel(channel_id),
            UpstreamNotice::NewJob { channel_id, job_id } => {
                self.on_new_job(job_id, upstream, channel_id);
                Ok(())
            },
            UpstreamNotice::NewPrevHash { channel_id } => {
                self.on_set_new_prev_hash(channel_id);
                Ok(())
            },
        }
    }

    /// Why a share cannot be handed to a dispatcher, if it cannot: in this
    /// order, `UnknownChannel` for a channel that the session does not know,
    /// `UnknownJob` for a job that no upstream announced, `PeerClosed` for an
    /// upstream that is not in the table, `UnknownChannel` where the
    /// upstream has no dispatcher for the group of the channel.
    pub open spec fn spec_share_refusal<D>(
        self,
        upstreams: Upstreams<D>,
        share: SubmitSharesStandard,
    ) -> Option<Error> {
        if !self.spec_groups().contains_key(share.channel_id) {
            Some(Error::UnknownChannel)
        } else {
            match self.spec_upstream_from_job_id(share.job_id) {
                None => Some(Error::UnknownJob),
                Some(peer) => {
                    if !upstreams.spec_has_peer(peer) {
                        Some(Error::PeerClosed)
                    } else if !upstreams.spec_has_dispatcher(
                        peer,
                        self.spec_groups()[share.channel_id],
                    ) {
                        Some(Error::UnknownChannel)
                    } else {
                        None
                    }
                },
            }
        }
    }

    /// The dispatcher that is asked for a share: on the upstream that
    /// announced the job of the share, the dispatcher of the group of the
    /// channel of the share.
    pub open spec fn spec_share_dispatcher<D>(
        self,
        upstreams: Upstreams<D>,
        share: SubmitSharesStandard,
    ) -> D {
        let peer = self.spec_upstream_from_job_id(share.job_id).unwrap();
        let group_id = self.spec_groups()[share.channel_id];
        upstreams.peers@[peer as int].channel_id_to_job_dispatcher@[group_id]
    }

    /// What translating a share gives: the error for which it cannot be
    /// handed to a dispatcher, or else the directive for what the dispatcher
    /// that is asked makes of the share as it came, towards the upstream
    /// that announced the job.
    pub open spec fn spec_share_translation<D: JobDispatcher>(
        self,
        upstreams: Upstreams<D>,
        share: SubmitSharesStandard,
    ) -> Result<SendTo, Error> {
        match self.spec_share_refusal(upstreams, share) {
            Some(e) => Err(e),
            None => Ok(
                spec_share_directive(
                    self.spec_upstream_from_job_id(share.job_id).unwrap(),
                    self.spec_share_dispatcher(upstreams, share).spec_on_submit_shares(share),
                ),
            ),
        }
    }

    /// Takes the first message of a connection, which has to set the
    /// connection up, with the outcome of the setup.
    ///
    /// Fails with `UnexpectedMessage`, and changes nothing, for a message of
    /// another type; otherwise it does what `handle_setup_connection` does.
    pub fn on_first_message(
        &mut self,
        message_type: u8,
        result: Option<Result<(CommonDownstreamData, SetupConnectionSuccess), Error>>,
    ) -> (res: Result<SetupConnectionSuccess, Error>)
        ensures
            final(self).prev_job_id == old(self).prev_job_id,
            final(self).spec_groups() == old(self).spec_groups(),
            final(self).spec_jobs() == old(self).spec_jobs(),
            message_type != MESSAGE_TYPE_SETUP_CONNECTION ==> res == Err::<
                SetupConnectionSuccess,
                Error,
            >(Error::UnexpectedMessage) && final(self).status == old(self).status,
            message_type == MESSAGE_TYPE_SETUP_CONNECTION ==> match result {
                Some(Ok((data, message))) if old(self).status is Initializing => {
                    &&& res == Ok::<SetupConnectionSuccess, Error>(message)
                    &&& final(self).status.spec_data() == Some(data)
                },
                Some(Err(e)) => res == Err::<SetupConnectionSuccess, Error>(e) && final(
                    self
                ).status == old(self).status,
                _ => res == Err::<SetupConnectionSuccess, Error>(Error::ProtocolMisuse)
                    && final(self).status == old(self).status,
            },
    {
        if message_type != MESSAGE_TYPE_SETUP_CONNECTION {
            return Err(Error::UnexpectedMessage);
        }
        self.handle_setup_connection(result)
    }

    /// The error with which the node turns a message of the downstream away
    /// before any router or handler is called, if it does. The node carries
    /// group channels, and the downstream cannot select its own work.
    pub open spec fn spec_next_refusal(self, message_type: u8, payload: Seq<u8>) -> Option<Error> {
        downstream_refusal(
            self.spec_downstream_mining_data(),
            SupportedChannelTypes::Group,
            false,
            message_type,
            payload,
        )
    }

    /// What the handler of the kind of `m` returns on `m`. A request for a
    /// standard channel is relayed as it came to the upstream that the
    /// router chose, and is unexpected where none was chosen. A share is
    /// translated. Every other message is unexpected: the proxy has no
    /// extended channels and no custom jobs, and it does not update
    /// channels.
    pub open spec fn spec_handled_result<D: JobDispatcher>(
        self,
        upstreams: Upstreams<D>,
        m: Mining,
        selected: Option<PeerId>,
    ) -> Result<SendTo, Error> {
        match m {
            Mining::OpenStandardMiningChannel(_) => match selected {
                Some(peer) => Ok(SendTo::RelaySameMessage(peer)),
                None => Err(Error::UnexpectedMessage),
            },
            Mining::SubmitSharesStandard(share) => self.spec_share_translation(upstreams, share),
            _ => Err(Error::UnexpectedMessage),
        }
    }

    /// Parses a message of the downstream and plans what the session sends
    /// for it: where the parser turns the message away, its error; where the
    /// router refuses a request for a standard channel, the error of the
    /// router; else what the directive of the handler asks for, in order. A
    /// request for a standard channel goes, as it came, to the upstream that
    /// the router chose.
    ///
    /// Neither the node nor the table of upstreams is changed.
    pub fn next<D: JobDispatcher, R: MiningRouter<DownstreamMiningNode, Upstreams<D>>>(
        &mut self,
        upstreams: &mut Upstreams<D>,
        message_type: u8,
        payload: &[u8],
        routing_logic: &mut MiningRoutingLogic<R>,
    ) -> (res: Result<Vec<Delivery>, Error>)
        ensures
            *final(self) == *old(self),
            *final(upstreams) == *old(upstreams),
            *final(routing_logic) is Proxy <==> *old(routing_logic) is Proxy,
            !downstream_consults(
                old(self).spec_next_refusal(message_type, payload@),
                *old(routing_logic) is Proxy,
                message_type,
            ) ==> *final(routing_logic) == *old(routing_logic),
            old(self).spec_next_refusal(message_type, payload@) matches Some(e) ==> res == Err::<
                Vec<Delivery>,
                Error,
            >(e),
            old(self).spec_next_refusal(message_type, payload@) is None && !downstream_consults(
                old(self).spec_next_refusal(message_type, payload@),
                *old(routing_logic) is Proxy,
                message_type,
            ) ==> exists|handed: Mining|
                {
                    &&& #[trigger] Mining::spec_decodes_to(message_type, payload@, handed)
                    &&& spec_plan_views(res) == spec_planned(
                        spec_surface(old(self).spec_handled_result(*old(upstreams), handed, None)),
                    )
                },
            downstream_consults(
                old(self).spec_next_refusal(message_type, payload@),
                *old(routing_logic) is Proxy,
                message_type,
            ) ==> exists|request: Payload, rewritten: Payload, routed: Result<PeerId, Error>|
                {
                    &&& request.bytes@ == payload@
                    &&& #[trigger] R::routed_open_standard_channel(
                        old(routing_logic).spec_router(),
                        *old(self),
                        request,
                        old(self).spec_downstream_mining_data().unwrap(),
                        final(routing_logic).spec_router(),
                        rewritten,
                        routed,
                    )
                    &&& match routed {
                        Err(e) => res == Err::<Vec<Delivery>, Error>(e),
                        Ok(peer) => spec_plan_views(res) == Ok::<Seq<DeliveryView>, Error>(
                            seq![DeliveryView::RelaySameMessage(peer)],
                        ),
                    }
                },
    {
        let outcome = self.handle_message_mining(upstreams, message_type, payload, routing_logic);
        match outcome {
            Ok(send_to) => deliveries(&send_to),
            Err(e) => Err(e),
        }
    }

    /// What the node answers when it is asked to start: while the
    /// connection is not set up, `ProtocolMisuse`; once it is, the answer
    /// that the downstream is owed.
    pub fn start(&self, setup_connection_success: SetupConnectionSuccess) -> (res: Result<
        SetupConnectionSuccess,
        Error,
    >)
        ensures
            res == (if self.status is Paired {
                Ok::<SetupConnectionSuccess, Error>(setup_connection_success)
            } else {
                Err::<SetupConnectionSuccess, Error>(Error::ProtocolMisuse)
            }),
    {
        if self.status.is_paired() {
            Ok(setup_connection_success)
        } else {
            Err(Error::ProtocolMisuse)
        }
    }

    /// Takes the outcome of the setup of the connection: on success the node
    /// is paired with what the downstream said of itself, and the answer is
    /// handed back to be sent.
    ///
    /// Fails with `ProtocolMisuse` where there is no outcome or the node is
    /// paired already, and with the error of a setup that failed; it then
    /// changes nothing.
    pub fn handle_setup_connection(
        &mut self,
        result: Option<Result<(CommonDownstreamData, SetupConnectionSuccess), Error>>,
    ) -> (res: Result<SetupConnectionSuccess, Error>)
        ensures
            final(self).prev_job_id == old(self).prev_job_id,
            final(self).spec_groups() == old(self).spec_groups(),
            final(self).spec_jobs() == old(self).spec_jobs(),
            match result {
                None => res == Err::<SetupConnectionSuccess, Error>(Error::ProtocolMisuse)
                    && final(self).status == old(self).status,
                Some(Err(e)) => res == Err::<SetupConnectionSuccess, Error>(e)
                    && final(self).status == old(self).status,
                Some(Ok((data, message))) => {
                    if old(self).status is Paired {
                        res == Err::<SetupConnectionSuccess, Error>(Error::ProtocolMisuse)
                            && final(self).status == old(self).status
                    } else {
                        &&& res == Ok::<SetupConnectionSuccess, Error>(message)
                        &&& final(self).status.spec_data() == Some(data)
                        &&& forall|group_id: u32| #[trigger]
                            final(self).status.spec_group(group_id) == Seq::<
                                DownstreamChannel,
                            >::empty()
                    }
                },
            },
    {
        match result {
            None => Err(Error::ProtocolMisuse),
            Some(Err(e)) => Err(e),
            Some(Ok((data, message))) => {
                match self.status.pair(data) {
                    Ok(()) => Ok(message),
                    Err(e) => Err(e),
                }
            },
        }
    }
}

impl IsDownstream for DownstreamMiningNode {
    open spec fn spec_downstream_mining_data(&self) -> Result<CommonDownstreamData, Error> {
        match self.status.spec_data() {
            Some(data) => Ok(data),
            None => Err(Error::ProtocolMisuse),
        }
    }

    /// What the downstream said of itself. Fails with `ProtocolMisuse` while
    /// the connection is not set up.
    fn get_downstream_mining_data(&self) -> (res: Result<CommonDownstreamData, Error>) {
        match &self.status {
            DownstreamMiningNodeStatus::Initializing => Err(Error::ProtocolMisuse),
            DownstreamMiningNodeStatus::Paired((settings, _)) => Ok(*settings),
        }
    }
}

/// The proxy stands upstream of the node: it parses what the downstream
/// sends. It carries group channels, and the downstream cannot select its
/// own work.
impl<D: JobDispatcher> ParseDownstreamMiningMessages<Upstreams<D>> for DownstreamMiningNode {
    open spec fn spec_channel_type(&self) -> SupportedChannelTypes {
        SupportedChannelTypes::Group
    }

    open spec fn spec_work_selection_enabled(&self) -> bool {
        false
    }

    /// No handler changes the node or the table, and each returns what
    /// `spec_handled_result` says.
    open spec fn handled(
        pre: Self,
        upstreams_pre: Upstreams<D>,
        m: Mining,
        selected: Option<PeerId>,
        post: Self,
        upstreams_post: Upstreams<D>,
        res: Result<SendTo, Error>,
    ) -> bool {
        &&& post == pre
        &&& upstreams_post == upstreams_pre
        &&& res == pre.spec_handled_result(upstreams_pre, m, selected)
    }

    fn get_channel_type(&self) -> (t: SupportedChannelTypes) {
        SupportedChannelTypes::Group
    }

    fn is_work_selection_enabled(&self) -> (b: bool) {
        false
    }

    fn handle_open_standard_mining_channel(
        &mut self,
        upstreams: &mut Upstreams<D>,
        m: Payload,
        up: Option<PeerId>,
    ) -> (res: Result<SendTo, Error>) {
        match up {
            Some(peer) => Ok(SendTo::RelaySameMessage(peer)),
            None => Err(Error::UnexpectedMessage),
        }
    }

    fn handle_open_extended_mining_channel(&mut self, upstreams: &mut Upstreams<D>, m: Payload) -> (res:
        Result<SendTo, Error>) {
        Err(Error::UnexpectedMessage)
    }

    fn handle_update_channel(&mut self, upstreams: &mut Upstreams<D>, m: Payload) -> (res: Result<
        SendTo,
        Error,
    >) {
        Err(Error::UnexpectedMessage)
    }

    /// Translates a share: finds the group of its channel and the upstream
    /// that announced its job, and has the dispatcher of the group on that
    /// upstream validate and rewrite it. The dispatcher is asked once, with
    /// the share as it came, and what it answers decides what is sent.
    ///
    /// A message for an upstream goes to the upstream that announced the job
    /// of the share, and to no other.
    fn handle_submit_shares_standard(
        &mut self,
        upstreams: &mut Upstreams<D>,
        m: SubmitSharesStandard,
    ) -> (res: Result<SendTo, Error>)
        ensures
            res == old(self).spec_share_translation(*old(upstreams), m),
            res matches Ok(SendTo::RelayNewMessage(peer, _)) ==> old(
                self
            ).spec_upstream_from_job_id(m.job_id) == Some(peer),
            res matches Ok(send_to) ==> send_to is RelayNewMessage || send_to is Respond,
    {
        let group_id = match self.group_of(m.channel_id) {
            Ok(group_id) => group_id,
            Err(e) => {
                return Err(e);
            },
        };
        let peer = match self.upstream_from_job_id(m.job_id) {
            Ok(peer) => peer,
            Err(e) => {
                return Err(e);
            },
        };
        if peer as usize >= upstreams.peers.len() {
            return Err(Error::PeerClosed);
        }
        match upstreams.peers[peer as usize].channel_id_to_job_dispatcher.get(&group_id) {
            Some(dispatcher) => {
                let response = dispatcher.on_submit_shares(m);
                Ok(share_directive(peer, response))
            },
            None => Err(Error::UnknownChannel),
        }
    }

    fn handle_submit_shares_extended(&mut self, upstreams: &mut Upstreams<D>, m: Payload) -> (res:
        Result<SendTo, Error>) {
        Err(Error::UnexpectedMessage)
    }

    fn handle_set_custom_mining_job(&mut self, upstreams: &mut Upstreams<D>, m: Payload) -> (res:
        Result<SendTo, Error>) {
        Err(Error::UnexpectedMessage)
    }
}

/// Whatever the tables hold and whatever the dispatcher answers: the share
/// is handed on exactly when nothing refuses it, and then as what the
/// dispatcher of its group on the announcing upstream makes of it. What goes
/// upstream is the rewritten share, to the upstream that announced the job of
/// the share; what goes back to the downstream instead is the refusal of the
/// dispatcher. Neither the node nor the table changes.
pub proof fn lemma_share_goes_to_announcing_upstream<D: JobDispatcher>(
    node: DownstreamMiningNode,
    upstreams: Upstreams<D>,
    share: SubmitSharesStandard,
    after: DownstreamMiningNode,
    upstreams_after: Upstreams<D>,
    raw: Result<SendTo, Error>,
)
    requires
        <DownstreamMiningNode as ParseDownstreamMiningMessages<Upstreams<D>>>::handled(
            node,
            upstreams,
            Mining::SubmitSharesStandard(share),
            None,
            after,
            upstreams_after,
            raw,
        ),
    ensures
        after == node,
        upstreams_after == upstreams,
        raw is Ok <==> node.spec_share_refusal(upstreams, share) is None,
        raw matches Err(e) ==> node.spec_share_refusal(upstreams, share) == Some(e),
        raw matches Ok(send_to) ==> match node.spec_share_dispatcher(
            upstreams,
            share,
        ).spec_on_submit_shares(share) {
            SendSharesResponse::Valid(rewritten) => send_to == SendTo::RelayNewMessage(
                node.spec_upstream_from_job_id(share.job_id).unwrap(),
                Mining::SubmitSharesStandard(rewritten),
            ),
            SendSharesResponse::Invalid(refusal) => send_to == SendTo::Respond(
                Mining::SubmitSharesError(refusal),
            ),
        },
{
}

} // verus!
