//! What holds of a channel over its whole life, whatever requests it gets.

use crate::channel::{before_funding, Channel};
use crate::channel_id::zero_id;
use crate::crypto::funding_script_pubkey;
use crate::params::ChannelParams;
use crate::rpc::CreateChannelView;
use crate::commitment::obscuring_factor_of;
use crate::daemon_id::Address;
use crate::message::{AcceptChannel, Messages};
use crate::params::ChannelNegotiationError;
use crate::rpc::{ChannelState, ErrorView, RequestView, Sent, ServiceBus, Transfer};
use vstd::prelude::*;

verus! {

/// How far a channel has come.
pub open spec fn rank(state: ChannelState) -> int {
    match state {
        ChannelState::Proposed => 0,
        ChannelState::Accepted => 1,
        ChannelState::FundingCreated => 2,
        ChannelState::Funded => 3,
        ChannelState::Locked => 4,
        ChannelState::Operational => 5,
        ChannelState::Closing => 6,
        ChannelState::Closed => 7,
    }
}

/// Whether a channel can be in state `b` right after it was in state `a`:
/// it stays, or it takes the next step of its establishment. A funded
/// channel may come into use at once, if this side has locked it already.
pub open spec fn moves(a: ChannelState, b: ChannelState) -> bool {
    ||| a == b
    ||| (a is Proposed && b is Accepted)
    ||| (a is Accepted && b is FundingCreated)
    ||| (a is FundingCreated && b is Funded)
    ||| (a is Funded && (b is Locked || b is Operational))
    ||| (a is Locked && b is Operational)
}

/// Whether the channel can go from the state at `i` to the one after it.
pub open spec fn steps(states: Seq<ChannelState>, i: int) -> bool {
    moves(states[i], states[i + 1])
}

/// Whether `states` are the states of a channel from its start on, one
/// after the other.
pub open spec fn is_history(states: Seq<ChannelState>) -> bool {
    &&& states.len() > 0
    &&& states[0] is Proposed
    &&& forall|i: int| 0 <= i < states.len() - 1 ==> #[trigger] steps(states, i)
}

/// A handled request moves the channel by one step at most; one that is
/// turned down leaves the channel where it is, and changes at most whom the
/// daemon reports to and which connection daemon it talks to.
pub proof fn lemma_handled_moves(
    c: Channel,
    bus: ServiceBus,
    source: Address,
    request: RequestView,
    next: Channel,
    sent: Seq<Sent>,
    result: Result<(), ErrorView>,
)
    requires
        c.handled(bus, source, request, next, sent, result),
    ensures
        moves(c.state, next.state),
        result is Err ==> c == (Channel {
            enquirer: c.enquirer,
            peer_service: c.peer_service,
            remote_peer: c.remote_peer,
            ..next
        }),
{
}

/// A history that has come as far as `r`, for `r` up to `Funded`, has been
/// exactly as far as `r` before or now.
proof fn lemma_passed(states: Seq<ChannelState>, n: int, r: int) -> (i: int)
    requires
        is_history(states),
        0 <= n < states.len(),
        1 <= r <= 3,
        rank(states[n]) >= r,
    ensures
        0 <= i <= n,
        rank(states[i]) == r,
    decreases n,
{
    if rank(states[n]) == r {
        n
    } else {
        assert(n > 0);
        assert(steps(states, n - 1));
        lemma_passed(states, n - 1, r)
    }
}

/// A channel comes into use only after it was accepted, then had its
/// funding created, then was funded: no sequence of requests takes it from
/// `Proposed` to `Operational` past one of these.
pub proof fn lemma_operational_was_established(states: Seq<ChannelState>)
    requires
        is_history(states),
        states.last() is Operational,
    ensures
        exists|i: int, j: int, k: int|
            0 < i < j < k < states.len() - 1 && #[trigger] states[i] is Accepted
                && #[trigger] states[j] is FundingCreated && #[trigger] states[k] is Funded,
{
    let n = states.len() - 1;
    let k = lemma_passed(states, n, 3);
    let j = lemma_passed(states, k, 2);
    let i = lemma_passed(states, j, 1);
    assert(states[i] is Accepted && states[j] is FundingCreated && states[k] is Funded);
}

/// Of two `accept_channel` in a row, the first completes the negotiation
/// and the second is turned down: the channel is accepted once, and stays
/// as the first left it.
pub proof fn lemma_accepted_once(
    c: Channel,
    first: AcceptChannel,
    after_first: Channel,
    sent_first: Seq<Sent>,
    second: AcceptChannel,
    after_second: Channel,
    sent_second: Seq<Sent>,
    result: Result<(), ErrorView>,
)
    requires
        c.msg_handled(
            RequestView::PeerMessage(Messages::AcceptChannel(first)),
            after_first,
            sent_first,
            Ok(()),
        ),
        after_first.msg_handled(
            RequestView::PeerMessage(Messages::AcceptChannel(second)),
            after_second,
            sent_second,
            result,
        ),
    ensures
        c.state is Proposed,
        after_first.state is Accepted,
        result == Err::<(), ErrorView>(
            ErrorView::Negotiation(ChannelNegotiationError::UnexpectedState(ChannelState::Accepted)),
        ),
        after_second == after_first,
{
}

/// Whether the payment `req`, asked by anyone, took the channel from `c` to
/// `next` and was not turned down.
pub open spec fn paid_step(c: Channel, req: Transfer, next: Channel) -> bool {
    exists|source: Address, sent: Seq<Sent>| #[trigger]
        c.ctl_handled(source, RequestView::Transfer(req), next, sent, Ok(()))
}

/// Whether `channels` are the values of a channel before and after each of
/// the payments `requests`, none of which was turned down.
pub open spec fn is_paid_run(channels: Seq<Channel>, requests: Seq<Transfer>) -> bool {
    &&& channels.len() == requests.len() + 1
    &&& forall|i: int|
        0 <= i < requests.len() ==> paid_step(#[trigger] channels[i], requests[i], channels[i + 1])
}

/// Payments leave the value of the funding output alone: after any run of
/// payments, both sides together hold what they held before.
pub proof fn lemma_payments_keep_capacity(channels: Seq<Channel>, requests: Seq<Transfer>)
    requires
        is_paid_run(channels, requests),
    ensures
        channels.last().capacity() == channels[0].capacity(),
    decreases requests.len(),
{
    if requests.len() > 0 {
        let n = requests.len() - 1;
        let shorter = channels.drop_last();
        assert(is_paid_run(shorter, requests.drop_last())) by {
            assert forall|i: int| 0 <= i < requests.drop_last().len() implies paid_step(
                #[trigger] shorter[i],
                requests.drop_last()[i],
                shorter[i + 1],
            ) by {
                assert(paid_step(channels[i], requests[i], channels[i + 1]));
            }
        }
        lemma_payments_keep_capacity(shorter, requests.drop_last());
        assert(paid_step(channels[n], requests[n], channels[n + 1]));
        assert(shorter.last() == channels[n]);
        assert(shorter[0] == channels[0]);
    }
}

/// What a proposal funds is what both sides hold together from then on.
pub proof fn lemma_capacity_is_funding(c: Channel, req: crate::message::OpenChannel)
    ensures
        c.proposing(req) matches Ok(next) ==> next.capacity() == req.funding_satoshis,
        c.accepting(req) matches Ok(next) ==> next.capacity() == req.funding_satoshis,
{
}

/// No request changes what a channel holds once it is accepted, nor its
/// obscuring factor once it has its funding; and no request takes the
/// commitment number back.
pub proof fn lemma_handled_keeps(
    c: Channel,
    bus: ServiceBus,
    source: Address,
    request: RequestView,
    next: Channel,
    sent: Seq<Sent>,
    result: Result<(), ErrorView>,
)
    requires
        c.wf(),
        c.handled(bus, source, request, next, sent, result),
    ensures
        !(c.state is Proposed) ==> next.capacity() == c.capacity(),
        !before_funding(c.state) ==> next.obscuring_factor == c.obscuring_factor,
        !before_funding(c.state) ==> next.channel_id == c.channel_id && next.identity == c.identity,
        next.commitment_number >= c.commitment_number,
{
}

/// Both sides of a channel compute the same obscuring factor when they take
/// the funding: that of the opener's payment basepoint followed by the
/// responder's.
pub proof fn lemma_obscuring_factor_agrees(
    opener: Channel,
    opener_funded: Channel,
    responder: Channel,
    responder_funded: Channel,
)
    requires
        opener.is_originator,
        !responder.is_originator,
        opener.local_keys.payment_basepoint == responder.remote_keys.payment_basepoint,
        opener.remote_keys.payment_basepoint == responder.local_keys.payment_basepoint,
        opener.funded_as(opener_funded),
        responder.funded_as(responder_funded),
    ensures
        opener_funded.obscuring_factor == responder_funded.obscuring_factor,
        opener_funded.obscuring_factor == obscuring_factor_of(
            opener.local_keys.payment_basepoint@,
            responder.local_keys.payment_basepoint@,
        ),
{
}

/// Whether `b` is the channel of `a` as its other side holds it: what is
/// local to one is remote to the other.
pub open spec fn mirrored(a: Channel, b: Channel) -> bool {
    &&& a.local_keys == b.remote_keys
    &&& a.remote_keys == b.local_keys
    &&& a.local_capacity == b.remote_capacity
    &&& a.remote_capacity == b.local_capacity
    &&& a.params.to_self_delay == b.params.to_self_delay
    &&& a.funding_outpoint == b.funding_outpoint
    &&& a.commitment_number == b.commitment_number
    &&& a.obscuring_factor == b.obscuring_factor
}

/// The commitment transaction that one side signs for the other is the one
/// that the other side holds as its own: the digest under which a signature
/// is made is the digest under which it is verified.
pub proof fn lemma_sides_agree_on_commitment(a: Channel, b: Channel)
    requires
        mirrored(a, b),
    ensures
        a.commitment_digest(true) == b.commitment_digest(false),
        a.commitment_digest(false) == b.commitment_digest(true),
{
    crate::keys::lemma_key_length(a.local_keys.funding_pubkey);
    crate::keys::lemma_key_length(a.remote_keys.funding_pubkey);
    crate::crypto::lemma_funding_script_is_shared(
        a.local_keys.funding_pubkey@,
        a.remote_keys.funding_pubkey@,
    );
}

/// Every step that a channel takes outside of a request moves it by one
/// step at most as well.
pub proof fn lemma_steps_move(
    c: Channel,
    req: crate::message::OpenChannel,
    accept: AcceptChannel,
    signed: crate::message::FundingSigned,
    locked: crate::message::FundingLocked,
    funded: Channel,
)
    requires
        c.funding_refusal() is None ==> c.funded_as(funded),
    ensures
        c.proposing(req) matches Ok(next) ==> moves(c.state, next.state),
        c.accepting(req) matches Ok(next) ==> moves(c.state, next.state),
        c.accepted(accept) matches Ok(next) ==> moves(c.state, next.state),
        c.funding_refusal() is None ==> moves(c.state, funded.state),
        c.signing_refusal(signed) is None ==> moves(c.state, c.signed(signed).state),
        c.state is Funded ==> moves(c.state, c.locked(locked).state),
        moves(c.state, c.confirmed().state),
        moves(c.state, c.paid().state),
{
}

/// A proposal within bounds, asked of a daemon whose channel is still
/// proposed, goes out to the peer unchanged: it is the only thing sent on
/// the peer bus, to the connection daemon that the request names. The
/// channel stays proposed and unfunded, this side is its originator, and
/// the daemon reports to whom the request names.
pub proof fn lemma_proposal_goes_to_the_peer(
    c: Channel,
    source: Address,
    asked: CreateChannelView,
    next: Channel,
    sent: Seq<Sent>,
    result: Result<(), ErrorView>,
)
    requires
        c.wf(),
        c.state is Proposed,
        ChannelParams::with_spec(asked.channel_req) is Ok,
        c.ctl_handled(source, RequestView::OpenChannelWith(asked), next, sent, result),
    ensures
        result is Ok,
        next.state is Proposed,
        next.is_originator,
        next.peer_service == asked.peerd,
        next.enquirer == asked.report_to,
        asked.peerd matches Address::Connection(endpoint) ==> next.remote_peer == Some(endpoint),
        next.channel_id@ == zero_id(),
        next.identity == c.identity,
        sent.len() > 0,
        sent.last() == (Sent {
            bus: ServiceBus::Msg,
            source: c.identity,
            dest: asked.peerd,
            request: RequestView::PeerMessage(Messages::OpenChannel(asked.channel_req)),
        }),
        forall|i: int| 0 <= i < sent.len() - 1 ==> (#[trigger] sent[i]).bus == ServiceBus::Ctl,
{
}

/// An answer that breaks no rule completes the negotiation of a proposed
/// channel: the channel is accepted, and an enquirer is told last the
/// script that the funding has to pay to, which is that of the two funding
/// keys.
pub proof fn lemma_answer_completes_the_negotiation(
    c: Channel,
    answer: AcceptChannel,
    next: Channel,
    sent: Seq<Sent>,
    result: Result<(), ErrorView>,
)
    requires
        c.wf(),
        c.state is Proposed,
        c.params.rejection(answer, None) is None,
        c.msg_handled(RequestView::PeerMessage(Messages::AcceptChannel(answer)), next, sent, result),
    ensures
        result is Ok,
        next.state is Accepted,
        next.params == ChannelParams::answered(answer),
        next.params.minimum_depth == answer.minimum_depth,
        c.enquirer matches Some(enquirer) ==> sent.len() > 0 && sent.last() == (Sent {
            bus: ServiceBus::Ctl,
            source: c.identity,
            dest: enquirer,
            request: RequestView::ChannelFunding(
                funding_script_pubkey(c.local_keys.funding_pubkey@, answer.funding_pubkey@),
            ),
        }),
        c.enquirer is None ==> sent.len() == 0,
{
}

} // verus!
