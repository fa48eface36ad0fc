//! The channel daemon: one channel, its state machine and its derivations.

use crate::channel::{
    extends, lemma_nothing_queued, lemma_queued, not_expected, queued_since, result_view, Channel,
    Report, MINIMUM_DEPTH,
};
use crate::channel_id::{zero_id, ChannelId, OutPoint, TempChannelId};
use crate::commitment::{lock_time, obscure, obscuring_factor, outputs, sequence, COMMITMENT_VERSION};
use crate::crypto::{funding_output, funding_witness, random_preimage, sha256, sha256_of, sighash_all};
use crate::daemon_id::{Address, DaemonId};
use crate::keys::{ChannelKeys, LocalNode, PublicKey, Signature};
use crate::message::{
    AcceptChannel, FundingCreated, FundingLocked, FundingSigned, Messages, OpenChannel,
    UpdateAddHtlc,
};
use crate::params::{ChannelNegotiationError, ChannelParams};
use crate::rpc::{
    option_address, option_text, AssetBalance, ChannelInfo, ChannelState, CreateChannel, Error,
    ErrorView, Request, RequestView, Senders, Sent, ServiceBus, Transfer,
};
use std::time::{SystemTime, UNIX_EPOCH};
use vstd::prelude::*;

verus! {

broadcast use vstd::array::group_array_axioms;

/// The state of one channel daemon.
pub struct Runtime {
    identity: DaemonId,
    peer_service: DaemonId,
    local_node: LocalNode,
    channel_id: ChannelId,
    temporary_channel_id: TempChannelId,
    state: ChannelState,
    local_capacity: u64,
    remote_capacity: u64,
    local_balances: Vec<AssetBalance>,
    remote_balances: Vec<AssetBalance>,
    funding_outpoint: OutPoint,
    remote_peer: Option<String>,
    started: u64,
    commitment_number: u64,
    total_payments: u64,
    pending_payments: u16,
    params: ChannelParams,
    local_keys: ChannelKeys,
    remote_keys: ChannelKeys,
    is_originator: bool,
    obscuring_factor: u64,
    enquirer: Option<DaemonId>,
    local_locked: bool,
    remote_signature: Option<Signature>,
    remote_point: Option<PublicKey>,
}

impl View for Runtime {
    type V = Channel;

    closed spec fn view(&self) -> Channel {
        Channel {
            identity: self.identity@,
            peer_service: self.peer_service@,
            local_node: self.local_node,
            channel_id: self.channel_id,
            temporary_channel_id: self.temporary_channel_id,
            state: self.state,
            local_capacity: self.local_capacity,
            remote_capacity: self.remote_capacity,
            local_balances: self.local_balances@,
            remote_balances: self.remote_balances@,
            funding_outpoint: self.funding_outpoint,
            remote_peer: option_text(self.remote_peer),
            started: self.started,
            commitment_number: self.commitment_number,
            total_payments: self.total_payments,
            pending_payments: self.pending_payments,
            params: self.params,
            local_keys: self.local_keys,
            remote_keys: self.remote_keys,
            is_originator: self.is_originator,
            obscuring_factor: self.obscuring_factor,
            enquirer: option_address(self.enquirer),
            local_locked: self.local_locked,
            remote_signature: self.remote_signature,
            remote_point: self.remote_point,
        }
    }
}

/// The error that says `text`.
fn other(text: &str) -> (err: Error)
    ensures
        err@ == ErrorView::Other(text@),
{
    Error::Other(text.to_owned())
}

/// Calls `SystemTime::now` of std and counts the whole seconds since the
/// epoch; nothing if the clock is set before it. Nothing is known of the
/// result.
#[verifier::external_body]
fn unix_time_now() -> (now: Option<u64>)
{
    SystemTime::now().duration_since(UNIX_EPOCH).ok().map(|d| d.as_secs())
}

impl Runtime {
    /// Whether the daemon is in a state that its own operations leave it in.
    pub open spec fn wf(&self) -> bool {
        self@.wf()
    }

    /// The daemon of a channel that is known by `id` until it is funded.
    /// `started` is the time, in seconds since the epoch.
    pub fn new(local_node: LocalNode, id: TempChannelId, started: u64) -> (runtime: Runtime)
        ensures
            runtime.wf(),
            runtime@.is_fresh(local_node, id, started),
    {
        let keys = ChannelKeys::dumb();
        let runtime = Runtime {
            identity: DaemonId::Channel(ChannelId(id.0)),
            peer_service: DaemonId::Loopback,
            local_node,
            channel_id: ChannelId([0u8; 32]),
            temporary_channel_id: id,
            state: ChannelState::Proposed,
            local_capacity: 0,
            remote_capacity: 0,
            local_balances: Vec::new(),
            remote_balances: Vec::new(),
            funding_outpoint: OutPoint { txid: [0u8; 32], vout: 0 },
            remote_peer: None,
            started,
            commitment_number: 0,
            total_payments: 0,
            pending_payments: 0,
            params: ChannelParams::new(),
            local_keys: keys,
            remote_keys: keys,
            is_originator: false,
            obscuring_factor: 0,
            enquirer: None,
            local_locked: false,
            remote_signature: None,
            remote_point: None,
        };
        assert(runtime@.channel_id@ =~= zero_id());
        assert(runtime@.funding_outpoint.txid@ =~= zero_id());
        runtime
    }

    /// The public key of the node that runs the channel.
    pub fn node_id(&self) -> (id: PublicKey)
        ensures
            id == self@.local_node.public_key(),
            id@ == crate::keys::public_key_of(self@.local_node.secret()),
    {
        self.local_node.node_id()
    }

    /// What both sides hold together, in satoshis.
    pub fn channel_capacity(&self) -> (capacity: u64)
        requires
            self.wf(),
        ensures
            capacity == self@.capacity(),
    {
        self.local_capacity + self.remote_capacity
    }

    /// The address under which the daemon is reached.
    pub fn identity(&self) -> (id: DaemonId)
        ensures
            id@ == self@.identity,
    {
        self.identity.duplicate()
    }

    /// Tells the supervisor that the daemon is up: the first thing that the
    /// daemon sends.
    pub fn hello(&self, senders: &mut Senders)
        ensures
            final(senders)@ == old(senders)@.push(
                Sent {
                    bus: ServiceBus::Ctl,
                    source: self@.identity,
                    dest: Address::Lnpd,
                    request: RequestView::Hello,
                },
            ),
    {
        senders.send_to(ServiceBus::Ctl, self.identity.duplicate(), DaemonId::router(), Request::Hello);
    }

    /// Reports progress to the enquirer, if there is one.
    fn report_progress(&self, senders: &mut Senders, report: Report)
        ensures
            final(senders)@ == old(senders)@ + self@.progress(report),
    {
        self.send_ctl(senders, &self.enquirer, Request::Progress(report.to_text()));
    }

    /// Reports success to the enquirer, if there is one.
    fn report_success(&self, senders: &mut Senders, report: Report)
        ensures
            final(senders)@ == old(senders)@ + self@.success(report),
    {
        self.send_ctl(senders, &self.enquirer, Request::Success(Some(report.to_text())));
    }

    /// Takes `channel_req` as the proposal of this side: its parameters, its
    /// keys, and its share of the funding; the enquirer is told that the
    /// channel is being proposed. Nothing changes if the parameters are out
    /// of bounds, and nothing is reported either if the channel is past its
    /// proposal.
    pub fn open_channel(&mut self, senders: &mut Senders, channel_req: &OpenChannel) -> (done: Result<
        (),
        ChannelNegotiationError,
    >)
        requires
            old(self).wf(),
        ensures
            final(self).wf(),
            final(senders)@ == old(senders)@ + old(self)@.attempt(Report::Proposing),
            match old(self)@.proposing(*channel_req) {
                Ok(next) => done is Ok && final(self)@ == next,
                Err(err) => done == Err::<(), ChannelNegotiationError>(err) && final(self)@ == old(self)@,
            },
    {
        if self.state != ChannelState::Proposed {
            assert(senders@ + Seq::<Sent>::empty() =~= senders@);
            return Err(ChannelNegotiationError::UnexpectedState(self.state));
        }
        self.report_progress(senders, Report::Proposing);
        let params = ChannelParams::with(channel_req)?;
        let pushed: u64 = channel_req.push_msat / 1000;
        self.is_originator = true;
        self.params = params;
        self.local_keys = ChannelKeys::from_open_channel(channel_req);
        self.local_capacity = channel_req.funding_satoshis - pushed;
        self.remote_capacity = pushed;
        Ok(())
    }

    /// Takes the proposal `channel_req` of the peer behind `peerd`, and
    /// returns the answer to send; the enquirer is told that the channel is
    /// being accepted, and then that it was. The state is left as it is.
    /// Nothing changes if the parameters are out of bounds, and nothing is
    /// reported either if the channel is past its proposal.
    pub fn accept_channel(&mut self, senders: &mut Senders, channel_req: &OpenChannel, peerd: &DaemonId) -> (answer: Result<
        AcceptChannel,
        ChannelNegotiationError,
    >)
        requires
            old(self).wf(),
        ensures
            final(self).wf(),
            match old(self)@.accepting(*channel_req) {
                Ok(next) => answer == Ok::<AcceptChannel, ChannelNegotiationError>(
                    old(self)@.answer(*channel_req),
                ) && final(self)@ == next && final(senders)@ == old(senders)@ + old(self)@.progress(
                    Report::Accepting,
                ) + old(self)@.success(Report::Accepted),
                Err(err) => answer == Err::<AcceptChannel, ChannelNegotiationError>(err)
                    && final(self)@ == old(self)@ && final(senders)@ == old(senders)@ + old(
                    self,
                )@.attempt(Report::Accepting),
            },
    {
        let dumb_key = self.node_id();
        let accept_channel = AcceptChannel {
            temporary_channel_id: channel_req.temporary_channel_id,
            dust_limit_satoshis: channel_req.dust_limit_satoshis,
            max_htlc_value_in_flight_msat: channel_req.max_htlc_value_in_flight_msat,
            channel_reserve_satoshis: channel_req.channel_reserve_satoshis,
            htlc_minimum_msat: channel_req.htlc_minimum_msat,
            minimum_depth: MINIMUM_DEPTH,
            to_self_delay: channel_req.to_self_delay,
            max_accepted_htlcs: channel_req.max_accepted_htlcs,
            funding_pubkey: dumb_key,
            revocation_basepoint: dumb_key,
            payment_point: dumb_key,
            delayed_payment_basepoint: dumb_key,
            htlc_basepoint: dumb_key,
            first_per_commitment_point: dumb_key,
        };
        assert(accept_channel == old(self)@.answer(*channel_req));
        if self.state != ChannelState::Proposed {
            assert(senders@ + Seq::<Sent>::empty() =~= senders@);
            return Err(ChannelNegotiationError::UnexpectedState(self.state));
        }
        self.report_progress(senders, Report::Accepting);
        let mut params = ChannelParams::with(channel_req)?;
        proof {
            crate::params::lemma_echo_is_accepted(*channel_req, accept_channel, None);
        }
        let echoed = params.updated(&accept_channel, None);
        assert(echoed is Ok);
        self.report_success(senders, Report::Accepted);
        let pushed: u64 = channel_req.push_msat / 1000;
        self.is_originator = false;
        self.params = params;
        self.remote_keys = ChannelKeys::from_open_channel(channel_req);
        self.local_keys = ChannelKeys::from_accept_channel(&accept_channel);
        self.local_capacity = pushed;
        self.remote_capacity = channel_req.funding_satoshis - pushed;
        Ok(accept_channel)
    }

    /// Takes the answer `accept_channel` of the peer behind `peerd` to the
    /// proposal of this side; the enquirer is told that the channel was
    /// accepted, and then that it is ready for funding. The state is left
    /// as it is. Nothing changes if the answer breaks a rule, and nothing is
    /// reported either if no proposal is open.
    pub fn channel_accepted(&mut self, senders: &mut Senders, accept_channel: &AcceptChannel, peerd: &DaemonId) -> (done: Result<
        (),
        ChannelNegotiationError,
    >)
        requires
            old(self).wf(),
        ensures
            final(self).wf(),
            match old(self)@.accepted(*accept_channel) {
                Ok(next) => done is Ok && final(self)@ == next && final(senders)@ == old(senders)@
                    + old(self)@.progress(Report::WasAccepted) + old(self)@.success(
                    Report::ReadyForFunding,
                ),
                Err(err) => done == Err::<(), ChannelNegotiationError>(err) && final(self)@ == old(self)@
                    && final(senders)@ == old(senders)@ + old(self)@.attempt(Report::WasAccepted),
            },
    {
        if self.state != ChannelState::Proposed {
            assert(senders@ + Seq::<Sent>::empty() =~= senders@);
            return Err(ChannelNegotiationError::UnexpectedState(self.state));
        }
        self.report_progress(senders, Report::WasAccepted);
        let mut params = self.params;
        params.updated(accept_channel, None)?;
        self.report_success(senders, Report::ReadyForFunding);
        self.params = params;
        self.remote_keys = ChannelKeys::from_accept_channel(accept_channel);
        Ok(())
    }

    /// Computes the digest that a signature under a commitment transaction
    /// signs: of this side's transaction if `ours`, of the other side's if
    /// not.
    pub fn commitment_sighash(&self, ours: bool) -> (digest: [u8; 32])
        requires
            self.wf(),
        ensures
            digest@ == self@.commitment_digest(ours),
    {
        let capacity = self.channel_capacity();
        let obscured = obscure(self.commitment_number, self.obscuring_factor);
        let outs = if ours {
            outputs(
                self.local_capacity,
                &self.remote_keys.revocation_basepoint,
                &self.local_keys.delayed_payment_basepoint,
                self.params.to_self_delay,
                self.remote_capacity,
                &self.remote_keys.payment_basepoint,
            )
        } else {
            outputs(
                self.remote_capacity,
                &self.local_keys.revocation_basepoint,
                &self.remote_keys.delayed_payment_basepoint,
                self.params.to_self_delay,
                self.local_capacity,
                &self.local_keys.payment_basepoint,
            )
        };
        let script = funding_witness(
            capacity,
            &self.local_keys.funding_pubkey,
            &self.remote_keys.funding_pubkey,
        );
        sighash_all(
            COMMITMENT_VERSION,
            lock_time(obscured),
            &self.funding_outpoint,
            sequence(obscured),
            &outs,
            &script,
            capacity,
        )
    }

    /// Signs the commitment transaction of the other side with the node key.
    pub fn sign_funding(&mut self) -> (signature: Signature)
        requires
            old(self).wf(),
        ensures
            final(self)@ == old(self)@,
            signature@ == old(self)@.funding_signature(),
    {
        let digest = self.commitment_sighash(false);
        self.local_node.sign(&digest)
    }

    /// Takes the funding outpoint that the channel holds: computes the
    /// obscuring factor, derives the channel id, tells it to the supervisor,
    /// and goes by it from now on, which the enquirer is told. Nothing
    /// changes, and nothing is sent, if the channel is not in the state
    /// `Accepted` or the outpoint gives the channel id of all zeros.
    pub fn funding_update(&mut self, senders: &mut Senders) -> (done: Result<(), Error>)
        requires
            old(self).wf(),
        ensures
            final(self).wf(),
            match old(self)@.funding_refusal() {
                None => done is Ok && old(self)@.funded_as(final(self)@) && final(senders)@ == old(
                    senders,
                )@.push(old(self)@.id_update(final(self)@)) + final(self)@.progress(
                    Report::ChannelIdSet,
                ),
                Some(text) => done matches Err(err) && err@ == ErrorView::Other(text) && final(self)@
                    == old(self)@ && final(senders)@ == old(senders)@,
            },
    {
        if self.state != ChannelState::Accepted {
            return Err(other("The channel is not in the state for this request"));
        }
        let channel_id = ChannelId::with(self.funding_outpoint);
        if channel_id.is_zero() {
            return Err(other("The funding outpoint gives no channel id"));
        }
        let factor = if self.is_originator {
            obscuring_factor(
                &self.local_keys.payment_basepoint,
                &self.remote_keys.payment_basepoint,
            )
        } else {
            obscuring_factor(
                &self.remote_keys.payment_basepoint,
                &self.local_keys.payment_basepoint,
            )
        };
        senders.send_to(
            ServiceBus::Ctl,
            self.identity.duplicate(),
            DaemonId::Lnpd,
            Request::UpdateChannelId(channel_id),
        );
        self.obscuring_factor = factor;
        self.commitment_number = 0;
        self.channel_id = channel_id;
        self.identity = DaemonId::Channel(channel_id);
        self.state = ChannelState::FundingCreated;
        self.report_progress(senders, Report::ChannelIdSet);
        Ok(())
    }

    /// Funds the channel with `funding_outpoint` and returns the
    /// `funding_created` to send, which carries the signature under the
    /// other side's commitment transaction. Nothing changes, and nothing is
    /// sent, if the channel cannot take the outpoint.
    pub fn fund_channel(&mut self, senders: &mut Senders, funding_outpoint: OutPoint) -> (created: Result<
        FundingCreated,
        Error,
    >)
        requires
            old(self).wf(),
        ensures
            final(self).wf(),
            match (Channel { funding_outpoint, ..old(self)@ }).funding_refusal() {
                None => created matches Ok(m) && (Channel { funding_outpoint, ..old(self)@ }).funded_as(
                    final(self)@,
                ) && final(self)@.sends_funding_created(m) && final(senders)@ == old(senders)@ + (
                Channel { funding_outpoint, ..old(self)@ }).funding_reports(
                    final(self)@,
                    Report::Funding,
                    Report::FundingCreated,
                ),
                Some(text) => created matches Err(err) && err@ == ErrorView::Other(text) && final(self)@
                    == old(self)@ && final(senders)@ == old(senders)@,
            },
    {
        if self.state != ChannelState::Accepted {
            return Err(other("The channel is not in the state for this request"));
        }
        if ChannelId::with(funding_outpoint).is_zero() {
            return Err(other("The funding outpoint gives no channel id"));
        }
        self.funding_outpoint = funding_outpoint;
        let ghost taken = self@;
        self.report_progress(senders, Report::Funding);
        let updated = self.funding_update(senders);
        assert(updated is Ok);
        let signature = self.sign_funding();
        self.report_progress(senders, Report::FundingCreated);
        assert(senders@ =~= old(senders)@ + taken.funding_reports(
            self@,
            Report::Funding,
            Report::FundingCreated,
        ));
        Ok(
            FundingCreated {
                temporary_channel_id: self.temporary_channel_id,
                funding_txid: self.funding_outpoint.txid,
                funding_output_index: (self.funding_outpoint.vout % 0x1_0000) as u16,
                signature,
            },
        )
    }

    /// Takes the funding that the other side created: keeps the outpoint
    /// and the signature that `funding_created` names, and returns the
    /// `funding_signed` to send, which carries the signature under the other
    /// side's commitment transaction. Nothing changes, and nothing is sent,
    /// if the channel cannot take the outpoint.
    pub fn funding_created(&mut self, senders: &mut Senders, funding_created: FundingCreated) -> (signed: Result<
        FundingSigned,
        Error,
    >)
        requires
            old(self).wf(),
        ensures
            final(self).wf(),
            match old(self)@.offered(funding_created).funding_refusal() {
                None => signed matches Ok(m) && old(self)@.offered(funding_created).funded_as(
                    final(self)@,
                ) && final(self)@.sends_funding_signed(m) && final(senders)@ == old(senders)@ + old(
                    self,
                )@.offered(funding_created).funding_reports(
                    final(self)@,
                    Report::AcceptingFunding,
                    Report::FundingSigned,
                ),
                Some(text) => signed matches Err(err) && err@ == ErrorView::Other(text) && final(self)@
                    == old(self)@ && final(senders)@ == old(senders)@,
            },
    {
        let outpoint = OutPoint {
            txid: funding_created.funding_txid,
            vout: funding_created.funding_output_index as u32,
        };
        if self.state != ChannelState::Accepted {
            return Err(other("The channel is not in the state for this request"));
        }
        if ChannelId::with(outpoint).is_zero() {
            return Err(other("The funding outpoint gives no channel id"));
        }
        self.funding_outpoint = outpoint;
        self.remote_signature = Some(funding_created.signature);
        let ghost taken = self@;
        self.report_progress(senders, Report::AcceptingFunding);
        let updated = self.funding_update(senders);
        assert(updated is Ok);
        let signature = self.sign_funding();
        self.report_progress(senders, Report::FundingSigned);
        assert(senders@ =~= old(senders)@ + taken.funding_reports(
            self@,
            Report::AcceptingFunding,
            Report::FundingSigned,
        ));
        Ok(FundingSigned { channel_id: self.channel_id, signature })
    }

    /// Takes the signature of the other side under this side's commitment
    /// transaction, and counts the channel as funded. Nothing changes if the
    /// channel does not wait for the signature or the signature is not
    /// valid.
    pub fn funding_signed(&mut self, funding_signed: &FundingSigned) -> (done: Result<(), Error>)
        requires
            old(self).wf(),
        ensures
            final(self).wf(),
            match old(self)@.signing_refusal(*funding_signed) {
                None => done is Ok && final(self)@ == old(self)@.signed(*funding_signed),
                Some(text) => done matches Err(err) && err@ == ErrorView::Other(text) && final(self)@
                    == old(self)@,
            },
    {
        if self.state != ChannelState::FundingCreated {
            return Err(other("The channel is not in the state for this request"));
        }
        let digest = self.commitment_sighash(true);
        if !self.remote_keys.funding_pubkey.verifies(&digest, &funding_signed.signature) {
            return Err(other("The signature of the commitment transaction is not valid"));
        }
        self.remote_signature = Some(funding_signed.signature);
        self.state = ChannelState::Funded;
        Ok(())
    }

    /// Takes the word of the other side that the funding is buried deep
    /// enough, and keeps its next per-commitment point. Nothing changes if
    /// the channel is not in the state `Funded`.
    pub fn funding_locked(&mut self, funding_locked: &FundingLocked) -> (done: Result<(), Error>)
        requires
            old(self).wf(),
        ensures
            final(self).wf(),
            if old(self)@.state == ChannelState::Funded {
                done is Ok && final(self)@ == old(self)@.locked(*funding_locked)
            } else {
                done matches Err(err) && err@ == ErrorView::Other(not_expected()) && final(self)@
                    == old(self)@
            },
    {
        if self.state != ChannelState::Funded {
            return Err(other("The channel is not in the state for this request"));
        }
        self.remote_point = Some(funding_locked.next_per_commitment_point);
        self.state =
        if self.local_locked {
            ChannelState::Operational
        } else {
            ChannelState::Locked
        };
        Ok(())
    }

    /// Notes that this side has seen the funding buried deep enough. A
    /// channel that the other side has locked is in use from now on.
    pub fn funding_confirmed(&mut self)
        requires
            old(self).wf(),
        ensures
            final(self).wf(),
            final(self)@ == old(self)@.confirmed(),
    {
        self.local_locked = true;
        if self.state == ChannelState::Locked {
            self.state = ChannelState::Operational;
        }
    }

    /// Offers the payment `transfer_req`, locked to the hash of `preimage`,
    /// and returns the `update_add_htlc` to send; the enquirer is told of
    /// it. Nothing changes, and nothing is reported, if the channel is not
    /// in use or no payment can be counted any more.
    pub fn transfer_with(&mut self, senders: &mut Senders, transfer_req: Transfer, preimage: &[u8; 32]) -> (offer: Result<
        UpdateAddHtlc,
        Error,
    >)
        requires
            old(self).wf(),
        ensures
            final(self).wf(),
            match old(self)@.transfer_refusal() {
                None => offer matches Ok(m) && old(self)@.offers(transfer_req, m) && m.payment_hash@
                    == sha256_of(preimage@) && final(self)@ == old(self)@.paid() && final(senders)@
                    == old(senders)@ + old(self)@.progress(Report::Transferred),
                Some(text) => offer matches Err(err) && err@ == ErrorView::Other(text) && final(self)@
                    == old(self)@ && final(senders)@ == old(senders)@,
            },
    {
        if self.state != ChannelState::Operational {
            return Err(other("The channel is not in the state for this request"));
        }
        if self.total_payments == u64::MAX {
            return Err(other("The channel has no payment number left"));
        }
        let payment_hash = sha256(preimage.as_slice());
        let update_add_htlc = UpdateAddHtlc {
            channel_id: self.channel_id,
            htlc_id: self.total_payments,
            amount_msat: transfer_req.amount,
            payment_hash,
            cltv_expiry: 0,
            asset_id: transfer_req.asset,
        };
        self.total_payments += 1;
        self.report_progress(senders, Report::Transferred);
        Ok(update_add_htlc)
    }

    /// Offers the payment `transfer_req`, locked to the hash of a fresh
    /// random preimage, and returns the `update_add_htlc` to send; the
    /// enquirer is told of it. Nothing changes, and nothing is reported, if
    /// the channel is not in use or no payment can be counted any more.
    pub fn transfer(&mut self, senders: &mut Senders, transfer_req: Transfer) -> (offer: Result<
        UpdateAddHtlc,
        Error,
    >)
        requires
            old(self).wf(),
        ensures
            final(self).wf(),
            match old(self)@.transfer_refusal() {
                None => offer matches Ok(m) && old(self)@.offers(transfer_req, m) && final(self)@
                    == old(self)@.paid() && final(senders)@ == old(senders)@ + old(self)@.progress(
                    Report::Transferred,
                ),
                Some(text) => offer matches Err(err) && err@ == ErrorView::Other(text) && final(self)@
                    == old(self)@ && final(senders)@ == old(senders)@,
            },
    {
        let preimage = random_preimage();
        self.transfer_with(senders, transfer_req, &preimage)
    }

    /// A copy of the balances.
    fn copy_balances(balances: &Vec<AssetBalance>) -> (copy: Vec<AssetBalance>)
        ensures
            copy@ == balances@,
    {
        let mut copy: Vec<AssetBalance> = Vec::new();
        let mut i: usize = 0;
        while i < balances.len()
            invariant
                i <= balances@.len(),
                copy@ == balances@.subrange(0, i as int),
            decreases balances@.len() - i,
        {
            copy.push(balances[i]);
            i += 1;
            assert(copy@ =~= balances@.subrange(0, i as int));
        }
        assert(balances@.subrange(0, balances@.len() as int) =~= balances@);
        copy
    }

    /// What the channel tells of itself at the time `now`, in seconds since
    /// the epoch.
    pub fn channel_info(&self, now: u64) -> (info: ChannelInfo)
        ensures
            info@ == self@.info(now),
    {
        let channel_id = if self.channel_id.is_zero() {
            None
        } else {
            Some(self.channel_id)
        };
        let remote_peer = match &self.remote_peer {
            Some(peer) => Some(peer.clone()),
            None => None,
        };
        ChannelInfo {
            channel_id,
            temporary_channel_id: self.temporary_channel_id,
            state: self.state,
            local_capacity: self.local_capacity,
            remote_capacity: self.remote_capacity,
            local_balances: Self::copy_balances(&self.local_balances),
            remote_balances: Self::copy_balances(&self.remote_balances),
            funding_outpoint: self.funding_outpoint,
            remote_peer,
            uptime: if now >= self.started {
                now - self.started
            } else {
                0
            },
            since: self.started,
            commitment_updates: self.commitment_number,
            total_payments: self.total_payments,
            pending_payments: self.pending_payments,
            is_originator: self.is_originator,
            params: self.params,
            local_keys: self.local_keys,
            remote_keys: self.remote_keys,
        }
    }

    /// Sends `request` to `dest`, if there is one.
    fn send_ctl(&self, senders: &mut Senders, dest: &Option<DaemonId>, request: Request)
        ensures
            final(senders)@ == old(senders)@ + self@.told(option_address(*dest), request@),
    {
        match dest {
            Some(dest) => {
                senders.send_to(ServiceBus::Ctl, self.identity.duplicate(), dest.duplicate(), request);
                assert(senders@ =~= old(senders)@ + self@.told(option_address(Some(*dest)), request@));
            },
            None => {
                assert(senders@ =~= old(senders)@ + Seq::<Sent>::empty());
            },
        }
    }

    /// Sends a peer message to the connection daemon of the channel.
    fn send_peer(&self, senders: &mut Senders, message: Messages)
        ensures
            final(senders)@ == old(senders)@.push(self@.to_peer(message)),
    {
        senders.send_to(
            ServiceBus::Msg,
            self.identity.duplicate(),
            self.peer_service.duplicate(),
            Request::PeerMessage(message),
        );
    }

    /// Notes which connection daemon serves the peer.
    fn pair_with(&mut self, peerd: DaemonId)
        requires
            old(self).wf(),
        ensures
            final(self).wf(),
            final(self)@ == old(self)@.paired(peerd@),
    {
        if let DaemonId::Connection(addr) = &peerd {
            self.remote_peer = Some(addr.clone());
        }
        self.peer_service = peerd;
    }

    /// Handles a request that came from the peer, over the connection
    /// daemon `source`.
    pub fn handle_rpc_msg(&mut self, senders: &mut Senders, source: DaemonId, request: Request) -> (result: Result<
        (),
        Error,
    >)
        requires
            old(self).wf(),
        ensures
            final(self).wf(),
            extends(old(senders)@, final(senders)@),
            old(self)@.msg_handled(
                request@,
                final(self)@,
                queued_since(old(senders)@, final(senders)@),
                result_view(result),
            ),
    {
        let ghost before = senders@;
        let ghost was = self@;
        match request {
            Request::PeerMessage(Messages::AcceptChannel(accept_channel)) => {
                match self.channel_accepted(senders, &accept_channel, &source) {
                    Err(err) => {
                        self.send_ctl(senders, &self.enquirer, Request::Failure(err));
                        proof {
                            let added = was.attempt(Report::WasAccepted) + was.told(
                                was.enquirer,
                                RequestView::Failure(err),
                            );
                            lemma_queued(before, added);
                            assert(senders@ =~= before + added);
                        }
                        Err(Error::Negotiation(err))
                    },
                    Ok(()) => {
                        let script_pubkey = funding_output(
                            self.channel_capacity(),
                            &self.local_keys.funding_pubkey,
                            &accept_channel.funding_pubkey,
                        );
                        self.send_ctl(senders, &self.enquirer, Request::ChannelFunding(script_pubkey));
                        self.state = ChannelState::Accepted;
                        proof {
                            let added = was.progress(Report::WasAccepted) + was.success(
                                Report::ReadyForFunding,
                            ) + self@.told(
                                self@.enquirer,
                                RequestView::ChannelFunding(script_pubkey@),
                            );
                            lemma_queued(before, added);
                            assert(senders@ =~= before + added);
                        }
                        Ok(())
                    },
                }
            },
            Request::PeerMessage(Messages::FundingCreated(funding_created)) => {
                match self.funding_created(senders, funding_created) {
                    Err(err) => {
                        proof {
                            lemma_nothing_queued(before);
                        }
                        Err(err)
                    },
                    Ok(funding_signed) => {
                        self.send_peer(senders, Messages::FundingSigned(funding_signed));
                        proof {
                            let added = was.offered(funding_created).funding_reports(
                                self@,
                                Report::AcceptingFunding,
                                Report::FundingSigned,
                            ).push(self@.to_peer(Messages::FundingSigned(funding_signed)));
                            lemma_queued(before, added);
                            assert(senders@ =~= before + added);
                        }
                        Ok(())
                    },
                }
            },
            Request::PeerMessage(Messages::FundingSigned(funding_signed)) => {
                proof {
                    lemma_nothing_queued(before);
                }
                self.funding_signed(&funding_signed)
            },
            Request::PeerMessage(Messages::FundingLocked(funding_locked)) => {
                proof {
                    lemma_nothing_queued(before);
                }
                self.funding_locked(&funding_locked)
            },
            Request::PeerMessage(_) => {
                proof {
                    lemma_nothing_queued(before);
                }
                Ok(())
            },
            _ => {
                proof {
                    lemma_nothing_queued(before);
                }
                Err(Error::NotSupported(ServiceBus::Msg, request.get_type()))
            },
        }
    }

    /// Turns down a request to negotiate that comes after the negotiation,
    /// and reports it to whom the request names.
    fn negotiation_is_over(&self, senders: &mut Senders, report_to: &Option<DaemonId>) -> (result: Result<
        (),
        Error,
    >)
        ensures
            result_view(result) == Err::<(), ErrorView>(
                ErrorView::Negotiation(ChannelNegotiationError::UnexpectedState(self@.state)),
            ),
            final(senders)@ == old(senders)@ + self@.told(
                option_address(*report_to),
                RequestView::Failure(ChannelNegotiationError::UnexpectedState(self@.state)),
            ),
    {
        let err = ChannelNegotiationError::UnexpectedState(self.state);
        self.send_ctl(senders, report_to, Request::Failure(err));
        Err(Error::Negotiation(err))
    }

    /// Handles a control request from `source`.
    pub fn handle_rpc_ctl(&mut self, senders: &mut Senders, source: DaemonId, request: Request) -> (result: Result<
        (),
        Error,
    >)
        requires
            old(self).wf(),
        ensures
            final(self).wf(),
            extends(old(senders)@, final(senders)@),
            old(self)@.ctl_handled(
                source@,
                request@,
                final(self)@,
                queued_since(old(senders)@, final(senders)@),
                result_view(result),
            ),
    {
        let ghost before = senders@;
        let ghost was = self@;
        match request {
            Request::OpenChannelWith(CreateChannel { channel_req, peerd, report_to }) => {
                if self.state != ChannelState::Proposed {
                    let result = self.negotiation_is_over(senders, &report_to);
                    proof {
                        lemma_queued(
                            before,
                            was.told(
                                option_address(report_to),
                                RequestView::Failure(ChannelNegotiationError::UnexpectedState(was.state)),
                            ),
                        );
                    }
                    return result;
                }
                self.pair_with(peerd);
                self.enquirer = report_to;
                let ghost paired = self@;
                match self.open_channel(senders, &channel_req) {
                    Err(err) => {
                        self.send_ctl(senders, &self.enquirer, Request::Failure(err));
                        proof {
                            let added = paired.progress(Report::Proposing) + paired.told(
                                paired.enquirer,
                                RequestView::Failure(err),
                            );
                            lemma_queued(before, added);
                            assert(senders@ =~= before + added);
                        }
                        Err(Error::Negotiation(err))
                    },
                    Ok(()) => {
                        self.send_peer(senders, Messages::OpenChannel(channel_req));
                        proof {
                            let added = paired.progress(Report::Proposing).push(
                                self@.to_peer(Messages::OpenChannel(channel_req)),
                            );
                            lemma_queued(before, added);
                            assert(senders@ =~= before + added);
                        }
                        Ok(())
                    },
                }
            },
            Request::AcceptChannelFrom(CreateChannel { channel_req, peerd, report_to }) => {
                if self.state != ChannelState::Proposed {
                    let result = self.negotiation_is_over(senders, &report_to);
                    proof {
                        lemma_queued(
                            before,
                            was.told(
                                option_address(report_to),
                                RequestView::Failure(ChannelNegotiationError::UnexpectedState(was.state)),
                            ),
                        );
                    }
                    return result;
                }
                let peer = peerd.duplicate();
                self.pair_with(peerd);
                let ghost paired = self@;
                match self.accept_channel(senders, &channel_req, &peer) {
                    Err(err) => {
                        self.send_ctl(senders, &report_to, Request::Failure(err));
                        proof {
                            let added = paired.progress(Report::Accepting) + paired.told(
                                option_address(report_to),
                                RequestView::Failure(err),
                            );
                            lemma_queued(before, added);
                            assert(senders@ =~= before + added);
                        }
                        Err(Error::Negotiation(err))
                    },
                    Ok(accept_channel) => {
                        self.send_peer(senders, Messages::AcceptChannel(accept_channel));
                        self.state = ChannelState::Accepted;
                        proof {
                            let added = (paired.progress(Report::Accepting) + paired.success(
                                Report::Accepted,
                            )).push(self@.to_peer(Messages::AcceptChannel(accept_channel)));
                            lemma_queued(before, added);
                            assert(senders@ =~= before + added);
                        }
                        Ok(())
                    },
                }
            },
            Request::FundChannel(funding_outpoint) => {
                self.enquirer = Some(source);
                let ghost asked = self@;
                match self.fund_channel(senders, funding_outpoint) {
                    Err(err) => {
                        proof {
                            lemma_nothing_queued(before);
                        }
                        Err(err)
                    },
                    Ok(funding_created) => {
                        self.send_peer(senders, Messages::FundingCreated(funding_created));
                        proof {
                            let added = (Channel { funding_outpoint, ..asked }).funding_reports(
                                self@,
                                Report::Funding,
                                Report::FundingCreated,
                            ).push(self@.to_peer(Messages::FundingCreated(funding_created)));
                            lemma_queued(before, added);
                            assert(senders@ =~= before + added);
                        }
                        Ok(())
                    },
                }
            },
            Request::Transfer(transfer_req) => {
                self.enquirer = Some(source);
                let ghost asked = self@;
                match self.transfer(senders, transfer_req) {
                    Err(err) => {
                        proof {
                            lemma_nothing_queued(before);
                        }
                        Err(err)
                    },
                    Ok(update_add_htlc) => {
                        self.send_peer(senders, Messages::UpdateAddHtlc(update_add_htlc));
                        proof {
                            let added = asked.progress(Report::Transferred).push(
                                self@.to_peer(Messages::UpdateAddHtlc(update_add_htlc)),
                            );
                            lemma_queued(before, added);
                            assert(senders@ =~= before + added);
                        }
                        Ok(())
                    },
                }
            },
            Request::GetInfo => {
                let now = match unix_time_now() {
                    Some(now) => now,
                    None => 0,
                };
                let info = self.channel_info(now);
                let ghost answer = Sent {
                    bus: ServiceBus::Ctl,
                    source: self@.identity,
                    dest: source@,
                    request: RequestView::ChannelInfo(info@),
                };
                senders.send_to(
                    ServiceBus::Ctl,
                    self.identity.duplicate(),
                    source,
                    Request::ChannelInfo(info),
                );
                proof {
                    lemma_queued(before, seq![answer]);
                    assert(senders@ =~= before + seq![answer]);
                }
                Ok(())
            },
            _ => {
                proof {
                    lemma_nothing_queued(before);
                }
                Err(Error::NotSupported(ServiceBus::Ctl, request.get_type()))
            },
        }
    }

    /// Handles one request from `source` on `bus`: queues in `senders` what
    /// is to be sent, and returns why the request was turned down, if it was.
    pub fn handle(&mut self, senders: &mut Senders, bus: ServiceBus, source: DaemonId, request: Request) -> (result: Result<
        (),
        Error,
    >)
        requires
            old(self).wf(),
        ensures
            final(self).wf(),
            extends(old(senders)@, final(senders)@),
            old(self)@.handled(
                bus,
                source@,
                request@,
                final(self)@,
                queued_since(old(senders)@, final(senders)@),
                result_view(result),
            ),
    {
        match bus {
            ServiceBus::Msg => self.handle_rpc_msg(senders, source, request),
            ServiceBus::Ctl => self.handle_rpc_ctl(senders, source, request),
            ServiceBus::Bridge => {
                proof {
                    lemma_nothing_queued(senders@);
                }
                Err(Error::NotSupported(ServiceBus::Bridge, request.get_type()))
            },
        }
    }

    /// The state of the channel.
    pub fn state(&self) -> (state: ChannelState)
        ensures
            state == self@.state,
    {
        self.state
    }

    /// The channel id: all zeros until the channel is funded.
    pub fn channel_id(&self) -> (id: ChannelId)
        ensures
            id == self@.channel_id,
    {
        self.channel_id
    }

    /// The id by which the channel is known until it is funded.
    pub fn temporary_channel_id(&self) -> (id: TempChannelId)
        ensures
            id == self@.temporary_channel_id,
    {
        self.temporary_channel_id
    }

    /// What this side holds, in satoshis.
    pub fn local_capacity(&self) -> (capacity: u64)
        ensures
            capacity == self@.local_capacity,
    {
        self.local_capacity
    }

    /// What the other side holds, in satoshis.
    pub fn remote_capacity(&self) -> (capacity: u64)
        ensures
            capacity == self@.remote_capacity,
    {
        self.remote_capacity
    }

    /// The number of the current commitment.
    pub fn commitment_number(&self) -> (number: u64)
        ensures
            number == self@.commitment_number,
    {
        self.commitment_number
    }

    /// The factor that hides the commitment number.
    pub fn obscuring_factor(&self) -> (factor: u64)
        ensures
            factor == self@.obscuring_factor,
    {
        self.obscuring_factor
    }

    /// The number of payments that were offered.
    pub fn total_payments(&self) -> (count: u64)
        ensures
            count == self@.total_payments,
    {
        self.total_payments
    }

    /// Whether this side proposed the channel.
    pub fn is_originator(&self) -> (originator: bool)
        ensures
            originator == self@.is_originator,
    {
        self.is_originator
    }

    /// The parameters of the channel.
    pub fn params(&self) -> (params: ChannelParams)
        ensures
            params == self@.params,
    {
        self.params
    }

    /// The keys of this side.
    pub fn local_keys(&self) -> (keys: ChannelKeys)
        ensures
            keys == self@.local_keys,
    {
        self.local_keys
    }

    /// The keys of the other side.
    pub fn remote_keys(&self) -> (keys: ChannelKeys)
        ensures
            keys == self@.remote_keys,
    {
        self.remote_keys
    }

    /// The funding outpoint of the channel.
    pub fn funding_outpoint(&self) -> (outpoint: OutPoint)
        ensures
            outpoint == self@.funding_outpoint,
    {
        self.funding_outpoint
    }

    /// The signature of the other side that the channel holds, if it holds
    /// one.
    pub fn remote_signature(&self) -> (signature: Option<Signature>)
        ensures
            signature == self@.remote_signature,
    {
        self.remote_signature
    }

    /// A transport error is logged where it happens and goes no further: one
    /// peer's broken link does not stop the daemon.
    pub fn handle_err(&mut self, err: Error) -> (done: Result<(), Error>)
        ensures
            done is Ok,
            *final(self) == *old(self),
    {
        Ok(())
    }
}

} // verus!
