//! The channel as a mathematical value: what it is made of, which steps it
//! can take, and what its daemon sends at each step.

use crate::channel_id::{derived_id, zero_id, ChannelId, OutPoint, TempChannelId};
use crate::commitment::{
    commitment_outputs, lock_time_of, obscured_commitment_number, obscuring_factor_of,
    sequence_of, COMMITMENT_VERSION,
};
use crate::crypto::{funding_script_pubkey, funding_witness_script, segwit_sighash};
use crate::daemon_id::Address;
use crate::keys::{ecdsa_signature, ecdsa_verifies, ChannelKeys, LocalNode, PublicKey, Signature};
use crate::message::{
    accept_channel_keys, open_channel_keys, AcceptChannel, FundingCreated, FundingLocked,
    FundingSigned, Messages, OpenChannel, UpdateAddHtlc,
};
use crate::params::{ChannelNegotiationError, ChannelParams};
use crate::rpc::{
    type_of, AssetBalance, ChannelInfoView, ChannelState, Error, ErrorView, RequestView, Sent,
    ServiceBus, Transfer,
};
use vstd::prelude::*;

verus! {

/// The confirmations that this node asks for before it uses a channel.
pub const MINIMUM_DEPTH: u32 = 3;

/// What a channel daemon reports to its enquirer while it works.
#[derive(Clone, Copy, PartialEq, Eq, Debug)]
pub enum Report {
    Proposing,
    Accepting,
    Accepted,
    WasAccepted,
    ReadyForFunding,
    Funding,
    ChannelIdSet,
    FundingCreated,
    AcceptingFunding,
    FundingSigned,
    Transferred,
}

impl Report {
    /// The report in words.
    pub open spec fn text(self) -> Seq<char> {
        match self {
            Report::Proposing => "Proposing remote peer to open a channel"@,
            Report::Accepting => "Accepting channel from remote peer"@,
            Report::Accepted => "Accepted channel from remote peer"@,
            Report::WasAccepted => "Channel was accepted by the remote peer"@,
            Report::ReadyForFunding => "Channel is ready for funding"@,
            Report::Funding => "Funding channel"@,
            Report::ChannelIdSet => "Channel ID set"@,
            Report::FundingCreated => "Funding created. Awaiting for remote node signature."@,
            Report::AcceptingFunding => "Accepting channel funding"@,
            Report::FundingSigned => "Funding signed. Awaiting for funding tx mining."@,
            Report::Transferred => "Funding transferred, awaiting for peer signature"@,
        }
    }

    /// The report in words.
    pub fn to_text(&self) -> (text: String)
        ensures
            text@ == self.text(),
    {
        match self {
            Report::Proposing => "Proposing remote peer to open a channel".to_owned(),
            Report::Accepting => "Accepting channel from remote peer".to_owned(),
            Report::Accepted => "Accepted channel from remote peer".to_owned(),
            Report::WasAccepted => "Channel was accepted by the remote peer".to_owned(),
            Report::ReadyForFunding => "Channel is ready for funding".to_owned(),
            Report::Funding => "Funding channel".to_owned(),
            Report::ChannelIdSet => "Channel ID set".to_owned(),
            Report::FundingCreated => "Funding created. Awaiting for remote node signature.".to_owned(),
            Report::AcceptingFunding => "Accepting channel funding".to_owned(),
            Report::FundingSigned => "Funding signed. Awaiting for funding tx mining.".to_owned(),
            Report::Transferred => "Funding transferred, awaiting for peer signature".to_owned(),
        }
    }
}

/// Whether no asset occurs twice.
pub open spec fn one_balance_each(balances: Seq<AssetBalance>) -> bool {
    forall|i: int, j: int|
        0 <= i < j < balances.len() ==> (#[trigger] balances[i]).asset != (#[trigger] balances[j]).asset
}

/// Mathematical value of a channel daemon.
pub struct Channel {
    /// The address under which the daemon is reached.
    pub identity: Address,
    /// The connection daemon that serves the peer.
    pub peer_service: Address,
    pub local_node: LocalNode,
    pub channel_id: ChannelId,
    pub temporary_channel_id: TempChannelId,
    pub state: ChannelState,
    pub local_capacity: u64,
    pub remote_capacity: u64,
    /// What this side holds of each asset other than the native one.
    pub local_balances: Seq<AssetBalance>,
    /// What the other side holds of each asset other than the native one.
    pub remote_balances: Seq<AssetBalance>,
    pub funding_outpoint: OutPoint,
    pub remote_peer: Option<Seq<char>>,
    /// When the daemon started, in seconds since the epoch.
    pub started: u64,
    pub commitment_number: u64,
    pub total_payments: u64,
    pub pending_payments: u16,
    pub params: ChannelParams,
    pub local_keys: ChannelKeys,
    pub remote_keys: ChannelKeys,
    pub is_originator: bool,
    pub obscuring_factor: u64,
    /// Who is told how a request went.
    pub enquirer: Option<Address>,
    /// Whether this side has seen the funding buried deep enough.
    pub local_locked: bool,
    /// The signature of the other side under a commitment transaction.
    pub remote_signature: Option<Signature>,
    /// The next per-commitment point of the other side.
    pub remote_point: Option<PublicKey>,
}

/// Whether a channel in this state has no funding yet.
pub open spec fn before_funding(state: ChannelState) -> bool {
    state is Proposed || state is Accepted
}

impl Channel {
    /// What holds of every channel daemon: the capacities add up within 64
    /// bits; the channel id is zero exactly until the channel is funded; the
    /// daemon is reached under the temporary id until then, and under the
    /// channel id after; the parameters are within bounds; no commitment was
    /// counted before the funding; each side has one balance of an asset at
    /// most.
    pub open spec fn wf(self) -> bool {
        &&& self.local_capacity + self.remote_capacity <= u64::MAX
        &&& one_balance_each(self.local_balances)
        &&& one_balance_each(self.remote_balances)
        &&& before_funding(self.state) <==> self.channel_id@ == zero_id()
        &&& self.identity == Address::Channel(
            if before_funding(self.state) {
                self.temporary_channel_id@
            } else {
                self.channel_id@
            },
        )
        &&& self.params.acceptable()
        &&& before_funding(self.state) ==> self.commitment_number == 0
    }

    /// The value of the funding output: what both sides hold together.
    pub open spec fn capacity(self) -> int {
        self.local_capacity + self.remote_capacity
    }

    /// Whether this is the channel as it is when its daemon starts: known by
    /// `id`, with no peer, no funding and no payments, and with the stand-in
    /// key in the place of every key.
    pub open spec fn is_fresh(self, local_node: LocalNode, id: TempChannelId, started: u64) -> bool {
        &&& self.identity == Address::Channel(id@)
        &&& self.peer_service == Address::Loopback
        &&& self.local_node == local_node
        &&& self.channel_id@ == zero_id()
        &&& self.temporary_channel_id == id
        &&& self.state == ChannelState::Proposed
        &&& self.local_capacity == 0
        &&& self.remote_capacity == 0
        &&& self.local_balances.len() == 0
        &&& self.remote_balances.len() == 0
        &&& self.funding_outpoint.txid@ == zero_id()
        &&& self.funding_outpoint.vout == 0
        &&& self.remote_peer is None
        &&& self.started == started
        &&& self.commitment_number == 0
        &&& self.total_payments == 0
        &&& self.pending_payments == 0
        &&& self.params == ChannelParams::unset()
        &&& self.local_keys == self.remote_keys
        &&& self.local_keys.funding_pubkey@ == crate::keys::public_key_of(crate::keys::one_key())
        &&& self.local_keys.revocation_basepoint == self.local_keys.funding_pubkey
        &&& self.local_keys.payment_basepoint == self.local_keys.funding_pubkey
        &&& self.local_keys.delayed_payment_basepoint == self.local_keys.funding_pubkey
        &&& self.local_keys.htlc_basepoint == self.local_keys.funding_pubkey
        &&& self.local_keys.first_per_commitment_point == self.local_keys.funding_pubkey
        &&& !self.is_originator
        &&& self.obscuring_factor == 0
        &&& self.enquirer is None
        &&& !self.local_locked
        &&& self.remote_signature is None
        &&& self.remote_point is None
    }

    /// The channel after it proposed `req` to its peer, or the rule that
    /// `req` breaks.
    pub open spec fn proposing(self, req: OpenChannel) -> Result<Channel, ChannelNegotiationError> {
        if self.state != ChannelState::Proposed {
            Err(ChannelNegotiationError::UnexpectedState(self.state))
        } else {
            match ChannelParams::with_spec(req) {
                Err(err) => Err(err),
                Ok(params) => Ok(
                    Channel {
                        is_originator: true,
                        params,
                        local_keys: open_channel_keys(req),
                        local_capacity: (req.funding_satoshis - req.push_msat / 1000) as u64,
                        remote_capacity: (req.push_msat / 1000) as u64,
                        ..self
                    },
                ),
            }
        }
    }

    /// The answer that this node gives to a proposal: the proposed values
    /// again, its own number of confirmations, and the node key in the place
    /// of every basepoint.
    pub open spec fn answer(self, req: OpenChannel) -> AcceptChannel {
        let key = self.local_node.public_key();
        AcceptChannel {
            temporary_channel_id: req.temporary_channel_id,
            dust_limit_satoshis: req.dust_limit_satoshis,
            max_htlc_value_in_flight_msat: req.max_htlc_value_in_flight_msat,
            channel_reserve_satoshis: req.channel_reserve_satoshis,
            htlc_minimum_msat: req.htlc_minimum_msat,
            minimum_depth: MINIMUM_DEPTH,
            to_self_delay: req.to_self_delay,
            max_accepted_htlcs: req.max_accepted_htlcs,
            funding_pubkey: key,
            revocation_basepoint: key,
            payment_point: key,
            delayed_payment_basepoint: key,
            htlc_basepoint: key,
            first_per_commitment_point: key,
        }
    }

    /// The channel after it took the proposal `req` of its peer and answered
    /// it, or the rule that `req` breaks. The state is left as it is: the
    /// channel counts as accepted only once the answer is on its way.
    pub open spec fn accepting(self, req: OpenChannel) -> Result<Channel, ChannelNegotiationError> {
        let accept = self.answer(req);
        if self.state != ChannelState::Proposed {
            Err(ChannelNegotiationError::UnexpectedState(self.state))
        } else {
            match ChannelParams::with_spec(req) {
                Err(err) => Err(err),
                Ok(params) => Ok(
                    Channel {
                        is_originator: false,
                        params: ChannelParams::answered(accept),
                        remote_keys: open_channel_keys(req),
                        local_keys: accept_channel_keys(accept),
                        local_capacity: (req.push_msat / 1000) as u64,
                        remote_capacity: (req.funding_satoshis - req.push_msat / 1000) as u64,
                        ..self
                    },
                ),
            }
        }
    }

    /// The channel after it took the answer `accept` of its peer to its
    /// proposal, or the rule that `accept` breaks. The state is left as it
    /// is: the channel counts as accepted only once the enquirer was told
    /// what to fund.
    pub open spec fn accepted(self, accept: AcceptChannel) -> Result<Channel, ChannelNegotiationError> {
        if self.state != ChannelState::Proposed {
            Err(ChannelNegotiationError::UnexpectedState(self.state))
        } else {
            match self.params.rejection(accept, None) {
                Some(err) => Err(err),
                None => Ok(
                    Channel {
                        params: ChannelParams::answered(accept),
                        remote_keys: accept_channel_keys(accept),
                        ..self
                    },
                ),
            }
        }
    }

    /// The obscuring factor of the channel: the opener's payment basepoint
    /// goes first, whichever side this is.
    pub open spec fn funding_factor(self) -> u64 {
        if self.is_originator {
            obscuring_factor_of(
                self.local_keys.payment_basepoint@,
                self.remote_keys.payment_basepoint@,
            )
        } else {
            obscuring_factor_of(
                self.remote_keys.payment_basepoint@,
                self.local_keys.payment_basepoint@,
            )
        }
    }

    /// The channel id that the funding outpoint gives.
    pub open spec fn funding_id(self) -> Seq<u8> {
        derived_id(self.funding_outpoint.txid@, self.funding_outpoint.vout)
    }

    /// Why the channel cannot take its funding outpoint, if it cannot: it is
    /// not in the state `Accepted`, or the outpoint gives the channel id of
    /// all zeros, which stands for "not funded".
    pub open spec fn funding_refusal(self) -> Option<Seq<char>> {
        if self.state != ChannelState::Accepted {
            Some(not_expected())
        } else if self.funding_id() == zero_id() {
            Some(zero_channel_id())
        } else {
            None
        }
    }

    /// Whether `next` is this channel after it took its funding outpoint:
    /// the obscuring factor is computed, the commitment number starts at
    /// zero, and the channel id, derived from the outpoint, is the address
    /// of the daemon from now on.
    pub open spec fn funded_as(self, next: Channel) -> bool {
        &&& next.channel_id@ == self.funding_id()
        &&& next == Channel {
            obscuring_factor: self.funding_factor(),
            commitment_number: 0,
            channel_id: next.channel_id,
            identity: Address::Channel(self.funding_id()),
            state: ChannelState::FundingCreated,
            ..self
        }
    }

    /// What the daemon tells the supervisor when the channel is funded.
    pub open spec fn id_update(self, next: Channel) -> Sent {
        Sent {
            bus: ServiceBus::Ctl,
            source: self.identity,
            dest: Address::Lnpd,
            request: RequestView::UpdateChannelId(next.channel_id),
        }
    }

    /// The outputs of a commitment transaction of the channel: that of this
    /// side if `ours`, that of the other side if not. The holder's balance is
    /// delayed and can be revoked by the other side; the other side's
    /// balance is paid at once.
    pub open spec fn commitment(self, ours: bool) -> Seq<(u64, Seq<u8>)> {
        if ours {
            commitment_outputs(
                self.local_capacity,
                self.remote_keys.revocation_basepoint@,
                self.local_keys.delayed_payment_basepoint@,
                self.params.to_self_delay,
                self.remote_capacity,
                self.remote_keys.payment_basepoint@,
            )
        } else {
            commitment_outputs(
                self.remote_capacity,
                self.local_keys.revocation_basepoint@,
                self.remote_keys.delayed_payment_basepoint@,
                self.params.to_self_delay,
                self.local_capacity,
                self.local_keys.payment_basepoint@,
            )
        }
    }

    /// The digest that a signature under a commitment transaction signs:
    /// that of the transaction which spends the funding outpoint, carries
    /// the obscured commitment number in lock time and sequence, and has the
    /// outputs of [`Channel::commitment`]; for `SIGHASH_ALL`, over the
    /// funding witness script and the whole value of the funding output.
    pub open spec fn commitment_digest(self, ours: bool) -> Seq<u8> {
        let obscured = obscured_commitment_number(self.commitment_number, self.obscuring_factor);
        segwit_sighash(
            COMMITMENT_VERSION,
            lock_time_of(obscured),
            self.funding_outpoint.txid@,
            self.funding_outpoint.vout,
            sequence_of(obscured),
            self.commitment(ours),
            funding_witness_script(
                self.local_keys.funding_pubkey@,
                self.remote_keys.funding_pubkey@,
            ),
            self.capacity() as u64,
        )
    }

    /// The signature of this side under the other side's commitment
    /// transaction.
    pub open spec fn funding_signature(self) -> Seq<u8> {
        ecdsa_signature(self.local_node.secret(), self.commitment_digest(false))
    }

    /// Whether `m` is the `funding_created` of the channel.
    pub open spec fn sends_funding_created(self, m: FundingCreated) -> bool {
        &&& m.temporary_channel_id == self.temporary_channel_id
        &&& m.funding_txid == self.funding_outpoint.txid
        &&& m.funding_output_index == self.funding_outpoint.vout % 0x1_0000
        &&& m.signature@ == self.funding_signature()
    }

    /// Whether `m` is the `funding_signed` of the channel.
    pub open spec fn sends_funding_signed(self, m: FundingSigned) -> bool {
        &&& m.channel_id == self.channel_id
        &&& m.signature@ == self.funding_signature()
    }

    /// The channel with the funding outpoint that `m` names and the
    /// signature that `m` carries.
    pub open spec fn offered(self, m: FundingCreated) -> Channel {
        Channel {
            funding_outpoint: OutPoint { txid: m.funding_txid, vout: m.funding_output_index as u32 },
            remote_signature: Some(m.signature),
            ..self
        }
    }

    /// Why a `funding_signed` is turned down, if it is: the channel does not
    /// wait for one, or the signature does not sign this side's commitment
    /// transaction under the funding key of the other side.
    pub open spec fn signing_refusal(self, m: FundingSigned) -> Option<Seq<char>> {
        if self.state != ChannelState::FundingCreated {
            Some(not_expected())
        } else if !ecdsa_verifies(
            self.remote_keys.funding_pubkey@,
            self.commitment_digest(true),
            m.signature@,
        ) {
            Some(bad_signature())
        } else {
            None
        }
    }

    /// The channel after a `funding_signed` that was not turned down.
    pub open spec fn signed(self, m: FundingSigned) -> Channel {
        Channel { remote_signature: Some(m.signature), state: ChannelState::Funded, ..self }
    }

    /// The channel after the other side locked the funding: in use if this
    /// side has locked it too.
    pub open spec fn locked(self, m: FundingLocked) -> Channel {
        Channel {
            remote_point: Some(m.next_per_commitment_point),
            state: if self.local_locked {
                ChannelState::Operational
            } else {
                ChannelState::Locked
            },
            ..self
        }
    }

    /// The channel after this side locked the funding: in use if the other
    /// side has locked it too.
    pub open spec fn confirmed(self) -> Channel {
        Channel {
            local_locked: true,
            state: if self.state == ChannelState::Locked {
                ChannelState::Operational
            } else {
                self.state
            },
            ..self
        }
    }

    /// Why a payment is turned down, if it is: the channel is not in use, or
    /// it has counted as many payments as 64 bits can count.
    pub open spec fn transfer_refusal(self) -> Option<Seq<char>> {
        if self.state != ChannelState::Operational {
            Some(not_expected())
        } else if self.total_payments == u64::MAX {
            Some(payments_exhausted())
        } else {
            None
        }
    }

    /// The channel after it offered one more payment.
    pub open spec fn paid(self) -> Channel {
        Channel { total_payments: (self.total_payments + 1) as u64, ..self }
    }

    /// Whether `m` offers the payment `req` as the next one of the channel,
    /// locked to whatever hash it holds.
    pub open spec fn offers(self, req: Transfer, m: UpdateAddHtlc) -> bool {
        &&& m.channel_id == self.channel_id
        &&& m.htlc_id == self.total_payments
        &&& m.amount_msat == req.amount
        &&& m.cltv_expiry == 0
        &&& m.asset_id == req.asset
    }

    /// What the channel tells of itself at the time `now`.
    pub open spec fn info(self, now: u64) -> ChannelInfoView {
        ChannelInfoView {
            channel_id: if self.channel_id@ == zero_id() {
                None
            } else {
                Some(self.channel_id)
            },
            temporary_channel_id: self.temporary_channel_id,
            state: self.state,
            local_capacity: self.local_capacity,
            remote_capacity: self.remote_capacity,
            local_balances: self.local_balances,
            remote_balances: self.remote_balances,
            funding_outpoint: self.funding_outpoint,
            remote_peer: self.remote_peer,
            uptime: if now >= self.started {
                (now - self.started) as u64
            } else {
                0
            },
            since: self.started,
            commitment_updates: self.commitment_number,
            total_payments: self.total_payments,
            pending_payments: self.pending_payments,
            is_originator: self.is_originator,
            params: self.params,
            local_keys: self.local_keys,
            remote_keys: self.remote_keys,
        }
    }
    /// What the channel sends to its enquirer, if it has one.
    pub open spec fn told(self, dest: Option<Address>, request: RequestView) -> Seq<Sent> {
        match dest {
            Some(dest) => seq![Sent { bus: ServiceBus::Ctl, source: self.identity, dest, request }],
            None => Seq::<Sent>::empty(),
        }
    }

    /// A report of progress to the enquirer, if there is one.
    pub open spec fn progress(self, report: Report) -> Seq<Sent> {
        self.told(self.enquirer, RequestView::Progress(report.text()))
    }

    /// A report of success to the enquirer, if there is one.
    pub open spec fn success(self, report: Report) -> Seq<Sent> {
        self.told(self.enquirer, RequestView::Success(Some(report.text())))
    }

    /// The report with which a negotiation starts, unless the channel is
    /// past its proposal and the request is turned down at once.
    pub open spec fn attempt(self, report: Report) -> Seq<Sent> {
        if self.state == ChannelState::Proposed {
            self.progress(report)
        } else {
            Seq::<Sent>::empty()
        }
    }

    /// What the daemon sends while it takes its funding and becomes `next`:
    /// a first report, the channel id to the supervisor, then, under its new
    /// address, the report that the channel id is set and a last report.
    pub open spec fn funding_reports(self, next: Channel, first: Report, last: Report) -> Seq<Sent> {
        self.progress(first).push(self.id_update(next)) + next.progress(Report::ChannelIdSet)
            + next.progress(last)
    }

    /// The channel once its negotiation is complete.
    pub open spec fn settled(self) -> Channel {
        Channel { state: ChannelState::Accepted, ..self }
    }

    /// A peer message on its way to the connection daemon of the channel.
    pub open spec fn to_peer(self, m: Messages) -> Sent {
        Sent {
            bus: ServiceBus::Msg,
            source: self.identity,
            dest: self.peer_service,
            request: RequestView::PeerMessage(m),
        }
    }

    /// The channel once it is told which connection daemon serves the peer.
    pub open spec fn paired(self, peerd: Address) -> Channel {
        Channel {
            peer_service: peerd,
            remote_peer: match peerd {
                Address::Connection(endpoint) => Some(endpoint),
                _ => self.remote_peer,
            },
            ..self
        }
    }

    /// Whether a request from the peer took the channel from `self` to
    /// `next`, with `sent` queued and `result` returned.
    ///
    /// - `accept_channel` is taken as the answer to the proposal; the
    ///   enquirer is told the script to fund, and the channel is accepted
    ///   from then on. Turned down, it is reported to the enquirer.
    /// - `funding_created` funds the channel; the supervisor is told the
    ///   channel id and the peer gets `funding_signed`.
    /// - `funding_signed` and `funding_locked` move the channel on.
    /// - Any other peer message is ignored, and anything that is no peer
    ///   message is not supported.
    /// - Whatever is turned down leaves the channel as it was.
    pub open spec fn msg_handled(
        self,
        request: RequestView,
        next: Channel,
        sent: Seq<Sent>,
        result: Result<(), ErrorView>,
    ) -> bool {
        match request {
            RequestView::PeerMessage(Messages::AcceptChannel(m)) => match self.accepted(m) {
                Ok(after) => {
                    &&& result is Ok
                    &&& next == after.settled()
                    &&& sent == self.progress(Report::WasAccepted) + self.success(
                        Report::ReadyForFunding,
                    ) + next.told(
                        next.enquirer,
                        RequestView::ChannelFunding(
                            funding_script_pubkey(
                                next.local_keys.funding_pubkey@,
                                m.funding_pubkey@,
                            ),
                        ),
                    )
                },
                Err(err) => {
                    &&& result == Err::<(), ErrorView>(ErrorView::Negotiation(err))
                    &&& next == self
                    &&& sent == self.attempt(Report::WasAccepted) + self.told(
                        self.enquirer,
                        RequestView::Failure(err),
                    )
                },
            },
            RequestView::PeerMessage(Messages::FundingCreated(m)) => match self.offered(
                m,
            ).funding_refusal() {
                None => {
                    &&& result is Ok
                    &&& self.offered(m).funded_as(next)
                    &&& sent.len() > 0
                    &&& sent.last().request matches RequestView::PeerMessage(Messages::FundingSigned(signed))
                    &&& next.sends_funding_signed(signed)
                    &&& sent == self.offered(m).funding_reports(
                        next,
                        Report::AcceptingFunding,
                        Report::FundingSigned,
                    ).push(next.to_peer(Messages::FundingSigned(signed)))
                },
                Some(text) => {
                    &&& result == Err::<(), ErrorView>(ErrorView::Other(text))
                    &&& next == self
                    &&& sent.len() == 0
                },
            },
            RequestView::PeerMessage(Messages::FundingSigned(m)) => {
                &&& sent.len() == 0
                &&& match self.signing_refusal(m) {
                    None => result is Ok && next == self.signed(m),
                    Some(text) => result == Err::<(), ErrorView>(ErrorView::Other(text)) && next
                        == self,
                }
            },
            RequestView::PeerMessage(Messages::FundingLocked(m)) => {
                &&& sent.len() == 0
                &&& if self.state == ChannelState::Funded {
                    result is Ok && next == self.locked(m)
                } else {
                    result == Err::<(), ErrorView>(ErrorView::Other(not_expected())) && next == self
                }
            },
            RequestView::PeerMessage(_) => result is Ok && next == self && sent.len() == 0,
            _ => {
                &&& result == Err::<(), ErrorView>(
                    ErrorView::NotSupported(ServiceBus::Msg, type_of(request)),
                )
                &&& next == self
                &&& sent.len() == 0
            },
        }
    }

    /// Whether a control request from `source` took the channel from `self`
    /// to `next`, with `sent` queued and `result` returned.
    ///
    /// - `OpenChannelWith` proposes the channel to the peer, and makes whom
    ///   the request names the enquirer. `AcceptChannelFrom` takes the
    ///   peer's proposal and answers it; the channel is accepted once the
    ///   answer is queued. Turned down, either is reported to whom the
    ///   request names; a channel that is past its proposal is left as it
    ///   was.
    /// - `FundChannel` funds the channel; the supervisor is told the channel
    ///   id and the peer gets `funding_created`. `Transfer` offers a payment
    ///   to the peer. Either makes `source` the enquirer, and changes nothing
    ///   else when it is turned down.
    /// - `GetInfo` is answered to `source` with all that the channel knows;
    ///   only the uptime depends on the clock.
    /// - Anything else is not supported.
    pub open spec fn ctl_handled(
        self,
        source: Address,
        request: RequestView,
        next: Channel,
        sent: Seq<Sent>,
        result: Result<(), ErrorView>,
    ) -> bool {
        match request {
            RequestView::OpenChannelWith(c) => if self.state != ChannelState::Proposed {
                &&& result == Err::<(), ErrorView>(
                    ErrorView::Negotiation(ChannelNegotiationError::UnexpectedState(self.state)),
                )
                &&& next == self
                &&& sent == self.told(
                    c.report_to,
                    RequestView::Failure(ChannelNegotiationError::UnexpectedState(self.state)),
                )
            } else {
                let paired = Channel { enquirer: c.report_to, ..self.paired(c.peerd) };
                match paired.proposing(c.channel_req) {
                    Ok(after) => {
                        &&& result is Ok
                        &&& next == after
                        &&& sent == paired.progress(Report::Proposing).push(
                            next.to_peer(Messages::OpenChannel(c.channel_req)),
                        )
                    },
                    Err(err) => {
                        &&& result == Err::<(), ErrorView>(ErrorView::Negotiation(err))
                        &&& next == paired
                        &&& sent == paired.progress(Report::Proposing) + paired.told(
                            c.report_to,
                            RequestView::Failure(err),
                        )
                    },
                }
            },
            RequestView::AcceptChannelFrom(c) => if self.state != ChannelState::Proposed {
                &&& result == Err::<(), ErrorView>(
                    ErrorView::Negotiation(ChannelNegotiationError::UnexpectedState(self.state)),
                )
                &&& next == self
                &&& sent == self.told(
                    c.report_to,
                    RequestView::Failure(ChannelNegotiationError::UnexpectedState(self.state)),
                )
            } else {
                let paired = self.paired(c.peerd);
                match paired.accepting(c.channel_req) {
                    Ok(after) => {
                        &&& result is Ok
                        &&& next == after.settled()
                        &&& sent == (paired.progress(Report::Accepting) + paired.success(
                            Report::Accepted,
                        )).push(next.to_peer(Messages::AcceptChannel(paired.answer(c.channel_req))))
                    },
                    Err(err) => {
                        &&& result == Err::<(), ErrorView>(ErrorView::Negotiation(err))
                        &&& next == paired
                        &&& sent == paired.progress(Report::Accepting) + paired.told(
                            c.report_to,
                            RequestView::Failure(err),
                        )
                    },
                }
            },
            RequestView::FundChannel(funding_outpoint) => {
                let asked = Channel { enquirer: Some(source), ..self };
                match (Channel { funding_outpoint, ..asked }).funding_refusal() {
                    None => {
                        &&& result is Ok
                        &&& (Channel { funding_outpoint, ..asked }).funded_as(next)
                        &&& sent.len() > 0
                        &&& sent.last().request matches RequestView::PeerMessage(Messages::FundingCreated(created))
                        &&& next.sends_funding_created(created)
                        &&& sent == (Channel { funding_outpoint, ..asked }).funding_reports(
                            next,
                            Report::Funding,
                            Report::FundingCreated,
                        ).push(next.to_peer(Messages::FundingCreated(created)))
                    },
                    Some(text) => {
                        &&& result == Err::<(), ErrorView>(ErrorView::Other(text))
                        &&& next == asked
                        &&& sent.len() == 0
                    },
                }
            },
            RequestView::Transfer(req) => {
                let asked = Channel { enquirer: Some(source), ..self };
                match asked.transfer_refusal() {
                    None => {
                        &&& result is Ok
                        &&& next == asked.paid()
                        &&& sent.len() > 0
                        &&& sent.last().request matches RequestView::PeerMessage(Messages::UpdateAddHtlc(offer))
                        &&& asked.offers(req, offer)
                        &&& sent == asked.progress(Report::Transferred).push(
                            next.to_peer(Messages::UpdateAddHtlc(offer)),
                        )
                    },
                    Some(text) => {
                        &&& result == Err::<(), ErrorView>(ErrorView::Other(text))
                        &&& next == asked
                        &&& sent.len() == 0
                    },
                }
            },
            RequestView::GetInfo => {
                &&& result is Ok
                &&& next == self
                &&& sent.len() == 1
                &&& sent[0].request matches RequestView::ChannelInfo(info)
                &&& ChannelInfoView { uptime: 0, ..info } == self.info(0)
                &&& sent[0] == Sent {
                    bus: ServiceBus::Ctl,
                    source: self.identity,
                    dest: source,
                    request: RequestView::ChannelInfo(info),
                }
            },
            _ => {
                &&& result == Err::<(), ErrorView>(
                    ErrorView::NotSupported(ServiceBus::Ctl, type_of(request)),
                )
                &&& next == self
                &&& sent.len() == 0
            },
        }
    }

    /// Whether a request from `source` on `bus` took the channel from
    /// `self` to `next`, with `sent` queued and `result` returned. The
    /// `Bridge` bus supports nothing.
    pub open spec fn handled(
        self,
        bus: ServiceBus,
        source: Address,
        request: RequestView,
        next: Channel,
        sent: Seq<Sent>,
        result: Result<(), ErrorView>,
    ) -> bool {
        match bus {
            ServiceBus::Msg => self.msg_handled(request, next, sent, result),
            ServiceBus::Ctl => self.ctl_handled(source, request, next, sent, result),
            ServiceBus::Bridge => {
                &&& result == Err::<(), ErrorView>(
                    ErrorView::NotSupported(ServiceBus::Bridge, type_of(request)),
                )
                &&& next == self
                &&& sent.len() == 0
            },
        }
    }
}

/// The view of what a handler returns.
pub open spec fn result_view(result: Result<(), Error>) -> Result<(), ErrorView> {
    match result {
        Ok(()) => Ok(()),
        Err(err) => Err(err@),
    }
}

/// What was queued since `before`.
pub open spec fn queued_since(before: Seq<Sent>, after: Seq<Sent>) -> Seq<Sent> {
    after.subrange(before.len() as int, after.len() as int)
}

/// Whether `after` is `before` with more queued behind it.
pub open spec fn extends(before: Seq<Sent>, after: Seq<Sent>) -> bool {
    before.len() <= after.len() && after == before + queued_since(before, after)
}

/// Where nothing was queued, nothing was queued since.
pub proof fn lemma_nothing_queued(queue: Seq<Sent>)
    ensures
        queued_since(queue, queue) == Seq::<Sent>::empty(),
        extends(queue, queue),
{
    assert(queued_since(queue, queue) =~= Seq::<Sent>::empty());
    assert(queue + Seq::<Sent>::empty() =~= queue);
}

/// What is queued behind a queue is what was queued since.
pub proof fn lemma_queued(before: Seq<Sent>, added: Seq<Sent>)
    ensures
        queued_since(before, before + added) == added,
        extends(before, before + added),
{
    assert(queued_since(before, before + added) =~= added);
}

/// What is said of a request that the state of the channel does not allow.
pub open spec fn not_expected() -> Seq<char> {
    "The channel is not in the state for this request"@
}

/// What is said of a funding outpoint that gives the channel id of all
/// zeros.
pub open spec fn zero_channel_id() -> Seq<char> {
    "The funding outpoint gives no channel id"@
}

/// What is said of a signature that does not sign the commitment
/// transaction.
pub open spec fn bad_signature() -> Seq<char> {
    "The signature of the commitment transaction is not valid"@
}

/// What is said when no payment can be counted any more.
pub open spec fn payments_exhausted() -> Seq<char> {
    "The channel has no payment number left"@
}

} // verus!
