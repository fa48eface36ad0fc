//! The requests that daemons exchange over the bus, and the queue in which
//! a handler leaves what it sends.

use crate::channel_id::{ChannelId, OutPoint, TempChannelId};
use crate::daemon_id::{Address, DaemonId};
use crate::keys::ChannelKeys;
use crate::message::{Messages, OpenChannel};
use crate::params::{ChannelNegotiationError, ChannelParams};
use vstd::prelude::*;

verus! {

/// The buses of the node.
#[derive(Clone, Copy, PartialEq, Eq, Debug, Hash, Structural)]
pub enum ServiceBus {
    /// Peer messages, to and from the connection daemons.
    Msg,
    /// Control requests of the operator and of the supervisor.
    Ctl,
    /// Reserved: every request on it is refused.
    Bridge,
}

/// The byte that stands for a bus in a frame.
pub open spec fn bus_tag(bus: ServiceBus) -> u8 {
    match bus {
        ServiceBus::Msg => 0,
        ServiceBus::Ctl => 1,
        ServiceBus::Bridge => 2,
    }
}

/// The bus that a byte in a frame stands for, if it stands for one.
pub open spec fn tagged_bus(tag: u8) -> Option<ServiceBus> {
    if tag == 0 {
        Some(ServiceBus::Msg)
    } else if tag == 1 {
        Some(ServiceBus::Ctl)
    } else if tag == 2 {
        Some(ServiceBus::Bridge)
    } else {
        None
    }
}

impl ServiceBus {
    /// The byte that stands for this bus in a frame.
    pub fn tag(&self) -> (tag: u8)
        ensures
            tag == bus_tag(*self),
    {
        match self {
            ServiceBus::Msg => 0,
            ServiceBus::Ctl => 1,
            ServiceBus::Bridge => 2,
        }
    }

    /// The bus that `tag` stands for, if it stands for one.
    pub fn from_tag(tag: u8) -> (bus: Option<ServiceBus>)
        ensures
            bus == tagged_bus(tag),
    {
        if tag == 0 {
            Some(ServiceBus::Msg)
        } else if tag == 1 {
            Some(ServiceBus::Ctl)
        } else if tag == 2 {
            Some(ServiceBus::Bridge)
        } else {
            None
        }
    }
}

/// The tag of a bus reads back as the bus, and no two buses share a tag.
pub proof fn lemma_bus_tag_reads_back(bus: ServiceBus, tag: u8)
    ensures
        tagged_bus(bus_tag(bus)) == Some(bus),
        tagged_bus(tag) == Some(bus) ==> tag == bus_tag(bus),
{
}

/// The life of a channel.
#[derive(Clone, Copy, PartialEq, Eq, Debug, Hash, Structural)]
pub enum ChannelState {
    Proposed,
    Accepted,
    FundingCreated,
    Funded,
    Locked,
    Operational,
    Closing,
    Closed,
}

/// The kind of a request, without its content.
#[derive(Clone, Copy, PartialEq, Eq, Debug, Hash, Structural)]
pub enum RequestType {
    Hello,
    PeerMessage,
    CreateChannel,
    Connect,
    OpenChannelWith,
    AcceptChannelFrom,
    FundChannel,
    Transfer,
    GetInfo,
    ChannelInfo,
    ChannelFunding,
    UpdateChannelId,
    Progress,
    Success,
    Failure,
}

/// What a channel daemon is told when it is to open or to accept a channel.
#[derive(Clone, PartialEq, Eq, Debug)]
pub struct CreateChannel {
    pub channel_req: OpenChannel,
    /// The connection daemon that serves the peer.
    pub peerd: DaemonId,
    /// Who is told how the negotiation went.
    pub report_to: Option<DaemonId>,
}

/// Mathematical value of a [`CreateChannel`].
pub struct CreateChannelView {
    pub channel_req: OpenChannel,
    pub peerd: Address,
    pub report_to: Option<Address>,
}

/// The view of an optional daemon.
pub open spec fn option_address(id: Option<DaemonId>) -> Option<Address> {
    match id {
        Some(id) => Some(id@),
        None => None,
    }
}

/// The view of an optional text.
pub open spec fn option_text(text: Option<String>) -> Option<Seq<char>> {
    match text {
        Some(text) => Some(text@),
        None => None,
    }
}

impl View for CreateChannel {
    type V = CreateChannelView;

    open spec fn view(&self) -> CreateChannelView {
        CreateChannelView {
            channel_req: self.channel_req,
            peerd: self.peerd@,
            report_to: option_address(self.report_to),
        }
    }
}

/// A payment to make over the channel.
#[derive(Clone, Copy, PartialEq, Eq, Debug)]
pub struct Transfer {
    /// Amount in millisatoshis, or in units of the asset.
    pub amount: u64,
    /// The asset to pay with; the native one if none is named.
    pub asset: Option<[u8; 32]>,
}

/// What one side holds of one asset.
#[derive(Clone, Copy, PartialEq, Eq, Debug)]
pub struct AssetBalance {
    pub asset: [u8; 32],
    pub amount: u64,
}

/// What a channel daemon tells of itself.
#[derive(Clone, PartialEq, Eq, Debug)]
pub struct ChannelInfo {
    /// The channel id, once the channel is funded.
    pub channel_id: Option<ChannelId>,
    pub temporary_channel_id: TempChannelId,
    pub state: ChannelState,
    pub local_capacity: u64,
    pub remote_capacity: u64,
    /// What this side holds of each asset other than the native one.
    pub local_balances: Vec<AssetBalance>,
    /// What the remote peer holds of each asset other than the native one.
    pub remote_balances: Vec<AssetBalance>,
    pub funding_outpoint: OutPoint,
    /// The endpoint of the remote node, once it is known.
    pub remote_peer: Option<String>,
    /// Seconds since the daemon started.
    pub uptime: u64,
    /// When the daemon started, in seconds since the epoch.
    pub since: u64,
    pub commitment_updates: u64,
    pub total_payments: u64,
    pub pending_payments: u16,
    pub is_originator: bool,
    pub params: ChannelParams,
    pub local_keys: ChannelKeys,
    pub remote_keys: ChannelKeys,
}

/// Mathematical value of a [`ChannelInfo`].
pub struct ChannelInfoView {
    pub channel_id: Option<ChannelId>,
    pub temporary_channel_id: TempChannelId,
    pub state: ChannelState,
    pub local_capacity: u64,
    pub remote_capacity: u64,
    pub local_balances: Seq<AssetBalance>,
    pub remote_balances: Seq<AssetBalance>,
    pub funding_outpoint: OutPoint,
    pub remote_peer: Option<Seq<char>>,
    pub uptime: u64,
    pub since: u64,
    pub commitment_updates: u64,
    pub total_payments: u64,
    pub pending_payments: u16,
    pub is_originator: bool,
    pub params: ChannelParams,
    pub local_keys: ChannelKeys,
    pub remote_keys: ChannelKeys,
}

impl View for ChannelInfo {
    type V = ChannelInfoView;

    open spec fn view(&self) -> ChannelInfoView {
        ChannelInfoView {
            channel_id: self.channel_id,
            temporary_channel_id: self.temporary_channel_id,
            state: self.state,
            local_capacity: self.local_capacity,
            remote_capacity: self.remote_capacity,
            local_balances: self.local_balances@,
            remote_balances: self.remote_balances@,
            funding_outpoint: self.funding_outpoint,
            remote_peer: option_text(self.remote_peer),
            uptime: self.uptime,
            since: self.since,
            commitment_updates: self.commitment_updates,
            total_payments: self.total_payments,
            pending_payments: self.pending_payments,
            is_originator: self.is_originator,
            params: self.params,
            local_keys: self.local_keys,
            remote_keys: self.remote_keys,
        }
    }
}

/// A request on the bus.
#[derive(Clone, PartialEq, Eq, Debug)]
pub enum Request {
    /// A daemon tells the supervisor that it is up.
    Hello,
    /// A message of the peer protocol, to or from a connection daemon.
    PeerMessage(Messages),
    /// Asks the supervisor for a channel; sent on by the supervisor to the
    /// channel daemon it started, with the connection daemon to use.
    CreateChannel { channel_req: OpenChannel, connectiond: DaemonId },
    /// A channel daemon tells the supervisor that it is ready.
    Connect,
    /// Tells a channel daemon to propose a channel.
    OpenChannelWith(CreateChannel),
    /// Tells a channel daemon to accept a proposed channel.
    AcceptChannelFrom(CreateChannel),
    /// Names the funding output of a channel.
    FundChannel(OutPoint),
    /// Asks for a payment.
    Transfer(Transfer),
    /// Asks a channel daemon what it knows of itself.
    GetInfo,
    /// The answer to `GetInfo`.
    ChannelInfo(ChannelInfo),
    /// The `scriptPubkey` that the funding transaction has to pay to.
    ChannelFunding(Vec<u8>),
    /// A channel daemon tells the supervisor the id of its funded channel.
    UpdateChannelId(ChannelId),
    /// Report of progress.
    Progress(String),
    /// Report of success.
    Success(Option<String>),
    /// Report of a failed negotiation.
    Failure(ChannelNegotiationError),
}

/// Mathematical value of a [`Request`].
pub enum RequestView {
    Hello,
    PeerMessage(Messages),
    CreateChannel { channel_req: OpenChannel, connectiond: Address },
    Connect,
    OpenChannelWith(CreateChannelView),
    AcceptChannelFrom(CreateChannelView),
    FundChannel(OutPoint),
    Transfer(Transfer),
    GetInfo,
    ChannelInfo(ChannelInfoView),
    ChannelFunding(Seq<u8>),
    UpdateChannelId(ChannelId),
    Progress(Seq<char>),
    Success(Option<Seq<char>>),
    Failure(ChannelNegotiationError),
}

impl View for Request {
    type V = RequestView;

    open spec fn view(&self) -> RequestView {
        match self {
            Request::Hello => RequestView::Hello,
            Request::PeerMessage(m) => RequestView::PeerMessage(*m),
            Request::CreateChannel { channel_req, connectiond } => RequestView::CreateChannel {
                channel_req: *channel_req,
                connectiond: connectiond@,
            },
            Request::Connect => RequestView::Connect,
            Request::OpenChannelWith(c) => RequestView::OpenChannelWith(c@),
            Request::AcceptChannelFrom(c) => RequestView::AcceptChannelFrom(c@),
            Request::FundChannel(outpoint) => RequestView::FundChannel(*outpoint),
            Request::Transfer(t) => RequestView::Transfer(*t),
            Request::GetInfo => RequestView::GetInfo,
            Request::ChannelInfo(info) => RequestView::ChannelInfo(info@),
            Request::ChannelFunding(script) => RequestView::ChannelFunding(script@),
            Request::UpdateChannelId(id) => RequestView::UpdateChannelId(*id),
            Request::Progress(text) => RequestView::Progress(text@),
            Request::Success(text) => RequestView::Success(option_text(*text)),
            Request::Failure(err) => RequestView::Failure(*err),
        }
    }
}

/// The kind of a request.
pub open spec fn type_of(request: RequestView) -> RequestType {
    match request {
        RequestView::Hello => RequestType::Hello,
        RequestView::PeerMessage(_) => RequestType::PeerMessage,
        RequestView::CreateChannel { .. } => RequestType::CreateChannel,
        RequestView::Connect => RequestType::Connect,
        RequestView::OpenChannelWith(_) => RequestType::OpenChannelWith,
        RequestView::AcceptChannelFrom(_) => RequestType::AcceptChannelFrom,
        RequestView::FundChannel(_) => RequestType::FundChannel,
        RequestView::Transfer(_) => RequestType::Transfer,
        RequestView::GetInfo => RequestType::GetInfo,
        RequestView::ChannelInfo(_) => RequestType::ChannelInfo,
        RequestView::ChannelFunding(_) => RequestType::ChannelFunding,
        RequestView::UpdateChannelId(_) => RequestType::UpdateChannelId,
        RequestView::Progress(_) => RequestType::Progress,
        RequestView::Success(_) => RequestType::Success,
        RequestView::Failure(_) => RequestType::Failure,
    }
}

impl Request {
    /// The kind of this request.
    pub fn get_type(&self) -> (kind: RequestType)
        ensures
            kind == type_of(self@),
    {
        match self {
            Request::Hello => RequestType::Hello,
            Request::PeerMessage(_) => RequestType::PeerMessage,
            Request::CreateChannel { .. } => RequestType::CreateChannel,
            Request::Connect => RequestType::Connect,
            Request::OpenChannelWith(_) => RequestType::OpenChannelWith,
            Request::AcceptChannelFrom(_) => RequestType::AcceptChannelFrom,
            Request::FundChannel(_) => RequestType::FundChannel,
            Request::Transfer(_) => RequestType::Transfer,
            Request::GetInfo => RequestType::GetInfo,
            Request::ChannelInfo(_) => RequestType::ChannelInfo,
            Request::ChannelFunding(_) => RequestType::ChannelFunding,
            Request::UpdateChannelId(_) => RequestType::UpdateChannelId,
            Request::Progress(_) => RequestType::Progress,
            Request::Success(_) => RequestType::Success,
            Request::Failure(_) => RequestType::Failure,
        }
    }
}

/// What a handler returns when it turns a request down.
#[derive(Clone, PartialEq, Eq, Debug)]
pub enum Error {
    /// The request came on a bus that does not carry it.
    NotSupported(ServiceBus, RequestType),
    /// The parameters of the channel were turned down.
    Negotiation(ChannelNegotiationError),
    /// The transport lost or refused a frame.
    Transport(String),
    /// The state of the channel could not be stored or loaded.
    Storage(String),
    /// Anything else, in words.
    Other(String),
}

/// Mathematical value of an [`Error`].
pub enum ErrorView {
    NotSupported(ServiceBus, RequestType),
    Negotiation(ChannelNegotiationError),
    Transport(Seq<char>),
    Storage(Seq<char>),
    Other(Seq<char>),
}

impl View for Error {
    type V = ErrorView;

    open spec fn view(&self) -> ErrorView {
        match self {
            Error::NotSupported(bus, kind) => ErrorView::NotSupported(*bus, *kind),
            Error::Negotiation(err) => ErrorView::Negotiation(*err),
            Error::Transport(text) => ErrorView::Transport(text@),
            Error::Storage(text) => ErrorView::Storage(text@),
            Error::Other(text) => ErrorView::Other(text@),
        }
    }
}

/// A request on its way: the bus, the sender, the receiver.
#[derive(Clone, PartialEq, Eq, Debug)]
pub struct Envelope {
    pub bus: ServiceBus,
    pub source: DaemonId,
    pub dest: DaemonId,
    pub request: Request,
}

/// Mathematical value of an [`Envelope`].
pub struct Sent {
    pub bus: ServiceBus,
    pub source: Address,
    pub dest: Address,
    pub request: RequestView,
}

impl View for Envelope {
    type V = Sent;

    open spec fn view(&self) -> Sent {
        Sent { bus: self.bus, source: self.source@, dest: self.dest@, request: self.request@ }
    }
}

/// The queue in which a handler leaves what it sends. Sending never blocks
/// and never fails; the process around the handler empties the queue into
/// the transport.
pub struct Senders {
    queue: Vec<Envelope>,
}

impl View for Senders {
    type V = Seq<Sent>;

    closed spec fn view(&self) -> Seq<Sent> {
        self.queue@.map_values(|e: Envelope| e@)
    }
}

impl Senders {
    /// An empty queue.
    pub fn new() -> (senders: Senders)
        ensures
            senders@ == Seq::<Sent>::empty(),
    {
        let senders = Senders { queue: Vec::new() };
        assert(senders@ =~= Seq::<Sent>::empty());
        senders
    }

    /// Queues `request` for `dest` on `bus`, as sent by `source`.
    pub fn send_to(&mut self, bus: ServiceBus, source: DaemonId, dest: DaemonId, request: Request)
        ensures
            final(self)@ == old(self)@.push(
                Sent { bus, source: source@, dest: dest@, request: request@ },
            ),
    {
        let envelope = Envelope { bus, source, dest, request };
        self.queue.push(envelope);
        assert(self@ =~= old(self)@.push(envelope@));
    }

    /// The number of requests in the queue.
    pub fn len(&self) -> (len: usize)
        ensures
            len == self@.len(),
    {
        self.queue.len()
    }

    /// Takes everything out of the queue, oldest first.
    pub fn take(&mut self) -> (taken: Vec<Envelope>)
        ensures
            taken@.map_values(|e: Envelope| e@) == old(self)@,
            final(self)@ == Seq::<Sent>::empty(),
    {
        let mut taken: Vec<Envelope> = Vec::new();
        std::mem::swap(&mut self.queue, &mut taken);
        assert(self@ =~= Seq::<Sent>::empty());
        taken
    }
}

} // verus!
