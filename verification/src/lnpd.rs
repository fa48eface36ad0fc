//! The supervisor: it starts a channel daemon for each channel that is asked
//! for, and tells the daemon its channel once the daemon is up.

use crate::channel_id::ChannelId;
use crate::daemon_id::{Address, DaemonId};
use crate::message::{Messages, OpenChannel};
use crate::rpc::{type_of, Error, ErrorView, Request, RequestView, Senders, Sent, ServiceBus};
use bitcoin::hashes::hex;
use vstd::prelude::*;

verus! {

/// The digit of a number below 16, in lower case.
pub open spec fn hex_digit(n: int) -> char {
    if n == 0 {
        '0'
    } else if n == 1 {
        '1'
    } else if n == 2 {
        '2'
    } else if n == 3 {
        '3'
    } else if n == 4 {
        '4'
    } else if n == 5 {
        '5'
    } else if n == 6 {
        '6'
    } else if n == 7 {
        '7'
    } else if n == 8 {
        '8'
    } else if n == 9 {
        '9'
    } else if n == 10 {
        'a'
    } else if n == 11 {
        'b'
    } else if n == 12 {
        'c'
    } else if n == 13 {
        'd'
    } else if n == 14 {
        'e'
    } else {
        'f'
    }
}

/// Bytes in hexadecimal: two digits for each byte, the high one first.
pub open spec fn hex_lower(bytes: Seq<u8>) -> Seq<char> {
    Seq::new(
        2 * bytes.len(),
        |i: int|
            hex_digit(
                if i % 2 == 0 {
                    bytes[i / 2] as int / 16
                } else {
                    bytes[i / 2] as int % 16
                },
            ),
    )
}

/// Calls `ToHex::to_hex` of `bitcoin` on a byte slice, which writes each
/// byte as two hexadecimal digits in lower case.
#[verifier::external_body]
fn to_hex(bytes: &[u8]) -> (text: String)
    ensures
        text@ == hex_lower(bytes@),
{
    hex::ToHex::to_hex(bytes)
}

/// A daemon to start as a process of its own.
#[derive(Clone, PartialEq, Eq, Debug)]
pub struct Launch {
    /// Name of the binary, beside that of the supervisor.
    pub daemon: String,
    /// What follows the command line of the supervisor.
    pub args: Vec<String>,
    /// The address from which the daemon will report once it is up.
    pub reports_as: DaemonId,
    /// The channel that the daemon is started for.
    pub channel_req: OpenChannel,
}

/// Mathematical value of a [`Launch`].
pub struct LaunchView {
    pub daemon: Seq<char>,
    pub args: Seq<Seq<char>>,
    pub reports_as: Address,
    pub channel_req: OpenChannel,
}

impl View for Launch {
    type V = LaunchView;

    open spec fn view(&self) -> LaunchView {
        LaunchView {
            daemon: self.daemon@,
            args: self.args@.map_values(|a: String| a@),
            reports_as: self.reports_as@,
            channel_req: self.channel_req,
        }
    }
}

/// The launch of a channel daemon for the channel that `channel_req` asks
/// for: its argument is the temporary channel id in hexadecimal, and it will
/// report as the channel with that id.
pub open spec fn channel_launch(channel_req: OpenChannel) -> LaunchView {
    LaunchView {
        daemon: "channeld"@,
        args: seq![hex_lower(channel_req.temporary_channel_id@)],
        reports_as: Address::Channel(channel_req.temporary_channel_id@),
        channel_req,
    }
}

/// The state of the supervisor.
pub struct Runtime {
    /// The channels whose daemon was started, each under the address at
    /// which its daemon will report. No address occurs twice. They are few
    /// and short-lived, and are kept as a list searched by
    /// [`DaemonId::same`], whose meaning is proved.
    opening_channels: Vec<(DaemonId, OpenChannel)>,
    /// The daemons that are to be started.
    launches: Vec<Launch>,
}

/// Mathematical value of the supervisor.
pub struct Supervisor {
    /// The channels that wait for their daemon, by the address of the daemon.
    pub opening_channels: Map<Address, OpenChannel>,
    /// The daemons that are to be started, oldest first.
    pub launches: Seq<LaunchView>,
}

/// What is said to a daemon that reports for a channel nobody asked for.
pub open spec fn unknown_channel() -> Seq<char> {
    "Unknown channel"@
}

/// Whether no address occurs twice.
pub open spec fn distinct(entries: Seq<(DaemonId, OpenChannel)>) -> bool {
    forall|i: int, j: int|
        0 <= i < j < entries.len() ==> (#[trigger] entries[i]).0@ != (#[trigger] entries[j]).0@
}

/// Whether an entry for `key` is at `i`.
pub open spec fn is_at(entries: Seq<(DaemonId, OpenChannel)>, key: Address, i: int) -> bool {
    0 <= i < entries.len() && entries[i].0@ == key
}

/// The map that the entries spell.
pub open spec fn as_map(entries: Seq<(DaemonId, OpenChannel)>) -> Map<Address, OpenChannel> {
    Map::new(
        |key: Address| exists|i: int| is_at(entries, key, i),
        |key: Address| entries[choose|i: int| is_at(entries, key, i)].1,
    )
}

impl View for Runtime {
    type V = Supervisor;

    closed spec fn view(&self) -> Supervisor {
        Supervisor {
            opening_channels: as_map(self.opening_channels@),
            launches: self.launches@.map_values(|l: Launch| l@),
        }
    }
}

impl Supervisor {
    /// The supervisor after it was asked for the channel `open_channel`: a
    /// channel daemon is to be started for it. Nothing waits yet.
    pub open spec fn asked(self, open_channel: OpenChannel) -> Supervisor {
        Supervisor { launches: self.launches.push(channel_launch(open_channel)), ..self }
    }

    /// The supervisor after the daemon of `launch` was started: the request
    /// waits under the address that the daemon will report from, in the
    /// place of any that waited there before.
    pub open spec fn opened(self, launch: LaunchView) -> Supervisor {
        Supervisor {
            opening_channels: self.opening_channels.insert(launch.reports_as, launch.channel_req),
            ..self
        }
    }

    /// Whether a request from the peer, relayed by `source`, took the
    /// supervisor from `self` to `next`, with `sent` queued and `result`
    /// returned: `open_channel` asks for a channel, for which a daemon is to
    /// be started; any other peer message is ignored, and anything else is
    /// not supported.
    pub open spec fn msg_handled(
        self,
        request: RequestView,
        next: Supervisor,
        sent: Seq<Sent>,
        result: Result<(), ErrorView>,
    ) -> bool {
        &&& sent.len() == 0
        &&& match request {
            RequestView::PeerMessage(Messages::OpenChannel(m)) => result is Ok && next
                == self.asked(m),
            RequestView::PeerMessage(_) => result is Ok && next == self,
            _ => result == Err::<(), ErrorView>(
                ErrorView::NotSupported(ServiceBus::Msg, type_of(request)),
            ) && next == self,
        }
    }

    /// Whether a control request from `source` took the supervisor from
    /// `self` to `next`, with `sent` queued and `result` returned:
    /// `CreateChannel` asks for a channel, for which a daemon is to be
    /// started; `Connect` of a channel daemon is answered with the request
    /// that waits for it, and turned down if none does; anything else is not
    /// supported.
    pub open spec fn ctl_handled(
        self,
        source: Address,
        request: RequestView,
        next: Supervisor,
        sent: Seq<Sent>,
        result: Result<(), ErrorView>,
    ) -> bool {
        match request {
            RequestView::CreateChannel { channel_req, connectiond } => {
                &&& result is Ok
                &&& next == self.asked(channel_req)
                &&& sent.len() == 0
            },
            RequestView::Connect => {
                &&& next == self
                &&& if self.opening_channels.dom().contains(source) {
                    &&& result is Ok
                    &&& sent == seq![
                        Sent {
                            bus: ServiceBus::Ctl,
                            source: Address::Lnpd,
                            dest: source,
                            request: RequestView::CreateChannel {
                                channel_req: self.opening_channels[source],
                                connectiond: source,
                            },
                        },
                    ]
                } else {
                    &&& result == Err::<(), ErrorView>(ErrorView::Other(unknown_channel()))
                    &&& sent.len() == 0
                }
            },
            _ => {
                &&& result == Err::<(), ErrorView>(
                    ErrorView::NotSupported(ServiceBus::Ctl, type_of(request)),
                )
                &&& next == self
                &&& sent.len() == 0
            },
        }
    }

    /// Whether a request from `source` on `bus` took the supervisor from
    /// `self` to `next`, with `sent` queued and `result` returned. The
    /// `Bridge` bus supports nothing.
    pub open spec fn handled(
        self,
        bus: ServiceBus,
        source: Address,
        request: RequestView,
        next: Supervisor,
        sent: Seq<Sent>,
        result: Result<(), ErrorView>,
    ) -> bool {
        match bus {
            ServiceBus::Msg => self.msg_handled(request, next, sent, result),
            ServiceBus::Ctl => self.ctl_handled(source, request, next, sent, result),
            ServiceBus::Bridge => {
                &&& result == Err::<(), ErrorView>(
                    ErrorView::NotSupported(ServiceBus::Bridge, type_of(request)),
                )
                &&& next == self
                &&& sent.len() == 0
            },
        }
    }
}

/// Where no address occurs twice, the entry for an address is the one the
/// map holds.
proof fn lemma_entry(entries: Seq<(DaemonId, OpenChannel)>, i: int)
    requires
        distinct(entries),
        0 <= i < entries.len(),
    ensures
        as_map(entries).dom().contains(entries[i].0@),
        as_map(entries)[entries[i].0@] == entries[i].1,
{
    let key = entries[i].0@;
    assert(is_at(entries, key, i));
    let j = choose|j: int| is_at(entries, key, j);
    assert(j == i);
}

impl Runtime {
    /// Whether no address occurs twice among the waiting channels.
    pub closed spec fn wf(&self) -> bool {
        distinct(self.opening_channels@)
    }

    /// A supervisor that no channel was asked of.
    pub fn new() -> (runtime: Runtime)
        ensures
            runtime.wf(),
            runtime@.opening_channels == Map::<Address, OpenChannel>::empty(),
            runtime@.launches == Seq::<LaunchView>::empty(),
    {
        let runtime = Runtime { opening_channels: Vec::new(), launches: Vec::new() };
        assert(runtime@.opening_channels =~= Map::<Address, OpenChannel>::empty());
        assert(runtime@.launches =~= Seq::<LaunchView>::empty());
        runtime
    }

    /// The address of the supervisor.
    pub fn identity(&self) -> (id: DaemonId)
        ensures
            id@ == Address::Lnpd,
    {
        DaemonId::Lnpd
    }

    /// Where the entry for `key` is, if there is one.
    fn position(&self, key: &DaemonId) -> (at: Option<usize>)
        requires
            self.wf(),
        ensures
            match at {
                Some(i) => is_at(self.opening_channels@, key@, i as int),
                None => !self@.opening_channels.dom().contains(key@),
            },
    {
        let mut i: usize = 0;
        while i < self.opening_channels.len()
            invariant
                i <= self.opening_channels@.len(),
                forall|j: int| 0 <= j < i ==> !is_at(self.opening_channels@, key@, j),
            decreases self.opening_channels@.len() - i,
        {
            if self.opening_channels[i].0.same(key) {
                return Some(i);
            }
            i += 1;
        }
        None
    }

    /// The request that waits for the daemon at `key`, if one does.
    pub fn waiting(&self, key: &DaemonId) -> (found: Option<OpenChannel>)
        requires
            self.wf(),
        ensures
            found == (if self@.opening_channels.dom().contains(key@) {
                Some(self@.opening_channels[key@])
            } else {
                None
            }),
    {
        match self.position(key) {
            Some(i) => {
                proof {
                    lemma_entry(self.opening_channels@, i as int);
                }
                Some(self.opening_channels[i].1)
            },
            None => None,
        }
    }

    /// Forgets the request that waits for the daemon at `key`, if one does.
    fn forget(&mut self, key: &DaemonId)
        requires
            old(self).wf(),
        ensures
            final(self).wf(),
            final(self)@ == (Supervisor {
                opening_channels: old(self)@.opening_channels.remove(key@),
                ..old(self)@
            }),
    {
        match self.position(key) {
            Some(i) => {
                let ghost before = self.opening_channels@;
                self.opening_channels.remove(i);
                proof {
                    let after = self.opening_channels@;
                    assert(after =~= before.remove(i as int));
                    assert(distinct(after)) by {
                        assert forall|a: int, b: int| 0 <= a < b < after.len() implies (
                        #[trigger] after[a]).0@ != (#[trigger] after[b]).0@ by {
                            let a0 = if a < i { a } else { a + 1 };
                            let b0 = if b < i { b } else { b + 1 };
                            assert(after[a] == before[a0] && after[b] == before[b0]);
                        }
                    }
                    assert(as_map(after) =~= as_map(before).remove(key@)) by {
                        assert forall|k: Address| #[trigger]
                            as_map(after).dom().contains(k) <==> as_map(before).remove(
                                key@,
                            ).dom().contains(k) by {
                            if as_map(after).dom().contains(k) {
                                let a = choose|a: int| is_at(after, k, a);
                                let a0 = if a < i { a } else { a + 1 };
                                assert(is_at(before, k, a0));
                                assert(before[a0].0@ != before[i as int].0@);
                            }
                            if as_map(before).remove(key@).dom().contains(k) {
                                let b = choose|b: int| is_at(before, k, b);
                                let b1 = if b < i { b } else { b - 1 };
                                assert(is_at(after, k, b1));
                            }
                        }
                        assert forall|k: Address| #[trigger]
                            as_map(after).dom().contains(k) implies as_map(after)[k] == as_map(
                            before,
                        ).remove(key@)[k] by {
                            let a = choose|a: int| is_at(after, k, a);
                            let a0 = if a < i { a } else { a + 1 };
                            assert(is_at(before, k, a0));
                            lemma_entry(before, a0);
                            lemma_entry(after, a);
                        }
                    }
                }
            },
            None => {
                assert(self@.opening_channels =~= old(self)@.opening_channels.remove(key@));
            },
        }
    }

    /// Takes out the daemons that are to be started, oldest first.
    pub fn take_launches(&mut self) -> (launches: Vec<Launch>)
        requires
            old(self).wf(),
        ensures
            final(self).wf(),
            launches@.map_values(|l: Launch| l@) == old(self)@.launches,
            final(self)@ == (Supervisor { launches: Seq::<LaunchView>::empty(), ..old(self)@ }),
    {
        let mut launches: Vec<Launch> = Vec::new();
        std::mem::swap(&mut self.launches, &mut launches);
        assert(self@.launches =~= Seq::<LaunchView>::empty());
        launches
    }

    /// Asks for a channel daemon to be started for `open_channel`.
    fn ask_for(&mut self, open_channel: OpenChannel)
        requires
            old(self).wf(),
        ensures
            final(self).wf(),
            final(self)@ == old(self)@.asked(open_channel),
    {
        let key = DaemonId::Channel(ChannelId(open_channel.temporary_channel_id.0));
        let hex = to_hex(open_channel.temporary_channel_id.0.as_slice());
        let mut args: Vec<String> = Vec::new();
        args.push(hex);
        let launch = Launch {
            daemon: "channeld".to_owned(),
            args,
            reports_as: key,
            channel_req: open_channel,
        };
        assert(launch@.args =~= seq![hex_lower(open_channel.temporary_channel_id@)]);
        let ghost launches_before = self.launches@;
        self.launches.push(launch);
        assert(self.launches@.map_values(|l: Launch| l@) =~= launches_before.map_values(
            |l: Launch| l@,
        ).push(launch@));
    }

    /// Takes note of how the start of the daemon of `launch` went. Once the
    /// daemon runs, its request waits for it to report, in the place of any
    /// that waited under the same address. If the daemon could not be
    /// started, the reason is returned and what waits is left as it is.
    pub fn open_channel(&mut self, launch: &Launch, launched: Result<(), String>) -> (done: Result<
        (),
        Error,
    >)
        requires
            old(self).wf(),
        ensures
            final(self).wf(),
            match launched {
                Ok(()) => done is Ok && final(self)@ == old(self)@.opened(launch@),
                Err(reason) => done matches Err(err) && err@ == ErrorView::Other(reason@)
                    && final(self)@ == old(self)@,
            },
    {
        if let Err(reason) = launched {
            return Err(Error::Other(reason));
        }
        let key = launch.reports_as.duplicate();
        let open_channel = launch.channel_req;
        let ghost removed = old(self)@.opening_channels.remove(key@);
        self.forget(&key);
        let ghost before = self.opening_channels@;
        self.opening_channels.push((key, open_channel));
        proof {
            let after = self.opening_channels@;
            let n = before.len() as int;
            assert(after =~= before.push((key, open_channel)));
            assert(!as_map(before).dom().contains(key@));
            assert(distinct(after)) by {
                assert forall|a: int, b: int| 0 <= a < b < after.len() implies (
                #[trigger] after[a]).0@ != (#[trigger] after[b]).0@ by {
                    if b == n {
                        assert(after[a] == before[a]);
                        assert(is_at(before, before[a].0@, a));
                    } else {
                        assert(after[a] == before[a] && after[b] == before[b]);
                    }
                }
            }
            assert(as_map(after) =~= removed.insert(key@, open_channel)) by {
                assert forall|k: Address| #[trigger]
                    as_map(after).dom().contains(k) <==> removed.insert(
                        key@,
                        open_channel,
                    ).dom().contains(k) by {
                    if as_map(after).dom().contains(k) {
                        let a = choose|a: int| is_at(after, k, a);
                        if a < n {
                            assert(is_at(before, k, a));
                        }
                    }
                    if removed.insert(key@, open_channel).dom().contains(k) {
                        if k == key@ {
                            assert(is_at(after, k, n));
                        } else {
                            let b = choose|b: int| is_at(before, k, b);
                            assert(is_at(after, k, b));
                        }
                    }
                }
                assert forall|k: Address| #[trigger]
                    as_map(after).dom().contains(k) implies as_map(after)[k] == removed.insert(
                    key@,
                    open_channel,
                )[k] by {
                    let a = choose|a: int| is_at(after, k, a);
                    lemma_entry(after, a);
                    if a < n {
                        assert(is_at(before, k, a));
                        lemma_entry(before, a);
                    }
                }
            }
            assert(removed.insert(key@, open_channel) =~= old(self)@.opening_channels.insert(
                key@,
                open_channel,
            ));
        }
        Ok(())
    }

    /// Handles a request that came from a peer, over the connection daemon
    /// `source`.
    pub fn handle_rpc_msg(&mut self, senders: &mut Senders, source: DaemonId, request: Request) -> (result: Result<
        (),
        Error,
    >)
        requires
            old(self).wf(),
        ensures
            final(self).wf(),
            crate::channel::extends(old(senders)@, final(senders)@),
            old(self)@.msg_handled(
                request@,
                final(self)@,
                crate::channel::queued_since(old(senders)@, final(senders)@),
                crate::channel::result_view(result),
            ),
    {
        proof {
            crate::channel::lemma_nothing_queued(senders@);
        }
        match request {
            Request::PeerMessage(Messages::OpenChannel(open_channel)) => {
                self.ask_for(open_channel);
                Ok(())
            },
            Request::PeerMessage(_) => Ok(()),
            _ => Err(Error::NotSupported(ServiceBus::Msg, request.get_type())),
        }
    }

    /// Handles a control request from `source`.
    pub fn handle_rpc_ctl(&mut self, senders: &mut Senders, source: DaemonId, request: Request) -> (result: Result<
        (),
        Error,
    >)
        requires
            old(self).wf(),
        ensures
            final(self).wf(),
            crate::channel::extends(old(senders)@, final(senders)@),
            old(self)@.ctl_handled(
                source@,
                request@,
                final(self)@,
                crate::channel::queued_since(old(senders)@, final(senders)@),
                crate::channel::result_view(result),
            ),
    {
        let ghost before = senders@;
        proof {
            crate::channel::lemma_nothing_queued(before);
        }
        match request {
            Request::CreateChannel { channel_req, connectiond } => {
                self.ask_for(channel_req);
                Ok(())
            },
            Request::Connect => {
                match self.waiting(&source) {
                    None => Err(Error::Other("Unknown channel".to_owned())),
                    Some(open_channel) => {
                        let ghost answer = Sent {
                            bus: ServiceBus::Ctl,
                            source: Address::Lnpd,
                            dest: source@,
                            request: RequestView::CreateChannel {
                                channel_req: open_channel,
                                connectiond: source@,
                            },
                        };
                        senders.send_to(
                            ServiceBus::Ctl,
                            DaemonId::Lnpd,
                            source.duplicate(),
                            Request::CreateChannel { channel_req: open_channel, connectiond: source },
                        );
                        proof {
                            crate::channel::lemma_queued(before, seq![answer]);
                            assert(senders@ =~= before + seq![answer]);
                        }
                        Ok(())
                    },
                }
            },
            _ => Err(Error::NotSupported(ServiceBus::Ctl, request.get_type())),
        }
    }

    /// Handles one request from `source` on `bus`: queues in `senders` what
    /// is to be sent, and returns why the request was turned down, if it was.
    pub fn handle(&mut self, senders: &mut Senders, bus: ServiceBus, source: DaemonId, request: Request) -> (result: Result<
        (),
        Error,
    >)
        requires
            old(self).wf(),
        ensures
            final(self).wf(),
            crate::channel::extends(old(senders)@, final(senders)@),
            old(self)@.handled(
                bus,
                source@,
                request@,
                final(self)@,
                crate::channel::queued_since(old(senders)@, final(senders)@),
                crate::channel::result_view(result),
            ),
    {
        match bus {
            ServiceBus::Msg => self.handle_rpc_msg(senders, source, request),
            ServiceBus::Ctl => self.handle_rpc_ctl(senders, source, request),
            ServiceBus::Bridge => {
                proof {
                    crate::channel::lemma_nothing_queued(senders@);
                }
                Err(Error::NotSupported(ServiceBus::Bridge, request.get_type()))
            },
        }
    }
}

/// A request whose daemon was started waits for that daemon: asking for a
/// channel and then noting the start of its daemon leaves the request under
/// the address of the channel, whatever waited there before.
pub proof fn lemma_started_request_waits(s: Supervisor, open_channel: OpenChannel)
    ensures
        s.asked(open_channel).opened(channel_launch(open_channel)).opening_channels
            == s.opening_channels.insert(
            Address::Channel(open_channel.temporary_channel_id@),
            open_channel,
        ),
        s.asked(open_channel).opening_channels == s.opening_channels,
{
}

} // verus!
