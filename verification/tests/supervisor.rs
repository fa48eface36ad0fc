use lnp_node::channel_id::{ChannelId, TempChannelId};
use lnp_node::daemon_id::DaemonId;
use lnp_node::keys::{LocalNode, PublicKey};
use lnp_node::lnpd::{Launch, Runtime};
use lnp_node::message::{Messages, OpenChannel};
use lnp_node::rpc::{Envelope, Error, Request, RequestType, Senders, ServiceBus};

fn a_key(n: u8) -> PublicKey {
    let mut secret = [0u8; 32];
    secret[31] = n;
    LocalNode::with(secret).expect("a small number is a secret key").node_id()
}

fn request_for(temp: [u8; 32], funding_satoshis: u64) -> OpenChannel {
    OpenChannel {
        chain_hash: [0; 32],
        temporary_channel_id: TempChannelId(temp),
        funding_satoshis,
        push_msat: 0,
        dust_limit_satoshis: 546,
        max_htlc_value_in_flight_msat: 500_000_000,
        channel_reserve_satoshis: 10_000,
        htlc_minimum_msat: 1,
        feerate_per_kw: 253,
        to_self_delay: 144,
        max_accepted_htlcs: 30,
        funding_pubkey: a_key(1),
        revocation_basepoint: a_key(2),
        payment_point: a_key(3),
        delayed_payment_basepoint: a_key(4),
        htlc_basepoint: a_key(5),
        first_per_commitment_point: a_key(6),
        channel_flags: 0,
    }
}

fn connectiond() -> DaemonId {
    DaemonId::Connection("1.2.3.4:9735".to_string())
}

fn channeld(temp: [u8; 32]) -> DaemonId {
    DaemonId::Channel(ChannelId(temp))
}

/// Asks for a channel and starts its daemon.
fn started(runtime: &mut Runtime, temp: [u8; 32], funding_satoshis: u64) {
    let mut senders = Senders::new();
    runtime.handle(&mut senders, ServiceBus::Ctl, DaemonId::Foreign("cli".to_string()), create(temp, funding_satoshis)).unwrap();
    for launch in runtime.take_launches() {
        assert_eq!(runtime.open_channel(&launch, Ok(())), Ok(()));
    }
}

fn create(temp: [u8; 32], funding_satoshis: u64) -> Request {
    Request::CreateChannel { channel_req: request_for(temp, funding_satoshis), connectiond: connectiond() }
}

#[test]
fn supervisor_is_reached_as_lnpd() {
    assert_eq!(Runtime::new().identity(), DaemonId::Lnpd);
}

#[test]
fn unknown_connect_is_turned_down_and_the_supervisor_goes_on() {
    let mut senders = Senders::new();
    let mut runtime = Runtime::new();
    let mut id = [0xDE; 32];
    id[31] = 0xAD;
    let result = runtime.handle(&mut senders, ServiceBus::Ctl, channeld(id), Request::Connect);
    assert_eq!(result, Err(Error::Other("Unknown channel".to_string())));
    assert_eq!(senders.len(), 0);
    assert!(runtime.take_launches().is_empty());

    started(&mut runtime, id, 5);
    assert_eq!(runtime.handle(&mut senders, ServiceBus::Ctl, channeld(id), Request::Connect), Ok(()));
    assert_eq!(senders.len(), 1);
}

#[test]
fn create_channel_launches_a_channel_daemon_with_the_hex_id() {
    let mut senders = Senders::new();
    let mut runtime = Runtime::new();
    let mut temp = [0x11; 32];
    temp[0] = 0x0A;
    temp[31] = 0xF0;
    assert_eq!(runtime.handle(&mut senders, ServiceBus::Ctl, DaemonId::Foreign("cli".to_string()), create(temp, 5)), Ok(()));
    assert_eq!(senders.len(), 0);
    assert_eq!(
        runtime.take_launches(),
        vec![Launch {
            daemon: "channeld".to_string(),
            args: vec!["0a111111111111111111111111111111111111111111111111111111111111f0".to_string()],
            reports_as: channeld(temp),
            channel_req: request_for(temp, 5),
        }]
    );
    assert!(runtime.take_launches().is_empty());
    assert_eq!(runtime.waiting(&channeld(temp)), None);
}

#[test]
fn connect_is_answered_with_the_waiting_request() {
    let mut senders = Senders::new();
    let mut runtime = Runtime::new();
    started(&mut runtime, [0x11; 32], 5);
    started(&mut runtime, [0x22; 32], 6);
    assert_eq!(runtime.handle(&mut senders, ServiceBus::Ctl, channeld([0x22; 32]), Request::Connect), Ok(()));
    assert_eq!(
        senders.take(),
        vec![Envelope {
            bus: ServiceBus::Ctl,
            source: DaemonId::Lnpd,
            dest: channeld([0x22; 32]),
            request: Request::CreateChannel {
                channel_req: request_for([0x22; 32], 6),
                connectiond: channeld([0x22; 32]),
            },
        }]
    );
    assert_eq!(runtime.waiting(&channeld([0x11; 32])), Some(request_for([0x11; 32], 5)));
    assert_eq!(runtime.waiting(&channeld([0x22; 32])), Some(request_for([0x22; 32], 6)));
    assert_eq!(runtime.waiting(&channeld([0x33; 32])), None);
}

#[test]
fn peer_open_channel_launches_a_channel_daemon() {
    let mut senders = Senders::new();
    let mut runtime = Runtime::new();
    let open = Request::PeerMessage(Messages::OpenChannel(request_for([0x44; 32], 9)));
    assert_eq!(runtime.handle(&mut senders, ServiceBus::Msg, connectiond(), open), Ok(()));
    let launches = runtime.take_launches();
    assert_eq!(launches.len(), 1);
    assert_eq!(launches[0].reports_as, channeld([0x44; 32]));
    assert_eq!(runtime.open_channel(&launches[0], Ok(())), Ok(()));
    assert_eq!(runtime.waiting(&channeld([0x44; 32])), Some(request_for([0x44; 32], 9)));
    assert_eq!(senders.len(), 0);
}

#[test]
fn later_request_for_the_same_channel_replaces_the_earlier() {
    let mut runtime = Runtime::new();
    started(&mut runtime, [0x11; 32], 5);
    started(&mut runtime, [0x22; 32], 6);
    started(&mut runtime, [0x11; 32], 7);
    assert_eq!(runtime.waiting(&channeld([0x11; 32])), Some(request_for([0x11; 32], 7)));
    assert_eq!(runtime.waiting(&channeld([0x22; 32])), Some(request_for([0x22; 32], 6)));
    assert!(runtime.take_launches().is_empty());
}

#[test]
fn request_waits_only_once_its_daemon_runs() {
    let mut senders = Senders::new();
    let mut runtime = Runtime::new();
    runtime.handle(&mut senders, ServiceBus::Ctl, connectiond(), create([0x11; 32], 5)).unwrap();
    let result = runtime.handle(&mut senders, ServiceBus::Ctl, channeld([0x11; 32]), Request::Connect);
    assert_eq!(result, Err(Error::Other("Unknown channel".to_string())));
    let launches = runtime.take_launches();
    assert_eq!(runtime.open_channel(&launches[0], Ok(())), Ok(()));
    assert_eq!(runtime.handle(&mut senders, ServiceBus::Ctl, channeld([0x11; 32]), Request::Connect), Ok(()));
}

#[test]
fn failed_launch_returns_the_reason_and_records_nothing() {
    let mut senders = Senders::new();
    let mut runtime = Runtime::new();
    runtime.handle(&mut senders, ServiceBus::Ctl, connectiond(), create([0x11; 32], 5)).unwrap();
    let launches = runtime.take_launches();
    let result = runtime.open_channel(&launches[0], Err("No such file or directory".to_string()));
    assert_eq!(result, Err(Error::Other("No such file or directory".to_string())));
    assert_eq!(runtime.waiting(&channeld([0x11; 32])), None);
    let result = runtime.handle(&mut senders, ServiceBus::Ctl, channeld([0x11; 32]), Request::Connect);
    assert_eq!(result, Err(Error::Other("Unknown channel".to_string())));
}

#[test]
fn failed_launch_leaves_an_earlier_request_waiting() {
    let mut senders = Senders::new();
    let mut runtime = Runtime::new();
    started(&mut runtime, [0x11; 32], 5);
    started(&mut runtime, [0x22; 32], 6);
    runtime.handle(&mut senders, ServiceBus::Ctl, connectiond(), create([0x11; 32], 7)).unwrap();
    let launches = runtime.take_launches();
    assert!(runtime.open_channel(&launches[0], Err("out of processes".to_string())).is_err());
    assert_eq!(runtime.waiting(&channeld([0x11; 32])), Some(request_for([0x11; 32], 5)));
    assert_eq!(runtime.waiting(&channeld([0x22; 32])), Some(request_for([0x22; 32], 6)));
    assert_eq!(runtime.handle(&mut senders, ServiceBus::Ctl, channeld([0x11; 32]), Request::Connect), Ok(()));
    assert_eq!(
        senders.take(),
        vec![Envelope {
            bus: ServiceBus::Ctl,
            source: DaemonId::Lnpd,
            dest: channeld([0x11; 32]),
            request: Request::CreateChannel {
                channel_req: request_for([0x11; 32], 5),
                connectiond: channeld([0x11; 32]),
            },
        }]
    );
}

#[test]
fn connect_from_another_kind_of_daemon_is_unknown() {
    let mut senders = Senders::new();
    let mut runtime = Runtime::new();
    started(&mut runtime, [0x11; 32], 5);
    let result = runtime.handle(&mut senders, ServiceBus::Ctl, connectiond(), Request::Connect);
    assert_eq!(result, Err(Error::Other("Unknown channel".to_string())));
}

#[test]
fn supervisor_ignores_other_peer_messages() {
    let mut senders = Senders::new();
    let mut runtime = Runtime::new();
    let ping = Request::PeerMessage(Messages::Other(18));
    assert_eq!(runtime.handle(&mut senders, ServiceBus::Msg, connectiond(), ping), Ok(()));
    assert!(runtime.take_launches().is_empty());
}

#[test]
fn supervisor_supports_nothing_else() {
    let mut senders = Senders::new();
    let mut runtime = Runtime::new();
    assert_eq!(
        runtime.handle(&mut senders, ServiceBus::Msg, connectiond(), Request::Connect),
        Err(Error::NotSupported(ServiceBus::Msg, RequestType::Connect))
    );
    assert_eq!(
        runtime.handle(&mut senders, ServiceBus::Msg, connectiond(), create([1; 32], 1)),
        Err(Error::NotSupported(ServiceBus::Msg, RequestType::CreateChannel))
    );
    assert_eq!(
        runtime.handle(&mut senders, ServiceBus::Ctl, connectiond(), Request::GetInfo),
        Err(Error::NotSupported(ServiceBus::Ctl, RequestType::GetInfo))
    );
    assert_eq!(
        runtime.handle(&mut senders, ServiceBus::Bridge, connectiond(), Request::Connect),
        Err(Error::NotSupported(ServiceBus::Bridge, RequestType::Connect))
    );
    assert!(runtime.take_launches().is_empty());
    assert_eq!(senders.len(), 0);
}

#[test]
fn request_kinds_are_told_apart() {
    assert_eq!(Request::Hello.get_type(), RequestType::Hello);
    assert_eq!(Request::Connect.get_type(), RequestType::Connect);
    assert_eq!(Request::GetInfo.get_type(), RequestType::GetInfo);
    assert_eq!(Request::Progress("on it".to_string()).get_type(), RequestType::Progress);
    assert_eq!(Request::Success(None).get_type(), RequestType::Success);
    assert_eq!(Request::ChannelFunding(vec![0]).get_type(), RequestType::ChannelFunding);
    assert_eq!(Request::UpdateChannelId(ChannelId([1; 32])).get_type(), RequestType::UpdateChannelId);
    assert_eq!(create([1; 32], 1).get_type(), RequestType::CreateChannel);
}

#[test]
fn bus_tags_read_back() {
    assert_eq!(ServiceBus::Msg.tag(), 0);
    assert_eq!(ServiceBus::Ctl.tag(), 1);
    assert_eq!(ServiceBus::Bridge.tag(), 2);
    for bus in [ServiceBus::Msg, ServiceBus::Ctl, ServiceBus::Bridge] {
        assert_eq!(ServiceBus::from_tag(bus.tag()), Some(bus));
    }
    for tag in 3..=u8::MAX {
        assert_eq!(ServiceBus::from_tag(tag), None);
    }
}

#[test]
fn queue_keeps_the_order_of_sending() {
    let mut senders = Senders::new();
    senders.send_to(ServiceBus::Ctl, DaemonId::Lnpd, DaemonId::Gossip, Request::Hello);
    senders.send_to(ServiceBus::Msg, DaemonId::Routing, DaemonId::Lnpd, Request::Connect);
    assert_eq!(senders.len(), 2);
    let taken = senders.take();
    assert_eq!(taken[0].request, Request::Hello);
    assert_eq!(taken[1].request, Request::Connect);
    assert_eq!(taken[1].bus, ServiceBus::Msg);
    assert_eq!(senders.len(), 0);
    assert!(senders.take().is_empty());
}
