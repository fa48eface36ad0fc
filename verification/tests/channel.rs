use lnp_node::channel_id::{ChannelId, OutPoint, TempChannelId};
use lnp_node::channeld::Runtime;
use lnp_node::crypto::{funding_output, funding_witness, to_local_output, to_remote_output};
use lnp_node::daemon_id::DaemonId;
use lnp_node::keys::{ChannelKeys, LocalNode, PublicKey, Signature};
use lnp_node::message::{
    AcceptChannel, FundingCreated, FundingLocked, FundingSigned, Messages, OpenChannel, UpdateAddHtlc,
};
use lnp_node::params::{ChannelNegotiationError, ChannelParams};
use lnp_node::rpc::{
    ChannelState, CreateChannel, Envelope, Error, Request, RequestType, Senders, ServiceBus, Transfer,
};

const TEMP: [u8; 32] = [0x11; 32];
const STARTED: u64 = 1_600_000_000;

fn node(n: u8) -> LocalNode {
    let mut secret = [0u8; 32];
    secret[31] = n;
    LocalNode::with(secret).expect("a small number is a secret key")
}

fn key(n: u8) -> PublicKey {
    node(n).node_id()
}

fn peerd() -> DaemonId {
    DaemonId::Connection("1.2.3.4:9735".to_string())
}

fn cli() -> DaemonId {
    DaemonId::Foreign("lncli".to_string())
}

fn proposal(funding_satoshis: u64, push_msat: u64) -> OpenChannel {
    OpenChannel {
        chain_hash: [0x6F; 32],
        temporary_channel_id: TempChannelId(TEMP),
        funding_satoshis,
        push_msat,
        dust_limit_satoshis: 546,
        max_htlc_value_in_flight_msat: 500_000_000,
        channel_reserve_satoshis: 10_000,
        htlc_minimum_msat: 1,
        feerate_per_kw: 253,
        to_self_delay: 144,
        max_accepted_htlcs: 30,
        funding_pubkey: key(11),
        revocation_basepoint: key(12),
        payment_point: key(13),
        delayed_payment_basepoint: key(14),
        htlc_basepoint: key(15),
        first_per_commitment_point: key(16),
        channel_flags: 1,
    }
}

fn answer() -> AcceptChannel {
    AcceptChannel {
        temporary_channel_id: TempChannelId(TEMP),
        dust_limit_satoshis: 600,
        max_htlc_value_in_flight_msat: 400_000_000,
        channel_reserve_satoshis: 20_000,
        htlc_minimum_msat: 2,
        minimum_depth: 3,
        to_self_delay: 288,
        max_accepted_htlcs: 40,
        funding_pubkey: key(21),
        revocation_basepoint: key(22),
        payment_point: key(23),
        delayed_payment_basepoint: key(24),
        htlc_basepoint: key(25),
        first_per_commitment_point: key(26),
    }
}

fn open_with(report_to: Option<DaemonId>) -> Request {
    Request::OpenChannelWith(CreateChannel { channel_req: proposal(1_000_000, 0), peerd: peerd(), report_to })
}

fn fresh() -> Runtime {
    Runtime::new(node(1), TempChannelId(TEMP), STARTED)
}

fn outpoint() -> OutPoint {
    OutPoint { txid: [0xAA; 32], vout: 7 }
}

fn funded_id() -> ChannelId {
    let mut id = [0xAA; 32];
    id[31] = 0xAD;
    ChannelId(id)
}

/// A channel whose proposal was accepted by the peer.
fn accepted() -> Runtime {
    let mut senders = Senders::new();
    let mut runtime = fresh();
    runtime.handle(&mut senders, ServiceBus::Ctl, cli(), open_with(Some(cli()))).unwrap();
    let accept = Request::PeerMessage(Messages::AcceptChannel(answer()));
    runtime.handle(&mut senders, ServiceBus::Msg, peerd(), accept).unwrap();
    runtime
}

/// A channel that sent `funding_created`.
fn created() -> Runtime {
    let mut senders = Senders::new();
    let mut runtime = accepted();
    runtime.handle(&mut senders, ServiceBus::Ctl, cli(), Request::FundChannel(outpoint())).unwrap();
    runtime
}

/// The signature that the peer, signing with the key of `node(21)`, puts
/// under the commitment transaction of `runtime`.
fn countersigned(runtime: &Runtime) -> FundingSigned {
    let digest = runtime.commitment_sighash(true);
    FundingSigned { channel_id: runtime.channel_id(), signature: node(21).sign(&digest) }
}

/// A channel whose funding both sides have signed.
fn funded() -> Runtime {
    let mut senders = Senders::new();
    let mut runtime = created();
    let signed = Request::PeerMessage(Messages::FundingSigned(countersigned(&runtime)));
    runtime.handle(&mut senders, ServiceBus::Msg, peerd(), signed).unwrap();
    runtime
}

fn locked_by_peer() -> Request {
    Request::PeerMessage(Messages::FundingLocked(FundingLocked {
        channel_id: funded_id(),
        next_per_commitment_point: key(27),
    }))
}

/// A channel in use.
fn operational() -> Runtime {
    let mut senders = Senders::new();
    let mut runtime = funded();
    runtime.handle(&mut senders, ServiceBus::Msg, peerd(), locked_by_peer()).unwrap();
    runtime.funding_confirmed();
    runtime
}

fn pay(amount: u64) -> Request {
    Request::Transfer(Transfer { amount, asset: None })
}

fn other_text(result: Result<(), Error>) -> String {
    match result {
        Err(Error::Other(text)) => text,
        other => panic!("{:?} is no error in words", other),
    }
}

const NOT_EXPECTED: &str = "The channel is not in the state for this request";

fn temp_identity() -> DaemonId {
    DaemonId::Channel(ChannelId(TEMP))
}

fn to_cli(source: DaemonId, request: Request) -> Envelope {
    Envelope { bus: ServiceBus::Ctl, source, dest: cli(), request }
}

fn progress(source: DaemonId, text: &str) -> Envelope {
    to_cli(source, Request::Progress(text.to_string()))
}

fn success(source: DaemonId, text: &str) -> Envelope {
    to_cli(source, Request::Success(Some(text.to_string())))
}

#[test]
fn fresh_channel_is_proposed_and_unfunded() {
    let runtime = fresh();
    assert_eq!(runtime.state(), ChannelState::Proposed);
    assert_eq!(runtime.identity(), DaemonId::Channel(ChannelId(TEMP)));
    assert_eq!(runtime.temporary_channel_id(), TempChannelId(TEMP));
    assert_eq!(runtime.channel_id(), ChannelId::zero());
    assert_eq!(runtime.channel_capacity(), 0);
    assert_eq!(runtime.commitment_number(), 0);
    assert_eq!(runtime.obscuring_factor(), 0);
    assert_eq!(runtime.total_payments(), 0);
    assert!(!runtime.is_originator());
    assert_eq!(runtime.params(), ChannelParams::new());
    assert_eq!(runtime.local_keys(), ChannelKeys::dumb());
    assert_eq!(runtime.remote_keys(), ChannelKeys::dumb());
    assert_eq!(runtime.node_id(), key(1));
}

#[test]
fn daemon_says_hello_to_the_supervisor() {
    let mut senders = Senders::new();
    fresh().hello(&mut senders);
    assert_eq!(
        senders.take(),
        vec![Envelope { bus: ServiceBus::Ctl, source: temp_identity(), dest: DaemonId::Lnpd, request: Request::Hello }]
    );
}

#[test]
fn outbound_open_is_proposed_to_the_peer() {
    let mut senders = Senders::new();
    let mut runtime = fresh();
    let result = runtime.handle(&mut senders, ServiceBus::Ctl, cli(), open_with(Some(cli())));
    assert_eq!(result, Ok(()));
    assert_eq!(runtime.state(), ChannelState::Proposed);
    assert!(runtime.is_originator());
    assert_eq!(runtime.local_capacity(), 1_000_000);
    assert_eq!(runtime.remote_capacity(), 0);
    assert_eq!(runtime.local_keys().funding_pubkey, key(11));
    assert_eq!(runtime.local_keys().payment_basepoint, key(13));
    assert_eq!(
        senders.take(),
        vec![
            progress(temp_identity(), "Proposing remote peer to open a channel"),
            Envelope {
                bus: ServiceBus::Msg,
                source: temp_identity(),
                dest: peerd(),
                request: Request::PeerMessage(Messages::OpenChannel(proposal(1_000_000, 0))),
            },
        ]
    );
}

#[test]
fn outbound_open_accepted_tells_the_funding_script() {
    let mut senders = Senders::new();
    let mut runtime = fresh();
    runtime.handle(&mut senders, ServiceBus::Ctl, cli(), open_with(Some(cli()))).unwrap();
    senders.take();
    let accept = Request::PeerMessage(Messages::AcceptChannel(answer()));
    assert_eq!(runtime.handle(&mut senders, ServiceBus::Msg, peerd(), accept), Ok(()));
    assert_eq!(runtime.state(), ChannelState::Accepted);
    assert_eq!(runtime.params().minimum_depth, 3);
    assert_eq!(runtime.remote_keys().funding_pubkey, key(21));

    let (low, high) = if key(11).serialize() < key(21).serialize() {
        (key(11).serialize(), key(21).serialize())
    } else {
        (key(21).serialize(), key(11).serialize())
    };
    let mut witness_script = vec![0x52, 0x21];
    witness_script.extend_from_slice(&low);
    witness_script.push(0x21);
    witness_script.extend_from_slice(&high);
    witness_script.extend_from_slice(&[0x52, 0xAE]);
    let hash = <bitcoin::hashes::sha256::Hash as bitcoin::hashes::Hash>::hash(&witness_script);
    let mut script = vec![0x00, 0x20];
    script.extend_from_slice(&bitcoin::hashes::Hash::into_inner(hash));

    assert_eq!(
        senders.take(),
        vec![
            progress(temp_identity(), "Channel was accepted by the remote peer"),
            success(temp_identity(), "Channel is ready for funding"),
            to_cli(temp_identity(), Request::ChannelFunding(script)),
        ]
    );
}

#[test]
fn accepted_proposal_takes_the_answered_parameters() {
    let runtime = accepted();
    assert_eq!(
        runtime.params(),
        ChannelParams {
            dust_limit_satoshis: 600,
            max_htlc_value_in_flight_msat: 400_000_000,
            channel_reserve_satoshis: 20_000,
            htlc_minimum_msat: 2,
            to_self_delay: 288,
            max_accepted_htlcs: 40,
            minimum_depth: 3,
        }
    );
    assert_eq!(runtime.channel_id(), ChannelId::zero());
    assert_eq!(runtime.identity(), DaemonId::Channel(ChannelId(TEMP)));
}

#[test]
fn accepted_without_enquirer_tells_nobody() {
    let mut senders = Senders::new();
    let mut runtime = fresh();
    runtime.handle(&mut senders, ServiceBus::Ctl, cli(), open_with(None)).unwrap();
    senders.take();
    let accept = Request::PeerMessage(Messages::AcceptChannel(answer()));
    assert_eq!(runtime.handle(&mut senders, ServiceBus::Msg, peerd(), accept), Ok(()));
    assert_eq!(runtime.state(), ChannelState::Accepted);
    assert_eq!(senders.len(), 0);
}

#[test]
fn second_accept_channel_is_rejected() {
    let mut senders = Senders::new();
    let mut runtime = accepted();
    let params = runtime.params();
    let mut again = answer();
    again.to_self_delay = 100;
    let result = runtime.handle(
        &mut senders,
        ServiceBus::Msg,
        peerd(),
        Request::PeerMessage(Messages::AcceptChannel(again)),
    );
    let refusal = ChannelNegotiationError::UnexpectedState(ChannelState::Accepted);
    assert_eq!(result, Err(Error::Negotiation(refusal)));
    assert_eq!(runtime.state(), ChannelState::Accepted);
    assert_eq!(runtime.params(), params);
    assert_eq!(senders.take(), vec![to_cli(temp_identity(), Request::Failure(refusal))]);
}

#[test]
fn rejected_answer_is_reported_and_changes_nothing() {
    let mut senders = Senders::new();
    let mut runtime = fresh();
    runtime.handle(&mut senders, ServiceBus::Ctl, cli(), open_with(Some(cli()))).unwrap();
    senders.take();
    let mut bad = answer();
    bad.dust_limit_satoshis = 10_001;
    bad.channel_reserve_satoshis = 30_000;
    let result = runtime.handle(
        &mut senders,
        ServiceBus::Msg,
        peerd(),
        Request::PeerMessage(Messages::AcceptChannel(bad)),
    );
    let refusal =
        ChannelNegotiationError::RemoteDustExceedsLocalReserve { channel_reserve: 10_000, dust_limit: 10_001 };
    assert_eq!(result, Err(Error::Negotiation(refusal)));
    assert_eq!(runtime.state(), ChannelState::Proposed);
    assert_eq!(runtime.params().dust_limit_satoshis, 546);
    assert_eq!(runtime.remote_keys(), ChannelKeys::dumb());
    assert_eq!(
        senders.take(),
        vec![
            progress(temp_identity(), "Channel was accepted by the remote peer"),
            to_cli(temp_identity(), Request::Failure(refusal)),
        ]
    );
    // the channel goes on: a good answer is still taken
    let accept = Request::PeerMessage(Messages::AcceptChannel(answer()));
    assert_eq!(runtime.handle(&mut senders, ServiceBus::Msg, peerd(), accept), Ok(()));
    assert_eq!(runtime.state(), ChannelState::Accepted);
}

#[test]
fn rejected_proposal_is_reported_to_whom_the_request_names() {
    let mut senders = Senders::new();
    let mut runtime = fresh();
    let mut channel_req = proposal(1_000_000, 0);
    channel_req.max_accepted_htlcs = 484;
    let request = Request::OpenChannelWith(CreateChannel { channel_req, peerd: peerd(), report_to: Some(cli()) });
    let result = runtime.handle(&mut senders, ServiceBus::Ctl, DaemonId::Lnpd, request);
    let refusal = ChannelNegotiationError::MaxAcceptedHtlcLimitExceeded(484);
    assert_eq!(result, Err(Error::Negotiation(refusal)));
    assert!(!runtime.is_originator());
    assert_eq!(runtime.channel_capacity(), 0);
    assert_eq!(runtime.state(), ChannelState::Proposed);
    assert_eq!(
        senders.take(),
        vec![
            progress(temp_identity(), "Proposing remote peer to open a channel"),
            to_cli(temp_identity(), Request::Failure(refusal)),
        ]
    );
}

#[test]
fn proposal_after_the_negotiation_is_turned_down_at_once() {
    let mut senders = Senders::new();
    let mut runtime = accepted();
    let other_peer = DaemonId::Connection("5.6.7.8:9735".to_string());
    let request = Request::OpenChannelWith(CreateChannel {
        channel_req: proposal(2_000_000, 0),
        peerd: other_peer,
        report_to: Some(DaemonId::Lnpd),
    });
    let result = runtime.handle(&mut senders, ServiceBus::Ctl, cli(), request);
    let refusal = ChannelNegotiationError::UnexpectedState(ChannelState::Accepted);
    assert_eq!(result, Err(Error::Negotiation(refusal)));
    assert_eq!(runtime.channel_capacity(), 1_000_000);
    assert_eq!(runtime.channel_info(STARTED).remote_peer, Some("1.2.3.4:9735".to_string()));
    assert_eq!(
        senders.take(),
        vec![Envelope {
            bus: ServiceBus::Ctl,
            source: temp_identity(),
            dest: DaemonId::Lnpd,
            request: Request::Failure(refusal),
        }]
    );
    let accept = Request::AcceptChannelFrom(CreateChannel {
        channel_req: proposal(2_000_000, 0),
        peerd: peerd(),
        report_to: None,
    });
    assert_eq!(runtime.handle(&mut senders, ServiceBus::Ctl, cli(), accept), Err(Error::Negotiation(refusal)));
    assert_eq!(senders.len(), 0);
    assert!(runtime.is_originator());
}

#[test]
fn taking_the_answer_leaves_the_state_to_the_handler() {
    let mut senders = Senders::new();
    let mut runtime = fresh();
    runtime.open_channel(&mut senders, &proposal(1_000_000, 0)).unwrap();
    assert_eq!(runtime.channel_accepted(&mut senders, &answer(), &peerd()), Ok(()));
    assert_eq!(runtime.state(), ChannelState::Proposed);
    assert_eq!(runtime.remote_keys().funding_pubkey, key(21));
    assert_eq!(runtime.local_keys().funding_pubkey, key(11));
    assert_eq!(runtime.params().to_self_delay, 288);
    assert!(runtime.is_originator());
    assert_eq!(runtime.channel_id(), ChannelId::zero());
}

#[test]
fn answering_a_proposal_leaves_the_state_to_the_handler() {
    let mut senders = Senders::new();
    let mut runtime = Runtime::new(node(2), TempChannelId(TEMP), STARTED);
    let answered = runtime.accept_channel(&mut senders, &proposal(1_000_000, 0), &peerd()).unwrap();
    assert_eq!(runtime.state(), ChannelState::Proposed);
    assert!(!runtime.is_originator());
    assert_eq!(runtime.remote_keys().funding_pubkey, key(11));
    assert_eq!(runtime.local_keys().funding_pubkey, answered.funding_pubkey);
    assert_eq!(answered.funding_pubkey, key(2));
    assert_eq!(runtime.params().minimum_depth, 3);
    assert_eq!(runtime.channel_id(), ChannelId::zero());
    assert_eq!(senders.len(), 0);
}

#[test]
fn pushed_amount_goes_to_the_other_side() {
    let mut senders = Senders::new();
    let mut runtime = fresh();
    runtime.open_channel(&mut senders, &proposal(1_000_000, 250_000_999)).unwrap();
    assert_eq!(runtime.local_capacity(), 750_000);
    assert_eq!(runtime.remote_capacity(), 250_000);
    assert_eq!(runtime.channel_capacity(), 1_000_000);
}

#[test]
fn inbound_open_is_answered_with_the_proposed_values() {
    let mut senders = Senders::new();
    let mut runtime = Runtime::new(node(2), TempChannelId(TEMP), STARTED);
    let request = Request::AcceptChannelFrom(CreateChannel {
        channel_req: proposal(1_000_000, 250_000_000),
        peerd: peerd(),
        report_to: None,
    });
    assert_eq!(runtime.handle(&mut senders, ServiceBus::Ctl, DaemonId::Lnpd, request), Ok(()));
    assert_eq!(runtime.state(), ChannelState::Accepted);
    assert!(!runtime.is_originator());
    assert_eq!(runtime.local_capacity(), 250_000);
    assert_eq!(runtime.remote_capacity(), 750_000);
    assert_eq!(runtime.remote_keys().payment_basepoint, key(13));
    assert_eq!(runtime.local_keys().funding_pubkey, key(2));
    assert_eq!(runtime.params().minimum_depth, 3);
    assert_eq!(runtime.params().to_self_delay, 144);
    let expected = AcceptChannel {
        temporary_channel_id: TempChannelId(TEMP),
        dust_limit_satoshis: 546,
        max_htlc_value_in_flight_msat: 500_000_000,
        channel_reserve_satoshis: 10_000,
        htlc_minimum_msat: 1,
        minimum_depth: 3,
        to_self_delay: 144,
        max_accepted_htlcs: 30,
        funding_pubkey: key(2),
        revocation_basepoint: key(2),
        payment_point: key(2),
        delayed_payment_basepoint: key(2),
        htlc_basepoint: key(2),
        first_per_commitment_point: key(2),
    };
    assert_eq!(
        senders.take(),
        vec![Envelope {
            bus: ServiceBus::Msg,
            source: DaemonId::Channel(ChannelId(TEMP)),
            dest: peerd(),
            request: Request::PeerMessage(Messages::AcceptChannel(expected)),
        }]
    );
}

#[test]
fn funding_derives_the_channel_id_and_publishes_it() {
    let mut senders = Senders::new();
    let mut runtime = accepted();
    let result = runtime.handle(&mut senders, ServiceBus::Ctl, cli(), Request::FundChannel(outpoint()));
    assert_eq!(result, Ok(()));
    assert_eq!(runtime.state(), ChannelState::FundingCreated);
    assert_eq!(runtime.channel_id(), funded_id());
    assert_eq!(runtime.channel_id().to_bytes()[30], 0xAA ^ 0x00);
    assert_eq!(runtime.channel_id().to_bytes()[31], 0xAA ^ 0x07);
    assert_eq!(runtime.identity(), DaemonId::Channel(funded_id()));
    assert_eq!(runtime.funding_outpoint(), outpoint());
    assert_eq!(runtime.commitment_number(), 0);

    let sent = senders.take();
    assert_eq!(sent.len(), 5);
    assert_eq!(sent[0], progress(temp_identity(), "Funding channel"));
    assert_eq!(
        sent[1],
        Envelope {
            bus: ServiceBus::Ctl,
            source: temp_identity(),
            dest: DaemonId::Lnpd,
            request: Request::UpdateChannelId(funded_id()),
        }
    );
    assert_eq!(sent[2], progress(DaemonId::Channel(funded_id()), "Channel ID set"));
    assert_eq!(
        sent[3],
        progress(DaemonId::Channel(funded_id()), "Funding created. Awaiting for remote node signature.")
    );
    let digest = runtime.commitment_sighash(false);
    assert_eq!(
        sent[4],
        Envelope {
            bus: ServiceBus::Msg,
            source: DaemonId::Channel(funded_id()),
            dest: peerd(),
            request: Request::PeerMessage(Messages::FundingCreated(FundingCreated {
                temporary_channel_id: TempChannelId(TEMP),
                funding_txid: [0xAA; 32],
                funding_output_index: 7,
                signature: node(1).sign(&digest),
            })),
        }
    );
}

#[test]
fn funding_computes_the_obscuring_factor_with_the_opener_first() {
    let runtime = created();
    let mut data = key(13).serialize().to_vec();
    data.extend_from_slice(&key(23).serialize());
    let hash = <bitcoin::hashes::sha256::Hash as bitcoin::hashes::Hash>::hash(&data);
    let hash = bitcoin::hashes::Hash::into_inner(hash);
    let mut last = [0u8; 8];
    last.copy_from_slice(&hash[24..32]);
    assert_eq!(runtime.obscuring_factor(), u64::from_be_bytes(last));
}

#[test]
fn funding_is_refused_before_the_channel_is_accepted() {
    let mut senders = Senders::new();
    let mut runtime = fresh();
    let result = runtime.handle(&mut senders, ServiceBus::Ctl, cli(), Request::FundChannel(outpoint()));
    assert_eq!(other_text(result), NOT_EXPECTED);
    assert_eq!(runtime.state(), ChannelState::Proposed);
    assert_eq!(runtime.channel_id(), ChannelId::zero());
    assert_eq!(runtime.funding_outpoint(), OutPoint { txid: [0; 32], vout: 0 });
    assert_eq!(senders.len(), 0);
}

#[test]
fn funding_is_refused_twice() {
    let mut senders = Senders::new();
    let mut runtime = created();
    let factor = runtime.obscuring_factor();
    let other = OutPoint { txid: [0xBB; 32], vout: 1 };
    let result = runtime.handle(&mut senders, ServiceBus::Ctl, cli(), Request::FundChannel(other));
    assert_eq!(other_text(result), NOT_EXPECTED);
    assert_eq!(runtime.channel_id(), funded_id());
    assert_eq!(runtime.funding_outpoint(), outpoint());
    assert_eq!(runtime.obscuring_factor(), factor);
    assert_eq!(senders.len(), 0);
}

#[test]
fn funding_outpoint_that_gives_no_channel_id_is_refused() {
    let mut senders = Senders::new();
    let mut runtime = accepted();
    let mut txid = [0u8; 32];
    txid[30] = 0x01;
    txid[31] = 0x02;
    let result = runtime.fund_channel(&mut senders, OutPoint { txid, vout: 0x0102 });
    match result {
        Err(Error::Other(text)) => assert_eq!(text, "The funding outpoint gives no channel id"),
        other => panic!("{:?}", other),
    }
    assert_eq!(runtime.state(), ChannelState::Accepted);
    assert_eq!(runtime.channel_id(), ChannelId::zero());
    assert_eq!(senders.len(), 0);
}

#[test]
fn funding_index_is_sent_in_sixteen_bits() {
    let mut senders = Senders::new();
    let mut runtime = accepted();
    let created = runtime.fund_channel(&mut senders, OutPoint { txid: [0xAA; 32], vout: 0x0001_0007 }).unwrap();
    assert_eq!(created.funding_output_index, 7);
    assert_eq!(runtime.channel_id(), funded_id());
}

#[test]
fn counterparty_commitment_is_what_the_signature_signs() {
    let runtime = created();
    // the other side's transaction: its balance delayed, ours paid at once
    let factor = runtime.obscuring_factor() & 0xFFFF_FFFF_FFFF;
    let previous_output =
        bitcoin::OutPoint { txid: bitcoin::hashes::Hash::from_inner([0xAA; 32]), vout: 7 };
    let input = bitcoin::TxIn {
        previous_output,
        script_sig: bitcoin::Script::new(),
        sequence: bitcoin::Sequence(0x8000_0000 | (factor >> 24) as u32),
        witness: bitcoin::Witness::new(),
    };
    let to_remote = bitcoin::TxOut {
        value: 1_000_000,
        script_pubkey: bitcoin::Script::from(to_remote_output(1_000_000, &key(13))),
    };
    let tx = bitcoin::Transaction {
        version: 2,
        lock_time: bitcoin::PackedLockTime(0x2000_0000 | (factor & 0xFF_FFFF) as u32),
        input: vec![input],
        output: vec![to_remote],
    };
    let script_code = bitcoin::Script::from(funding_witness(1_000_000, &key(11), &key(21)));
    let digest = bitcoin::util::sighash::SighashCache::new(&tx)
        .segwit_signature_hash(0, &script_code, 1_000_000, bitcoin::EcdsaSighashType::All)
        .unwrap();
    assert_eq!(runtime.commitment_sighash(false), bitcoin::hashes::Hash::into_inner(digest));
}

#[test]
fn own_commitment_has_the_own_balance_delayed() {
    let mut senders = Senders::new();
    let mut runtime = fresh();
    runtime.open_channel(&mut senders, &proposal(1_000_000, 250_000_000)).unwrap();
    let accept = Request::PeerMessage(Messages::AcceptChannel(answer()));
    runtime.handle(&mut senders, ServiceBus::Msg, peerd(), accept).unwrap();
    runtime.fund_channel(&mut senders, outpoint()).unwrap();
    let factor = runtime.obscuring_factor() & 0xFFFF_FFFF_FFFF;
    let previous_output =
        bitcoin::OutPoint { txid: bitcoin::hashes::Hash::from_inner([0xAA; 32]), vout: 7 };
    let input = bitcoin::TxIn {
        previous_output,
        script_sig: bitcoin::Script::new(),
        sequence: bitcoin::Sequence(0x8000_0000 | (factor >> 24) as u32),
        witness: bitcoin::Witness::new(),
    };
    let to_local = bitcoin::TxOut {
        value: 750_000,
        script_pubkey: bitcoin::Script::from(to_local_output(750_000, &key(22), &key(14), 288)),
    };
    let to_remote = bitcoin::TxOut {
        value: 250_000,
        script_pubkey: bitcoin::Script::from(to_remote_output(250_000, &key(23))),
    };
    let tx = bitcoin::Transaction {
        version: 2,
        lock_time: bitcoin::PackedLockTime(0x2000_0000 | (factor & 0xFF_FFFF) as u32),
        input: vec![input],
        output: vec![to_local, to_remote],
    };
    let script_code = bitcoin::Script::from(funding_witness(1_000_000, &key(11), &key(21)));
    let digest = bitcoin::util::sighash::SighashCache::new(&tx)
        .segwit_signature_hash(0, &script_code, 1_000_000, bitcoin::EcdsaSighashType::All)
        .unwrap();
    assert_eq!(runtime.commitment_sighash(true), bitcoin::hashes::Hash::into_inner(digest));
    assert_ne!(runtime.commitment_sighash(true), runtime.commitment_sighash(false));
}

#[test]
fn signature_of_the_other_side_is_kept() {
    assert_eq!(created().remote_signature(), None);
    let mut runtime = created();
    let signed = countersigned(&runtime);
    runtime.funding_signed(&signed).unwrap();
    assert_eq!(runtime.remote_signature(), Some(signed.signature));
}

#[test]
fn sign_funding_signs_the_counterparty_commitment() {
    let mut runtime = created();
    let digest = runtime.commitment_sighash(false);
    let signature = runtime.sign_funding();
    assert_eq!(signature, node(1).sign(&digest));
    assert!(key(1).verifies(&digest, &signature));
    assert_eq!(runtime.state(), ChannelState::FundingCreated);
}

#[test]
fn funding_signed_with_a_valid_signature_funds_the_channel() {
    let mut senders = Senders::new();
    let mut runtime = created();
    let signed = Request::PeerMessage(Messages::FundingSigned(countersigned(&runtime)));
    assert_eq!(runtime.handle(&mut senders, ServiceBus::Msg, peerd(), signed), Ok(()));
    assert_eq!(runtime.state(), ChannelState::Funded);
    assert_eq!(senders.len(), 0);
}

#[test]
fn funding_signed_with_a_wrong_signature_is_refused() {
    let mut runtime = created();
    let digest = runtime.commitment_sighash(true);
    let by_wrong_key = FundingSigned { channel_id: funded_id(), signature: node(22).sign(&digest) };
    let result = runtime.funding_signed(&by_wrong_key);
    match result {
        Err(Error::Other(text)) => {
            assert_eq!(text, "The signature of the commitment transaction is not valid")
        }
        other => panic!("{:?}", other),
    }
    let of_wrong_tx =
        FundingSigned { channel_id: funded_id(), signature: node(21).sign(&runtime.commitment_sighash(false)) };
    assert!(runtime.funding_signed(&of_wrong_tx).is_err());
    let garbage = FundingSigned { channel_id: funded_id(), signature: Signature([0xFF; 64]) };
    assert!(runtime.funding_signed(&garbage).is_err());
    assert_eq!(runtime.state(), ChannelState::FundingCreated);
}

#[test]
fn funding_signed_is_refused_before_the_funding() {
    let mut senders = Senders::new();
    let mut runtime = accepted();
    let signed = Request::PeerMessage(Messages::FundingSigned(countersigned(&runtime)));
    let result = runtime.handle(&mut senders, ServiceBus::Msg, peerd(), signed);
    assert_eq!(other_text(result), NOT_EXPECTED);
    assert_eq!(runtime.state(), ChannelState::Accepted);
}

#[test]
fn funding_locked_locks_a_funded_channel() {
    let mut senders = Senders::new();
    let mut runtime = funded();
    assert_eq!(runtime.handle(&mut senders, ServiceBus::Msg, peerd(), locked_by_peer()), Ok(()));
    assert_eq!(runtime.state(), ChannelState::Locked);
    runtime.funding_confirmed();
    assert_eq!(runtime.state(), ChannelState::Operational);
}

#[test]
fn funding_locked_after_the_own_lock_brings_the_channel_into_use() {
    let mut senders = Senders::new();
    let mut runtime = funded();
    runtime.funding_confirmed();
    assert_eq!(runtime.state(), ChannelState::Funded);
    assert_eq!(runtime.handle(&mut senders, ServiceBus::Msg, peerd(), locked_by_peer()), Ok(()));
    assert_eq!(runtime.state(), ChannelState::Operational);
}

#[test]
fn funding_locked_is_refused_before_the_channel_is_funded() {
    let mut senders = Senders::new();
    let mut runtime = created();
    let result = runtime.handle(&mut senders, ServiceBus::Msg, peerd(), locked_by_peer());
    assert_eq!(other_text(result), NOT_EXPECTED);
    assert_eq!(runtime.state(), ChannelState::FundingCreated);
}

#[test]
fn own_lock_alone_does_not_move_the_channel() {
    for mut runtime in [fresh(), accepted(), created(), funded()] {
        let state = runtime.state();
        runtime.funding_confirmed();
        assert_eq!(runtime.state(), state);
    }
}

#[test]
fn channel_passes_through_every_state_in_order() {
    assert_eq!(fresh().state(), ChannelState::Proposed);
    assert_eq!(accepted().state(), ChannelState::Accepted);
    assert_eq!(created().state(), ChannelState::FundingCreated);
    assert_eq!(funded().state(), ChannelState::Funded);
    assert_eq!(operational().state(), ChannelState::Operational);
}

#[test]
fn no_single_request_brings_a_proposed_channel_into_use() {
    let requests = || {
        vec![
            (ServiceBus::Ctl, Request::FundChannel(outpoint())),
            (ServiceBus::Ctl, pay(1000)),
            (ServiceBus::Ctl, Request::GetInfo),
            (ServiceBus::Msg, locked_by_peer()),
            (
                ServiceBus::Msg,
                Request::PeerMessage(Messages::FundingSigned(FundingSigned {
                    channel_id: funded_id(),
                    signature: Signature([1; 64]),
                })),
            ),
            (
                ServiceBus::Msg,
                Request::PeerMessage(Messages::FundingCreated(FundingCreated {
                    temporary_channel_id: TempChannelId(TEMP),
                    funding_txid: [0xAA; 32],
                    funding_output_index: 7,
                    signature: Signature([1; 64]),
                })),
            ),
            (ServiceBus::Msg, Request::PeerMessage(Messages::Other(18))),
        ]
    };
    for (bus, request) in requests() {
        let mut senders = Senders::new();
        let mut runtime = fresh();
        let _ = runtime.handle(&mut senders, bus, cli(), request);
        assert_eq!(runtime.state(), ChannelState::Proposed);
    }
}

#[test]
fn transfer_increments_the_payment_counter() {
    let mut senders = Senders::new();
    let mut runtime = operational();
    for _ in 0..5 {
        runtime.handle(&mut senders, ServiceBus::Ctl, cli(), pay(1)).unwrap();
    }
    assert_eq!(runtime.total_payments(), 5);
    senders.take();
    assert_eq!(runtime.handle(&mut senders, ServiceBus::Ctl, cli(), pay(1000)), Ok(()));
    assert_eq!(runtime.total_payments(), 6);
    assert_eq!(runtime.state(), ChannelState::Operational);
    let sent = senders.take();
    assert_eq!(sent.len(), 2);
    assert_eq!(
        sent[0],
        progress(DaemonId::Channel(funded_id()), "Funding transferred, awaiting for peer signature")
    );
    assert_eq!(sent[1].bus, ServiceBus::Msg);
    assert_eq!(sent[1].source, DaemonId::Channel(funded_id()));
    assert_eq!(sent[1].dest, peerd());
    match &sent[1].request {
        Request::PeerMessage(Messages::UpdateAddHtlc(offer)) => {
            assert_eq!(offer.htlc_id, 5);
            assert_eq!(offer.amount_msat, 1000);
            assert_eq!(offer.channel_id, funded_id());
            assert_eq!(offer.cltv_expiry, 0);
            assert_eq!(offer.asset_id, None);
        }
        other => panic!("{:?}", other),
    }
}

#[test]
fn transfer_locks_the_payment_to_the_hash_of_the_preimage() {
    let mut senders = Senders::new();
    let mut runtime = operational();
    let asset = Some([0x77; 32]);
    let offer = runtime.transfer_with(&mut senders, Transfer { amount: 5, asset }, &[0u8; 32]).unwrap();
    let expected = [
        0x66, 0x68, 0x7a, 0xad, 0xf8, 0x62, 0xbd, 0x77, 0x6c, 0x8f, 0xc1, 0x8b, 0x8e, 0x9f, 0x8e, 0x20,
        0x08, 0x97, 0x14, 0x85, 0x6e, 0xe2, 0x33, 0xb3, 0x90, 0x2a, 0x59, 0x1d, 0x0d, 0x5f, 0x29, 0x25,
    ];
    assert_eq!(
        offer,
        UpdateAddHtlc {
            channel_id: funded_id(),
            htlc_id: 0,
            amount_msat: 5,
            payment_hash: expected,
            cltv_expiry: 0,
            asset_id: asset,
        }
    );
    assert_eq!(runtime.total_payments(), 1);
    assert_eq!(
        senders.take(),
        vec![progress(DaemonId::Channel(funded_id()), "Funding transferred, awaiting for peer signature")]
    );
}

#[test]
fn transfers_use_fresh_preimages() {
    let mut senders = Senders::new();
    let mut runtime = operational();
    let first = runtime.transfer(&mut senders, Transfer { amount: 1, asset: None }).unwrap();
    let second = runtime.transfer(&mut senders, Transfer { amount: 1, asset: None }).unwrap();
    assert_ne!(first.payment_hash, second.payment_hash);
    assert_eq!((first.htlc_id, second.htlc_id), (0, 1));
}

#[test]
fn transfer_is_refused_while_the_channel_is_not_in_use() {
    for mut runtime in [fresh(), accepted(), created(), funded()] {
        let mut senders = Senders::new();
        let state = runtime.state();
        let result = runtime.handle(&mut senders, ServiceBus::Ctl, cli(), pay(1000));
        assert_eq!(other_text(result), NOT_EXPECTED);
        assert_eq!(runtime.state(), state);
        assert_eq!(runtime.total_payments(), 0);
        assert_eq!(senders.len(), 0);
    }
}

#[test]
fn transfers_keep_the_capacity() {
    let mut senders = Senders::new();
    let mut runtime = operational();
    let (local, remote) = (runtime.local_capacity(), runtime.remote_capacity());
    for amount in [1, 1000, u64::MAX, 0, 25_000] {
        runtime.handle(&mut senders, ServiceBus::Ctl, cli(), pay(amount)).unwrap();
        assert_eq!(runtime.channel_capacity(), 1_000_000);
    }
    assert_eq!((runtime.local_capacity(), runtime.remote_capacity()), (local, remote));
}

#[test]
fn requests_after_the_funding_keep_factor_and_id() {
    let mut senders = Senders::new();
    let mut runtime = created();
    let factor = runtime.obscuring_factor();
    let signed = Request::PeerMessage(Messages::FundingSigned(countersigned(&runtime)));
    runtime.handle(&mut senders, ServiceBus::Msg, peerd(), signed).unwrap();
    runtime.handle(&mut senders, ServiceBus::Msg, peerd(), locked_by_peer()).unwrap();
    runtime.funding_confirmed();
    runtime.handle(&mut senders, ServiceBus::Ctl, cli(), pay(7)).unwrap();
    let _ = runtime.handle(&mut senders, ServiceBus::Ctl, cli(), open_with(None));
    let _ = runtime.handle(&mut senders, ServiceBus::Ctl, cli(), Request::FundChannel(outpoint()));
    assert_eq!(runtime.obscuring_factor(), factor);
    assert_eq!(runtime.channel_id(), funded_id());
    assert_eq!(runtime.identity(), DaemonId::Channel(funded_id()));
    assert_eq!(runtime.commitment_number(), 0);
    assert_eq!(runtime.state(), ChannelState::Operational);
}

#[test]
fn get_info_on_msg_is_not_supported_and_served_on_ctl() {
    let mut senders = Senders::new();
    let mut runtime = accepted();
    let result = runtime.handle(&mut senders, ServiceBus::Msg, cli(), Request::GetInfo);
    assert_eq!(result, Err(Error::NotSupported(ServiceBus::Msg, RequestType::GetInfo)));
    assert_eq!(senders.len(), 0);
    assert_eq!(runtime.state(), ChannelState::Accepted);

    assert_eq!(runtime.handle(&mut senders, ServiceBus::Ctl, cli(), Request::GetInfo), Ok(()));
    let sent = senders.take();
    assert_eq!(sent.len(), 1);
    assert_eq!(sent[0].bus, ServiceBus::Ctl);
    assert_eq!(sent[0].source, DaemonId::Channel(ChannelId(TEMP)));
    assert_eq!(sent[0].dest, cli());
    match &sent[0].request {
        Request::ChannelInfo(info) => {
            assert_eq!(info.state, ChannelState::Accepted);
            assert_eq!(info.channel_id, None);
            assert_eq!(info.temporary_channel_id, TempChannelId(TEMP));
            assert_eq!(info.local_capacity, 1_000_000);
            assert_eq!(info.since, STARTED);
            assert!(info.uptime > 0);
            assert_eq!(info.remote_peer, Some("1.2.3.4:9735".to_string()));
        }
        other => panic!("{:?}", other),
    }
}

#[test]
fn channel_info_tells_all_that_the_channel_knows() {
    let mut senders = Senders::new();
    let mut runtime = operational();
    runtime.handle(&mut senders, ServiceBus::Ctl, cli(), pay(1)).unwrap();
    let info = runtime.channel_info(STARTED + 90);
    assert_eq!(info.channel_id, Some(funded_id()));
    assert_eq!(info.temporary_channel_id, TempChannelId(TEMP));
    assert_eq!(info.state, ChannelState::Operational);
    assert_eq!(info.local_capacity, 1_000_000);
    assert_eq!(info.remote_capacity, 0);
    assert!(info.local_balances.is_empty());
    assert!(info.remote_balances.is_empty());
    assert_eq!(info.funding_outpoint, outpoint());
    assert_eq!(info.remote_peer, Some("1.2.3.4:9735".to_string()));
    assert_eq!(info.uptime, 90);
    assert_eq!(info.since, STARTED);
    assert_eq!(info.commitment_updates, 0);
    assert_eq!(info.total_payments, 1);
    assert_eq!(info.pending_payments, 0);
    assert!(info.is_originator);
    assert_eq!(info.params, runtime.params());
    assert_eq!(info.local_keys, runtime.local_keys());
    assert_eq!(info.remote_keys, runtime.remote_keys());
}

#[test]
fn uptime_is_zero_when_the_clock_went_back() {
    assert_eq!(fresh().channel_info(STARTED - 1).uptime, 0);
    assert_eq!(fresh().channel_info(STARTED).uptime, 0);
    assert_eq!(fresh().channel_info(u64::MAX).uptime, u64::MAX - STARTED);
}

#[test]
fn bridge_bus_supports_nothing() {
    let mut senders = Senders::new();
    let mut runtime = accepted();
    let result = runtime.handle(&mut senders, ServiceBus::Bridge, cli(), Request::GetInfo);
    assert_eq!(result, Err(Error::NotSupported(ServiceBus::Bridge, RequestType::GetInfo)));
    let result = runtime.handle(&mut senders, ServiceBus::Bridge, cli(), locked_by_peer());
    assert_eq!(result, Err(Error::NotSupported(ServiceBus::Bridge, RequestType::PeerMessage)));
    assert_eq!(senders.len(), 0);
}

#[test]
fn control_requests_on_msg_are_not_supported() {
    let mut senders = Senders::new();
    let mut runtime = operational();
    assert_eq!(
        runtime.handle(&mut senders, ServiceBus::Msg, cli(), pay(1)),
        Err(Error::NotSupported(ServiceBus::Msg, RequestType::Transfer))
    );
    assert_eq!(
        runtime.handle(&mut senders, ServiceBus::Msg, cli(), open_with(None)),
        Err(Error::NotSupported(ServiceBus::Msg, RequestType::OpenChannelWith))
    );
    assert_eq!(runtime.total_payments(), 0);
}

#[test]
fn peer_messages_on_ctl_are_not_supported() {
    let mut senders = Senders::new();
    let mut runtime = funded();
    assert_eq!(
        runtime.handle(&mut senders, ServiceBus::Ctl, peerd(), locked_by_peer()),
        Err(Error::NotSupported(ServiceBus::Ctl, RequestType::PeerMessage))
    );
    assert_eq!(
        runtime.handle(&mut senders, ServiceBus::Ctl, peerd(), Request::Hello),
        Err(Error::NotSupported(ServiceBus::Ctl, RequestType::Hello))
    );
    assert_eq!(runtime.state(), ChannelState::Funded);
}

#[test]
fn other_peer_messages_are_ignored() {
    let mut senders = Senders::new();
    let mut runtime = accepted();
    let ping = Request::PeerMessage(Messages::Other(18));
    assert_eq!(runtime.handle(&mut senders, ServiceBus::Msg, peerd(), ping), Ok(()));
    let open = Request::PeerMessage(Messages::OpenChannel(proposal(5, 0)));
    assert_eq!(runtime.handle(&mut senders, ServiceBus::Msg, peerd(), open), Ok(()));
    assert_eq!(runtime.state(), ChannelState::Accepted);
    assert_eq!(senders.len(), 0);
}

#[test]
fn refused_request_still_names_the_enquirer() {
    let mut senders = Senders::new();
    let mut runtime = fresh();
    assert!(runtime.handle(&mut senders, ServiceBus::Ctl, cli(), Request::FundChannel(outpoint())).is_err());
    assert_eq!(senders.len(), 0);
    // the next report goes to who asked last
    let mut modest = answer();
    modest.dust_limit_satoshis = 0;
    runtime.channel_accepted(&mut senders, &modest, &peerd()).unwrap();
    assert_eq!(
        senders.take(),
        vec![
            progress(temp_identity(), "Channel was accepted by the remote peer"),
            success(temp_identity(), "Channel is ready for funding"),
        ]
    );
}

#[test]
fn inbound_funding_is_signed_and_reported() {
    let mut senders = Senders::new();
    let mut runtime = Runtime::new(node(2), TempChannelId(TEMP), STARTED);
    let accept = Request::AcceptChannelFrom(CreateChannel {
        channel_req: proposal(1_000_000, 0),
        peerd: peerd(),
        report_to: None,
    });
    runtime.handle(&mut senders, ServiceBus::Ctl, DaemonId::Lnpd, accept).unwrap();
    senders.take();
    let created = FundingCreated {
        temporary_channel_id: TempChannelId(TEMP),
        funding_txid: [0xAA; 32],
        funding_output_index: 7,
        signature: Signature([3; 64]),
    };
    let request = Request::PeerMessage(Messages::FundingCreated(created));
    assert_eq!(runtime.handle(&mut senders, ServiceBus::Msg, peerd(), request), Ok(()));
    assert_eq!(runtime.state(), ChannelState::FundingCreated);
    assert_eq!(runtime.funding_outpoint(), outpoint());
    assert_eq!(runtime.channel_id(), funded_id());
    let digest = runtime.commitment_sighash(false);
    assert_eq!(
        senders.take(),
        vec![
            Envelope {
                bus: ServiceBus::Ctl,
                source: temp_identity(),
                dest: DaemonId::Lnpd,
                request: Request::UpdateChannelId(funded_id()),
            },
            Envelope {
                bus: ServiceBus::Msg,
                source: DaemonId::Channel(funded_id()),
                dest: peerd(),
                request: Request::PeerMessage(Messages::FundingSigned(FundingSigned {
                    channel_id: funded_id(),
                    signature: node(2).sign(&digest),
                })),
            },
        ]
    );
}

#[test]
fn transport_errors_are_swallowed() {
    let mut runtime = funded();
    assert_eq!(runtime.handle_err(Error::Transport("the link is down".to_string())), Ok(()));
    assert_eq!(runtime.state(), ChannelState::Funded);
}

#[test]
fn two_sides_establish_a_channel() {
    let mut to_bob = Senders::new();
    let mut to_alice = Senders::new();
    let alice_d = DaemonId::Connection("alice".to_string());
    let bob_d = DaemonId::Connection("bob".to_string());
    let mut alice = Runtime::new(node(1), TempChannelId(TEMP), STARTED);
    let mut bob = Runtime::new(node(2), TempChannelId(TEMP), STARTED);
    let channel_req = proposal(1_000_000, 250_000_000);

    let open = Request::OpenChannelWith(CreateChannel { channel_req, peerd: bob_d.clone(), report_to: None });
    alice.handle(&mut to_bob, ServiceBus::Ctl, cli(), open).unwrap();
    let proposed = match to_bob.take().pop().unwrap().request {
        Request::PeerMessage(Messages::OpenChannel(m)) => m,
        other => panic!("{:?}", other),
    };

    let accept =
        Request::AcceptChannelFrom(CreateChannel { channel_req: proposed, peerd: alice_d.clone(), report_to: None });
    bob.handle(&mut to_alice, ServiceBus::Ctl, DaemonId::Lnpd, accept).unwrap();
    let answered = to_alice.take().pop().unwrap().request;
    alice.handle(&mut to_bob, ServiceBus::Msg, bob_d.clone(), answered).unwrap();
    assert_eq!(alice.params(), bob.params());
    assert_eq!(alice.state(), ChannelState::Accepted);
    assert_eq!(bob.state(), ChannelState::Accepted);

    alice.handle(&mut to_bob, ServiceBus::Ctl, cli(), Request::FundChannel(outpoint())).unwrap();
    let created = to_bob.take().pop().unwrap().request;
    bob.handle(&mut to_alice, ServiceBus::Msg, alice_d.clone(), created).unwrap();
    assert_eq!(alice.obscuring_factor(), bob.obscuring_factor());
    assert_eq!(alice.channel_id(), bob.channel_id());
    assert_eq!(alice.channel_capacity(), bob.channel_capacity());
    assert_eq!(alice.local_capacity(), bob.remote_capacity());
    assert_eq!(alice.commitment_sighash(true), bob.commitment_sighash(false));
    assert_eq!(alice.commitment_sighash(false), bob.commitment_sighash(true));

    let mut from_bob = to_alice.take();
    let signed = from_bob.pop().unwrap().request;
    assert_eq!(from_bob.pop().unwrap().request, Request::UpdateChannelId(funded_id()));
    assert_eq!(alice.handle(&mut to_bob, ServiceBus::Msg, bob_d, signed), Ok(()));
    assert_eq!(alice.state(), ChannelState::Funded);
    assert_eq!(bob.state(), ChannelState::FundingCreated);
}
