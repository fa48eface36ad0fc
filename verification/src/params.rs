//! The parameters that the two sides of a channel negotiate, and the rules
//! by which a proposal or an answer is turned down.

use crate::message::{AcceptChannel, OpenChannel};
use crate::rpc::ChannelState;
use vstd::prelude::*;

verus! {

/// The most HTLCs that either side may keep pending.
pub const MAX_ACCEPTED_HTLCS: u16 = 483;

/// The longest delay, in blocks, that this node lets the other side impose
/// on its own outputs: two weeks.
pub const MAX_TO_SELF_DELAY: u16 = 2016;

/// Why a proposal or an answer was turned down.
#[derive(Clone, Copy, PartialEq, Eq, Debug)]
pub enum ChannelNegotiationError {
    /// The channel is in a state in which nothing is negotiated any more.
    UnexpectedState(ChannelState),
    /// More is pushed to the responder than the channel is funded with.
    PushExceedsFunding { push_msat: u64, funding_satoshis: u64 },
    /// `to_self_delay` is longer than this node accepts.
    ToSelfDelayUnreasonablyLarge { proposed: u16, allowed_maximum: u16 },
    /// `max_accepted_htlcs` is over the limit of the protocol.
    MaxAcceptedHtlcLimitExceeded(u16),
    /// The reserve is below the dust limit of the same side.
    ChannelReserveLessDust { reserve: u64, dust_limit: u64 },
    /// The responder asks for more confirmations than this node waits for.
    UnreasonableMinDepth { proposed: u32, allowed_maximum: u32 },
    /// The responder lowered the dust limit that the originator proposed.
    DustLimitDecreased { proposed: u64, current: u64 },
    /// The reserve asked by the responder is below the originator's dust
    /// limit.
    LocalDustExceedsRemoteReserve { channel_reserve: u64, dust_limit: u64 },
    /// The reserve asked by the originator is below the responder's dust
    /// limit.
    RemoteDustExceedsLocalReserve { channel_reserve: u64, dust_limit: u64 },
}

/// The negotiated parameters of a channel.
#[derive(Clone, Copy, PartialEq, Eq, Debug)]
pub struct ChannelParams {
    pub dust_limit_satoshis: u64,
    pub max_htlc_value_in_flight_msat: u64,
    pub channel_reserve_satoshis: u64,
    pub htlc_minimum_msat: u64,
    pub to_self_delay: u16,
    pub max_accepted_htlcs: u16,
    pub minimum_depth: u32,
}

impl ChannelParams {
    /// Whether every parameter lies within the bounds of the protocol and of
    /// this node.
    pub open spec fn acceptable(self) -> bool {
        &&& self.to_self_delay <= MAX_TO_SELF_DELAY
        &&& self.max_accepted_htlcs <= MAX_ACCEPTED_HTLCS
        &&& self.dust_limit_satoshis <= self.channel_reserve_satoshis
    }

    /// The rule that these parameters break, if they break one.
    pub open spec fn violation(self) -> Option<ChannelNegotiationError> {
        if self.to_self_delay > MAX_TO_SELF_DELAY {
            Some(
                ChannelNegotiationError::ToSelfDelayUnreasonablyLarge {
                    proposed: self.to_self_delay,
                    allowed_maximum: MAX_TO_SELF_DELAY,
                },
            )
        } else if self.max_accepted_htlcs > MAX_ACCEPTED_HTLCS {
            Some(ChannelNegotiationError::MaxAcceptedHtlcLimitExceeded(self.max_accepted_htlcs))
        } else if self.dust_limit_satoshis > self.channel_reserve_satoshis {
            Some(
                ChannelNegotiationError::ChannelReserveLessDust {
                    reserve: self.channel_reserve_satoshis,
                    dust_limit: self.dust_limit_satoshis,
                },
            )
        } else {
            None
        }
    }

    /// The parameters that an `open_channel` proposes.
    pub open spec fn proposed(m: OpenChannel) -> ChannelParams {
        ChannelParams {
            dust_limit_satoshis: m.dust_limit_satoshis,
            max_htlc_value_in_flight_msat: m.max_htlc_value_in_flight_msat,
            channel_reserve_satoshis: m.channel_reserve_satoshis,
            htlc_minimum_msat: m.htlc_minimum_msat,
            to_self_delay: m.to_self_delay,
            max_accepted_htlcs: m.max_accepted_htlcs,
            minimum_depth: 0,
        }
    }

    /// The parameters that an `accept_channel` answers with.
    pub open spec fn answered(m: AcceptChannel) -> ChannelParams {
        ChannelParams {
            dust_limit_satoshis: m.dust_limit_satoshis,
            max_htlc_value_in_flight_msat: m.max_htlc_value_in_flight_msat,
            channel_reserve_satoshis: m.channel_reserve_satoshis,
            htlc_minimum_msat: m.htlc_minimum_msat,
            to_self_delay: m.to_self_delay,
            max_accepted_htlcs: m.max_accepted_htlcs,
            minimum_depth: m.minimum_depth,
        }
    }

    /// What [`ChannelParams::with`] returns for an `open_channel`.
    pub open spec fn with_spec(m: OpenChannel) -> Result<ChannelParams, ChannelNegotiationError> {
        if m.push_msat > 1000 * m.funding_satoshis {
            Err(
                ChannelNegotiationError::PushExceedsFunding {
                    push_msat: m.push_msat,
                    funding_satoshis: m.funding_satoshis,
                },
            )
        } else {
            match Self::proposed(m).violation() {
                Some(err) => Err(err),
                None => Ok(Self::proposed(m)),
            }
        }
    }

    /// The rule that an `accept_channel` breaks against these parameters,
    /// if it breaks one.
    pub open spec fn rejection(self, m: AcceptChannel, min_depth_bound: Option<u32>) -> Option<
        ChannelNegotiationError,
    > {
        if min_depth_bound matches Some(bound) && m.minimum_depth > bound {
            Some(
                ChannelNegotiationError::UnreasonableMinDepth {
                    proposed: m.minimum_depth,
                    allowed_maximum: min_depth_bound.unwrap(),
                },
            )
        } else if m.dust_limit_satoshis < self.dust_limit_satoshis {
            Some(
                ChannelNegotiationError::DustLimitDecreased {
                    proposed: m.dust_limit_satoshis,
                    current: self.dust_limit_satoshis,
                },
            )
        } else if m.channel_reserve_satoshis < self.dust_limit_satoshis {
            Some(
                ChannelNegotiationError::LocalDustExceedsRemoteReserve {
                    channel_reserve: m.channel_reserve_satoshis,
                    dust_limit: self.dust_limit_satoshis,
                },
            )
        } else if self.channel_reserve_satoshis < m.dust_limit_satoshis {
            Some(
                ChannelNegotiationError::RemoteDustExceedsLocalReserve {
                    channel_reserve: self.channel_reserve_satoshis,
                    dust_limit: m.dust_limit_satoshis,
                },
            )
        } else {
            Self::answered(m).violation()
        }
    }

    /// The parameters that nothing was negotiated for yet.
    pub fn new() -> (params: ChannelParams)
        ensures
            params == Self::unset(),
            params.acceptable(),
    {
        ChannelParams {
            dust_limit_satoshis: 0,
            max_htlc_value_in_flight_msat: 0,
            channel_reserve_satoshis: 0,
            htlc_minimum_msat: 0,
            to_self_delay: 0,
            max_accepted_htlcs: 0,
            minimum_depth: 0,
        }
    }

    /// All parameters zero.
    pub open spec fn unset() -> ChannelParams {
        ChannelParams {
            dust_limit_satoshis: 0,
            max_htlc_value_in_flight_msat: 0,
            channel_reserve_satoshis: 0,
            htlc_minimum_msat: 0,
            to_self_delay: 0,
            max_accepted_htlcs: 0,
            minimum_depth: 0,
        }
    }

    /// The rule that these parameters break, if they break one.
    fn check(&self) -> (broken: Option<ChannelNegotiationError>)
        ensures
            broken == self.violation(),
    {
        if self.to_self_delay > MAX_TO_SELF_DELAY {
            Some(
                ChannelNegotiationError::ToSelfDelayUnreasonablyLarge {
                    proposed: self.to_self_delay,
                    allowed_maximum: MAX_TO_SELF_DELAY,
                },
            )
        } else if self.max_accepted_htlcs > MAX_ACCEPTED_HTLCS {
            Some(ChannelNegotiationError::MaxAcceptedHtlcLimitExceeded(self.max_accepted_htlcs))
        } else if self.dust_limit_satoshis > self.channel_reserve_satoshis {
            Some(
                ChannelNegotiationError::ChannelReserveLessDust {
                    reserve: self.channel_reserve_satoshis,
                    dust_limit: self.dust_limit_satoshis,
                },
            )
        } else {
            None
        }
    }

    /// The parameters that an `open_channel` proposes, if they are within
    /// bounds: no more is pushed than funded, the delay is one this node
    /// accepts, the number of HTLCs is within the protocol's limit, and the
    /// reserve is no less than the dust limit.
    pub fn with(open_channel: &OpenChannel) -> (params: Result<ChannelParams, ChannelNegotiationError>)
        ensures
            params == Self::with_spec(*open_channel),
            params matches Ok(p) ==> p.acceptable(),
    {
        let m = open_channel;
        if m.push_msat as u128 > 1000u128 * (m.funding_satoshis as u128) {
            return Err(
                ChannelNegotiationError::PushExceedsFunding {
                    push_msat: m.push_msat,
                    funding_satoshis: m.funding_satoshis,
                },
            );
        }
        let proposed = ChannelParams {
            dust_limit_satoshis: m.dust_limit_satoshis,
            max_htlc_value_in_flight_msat: m.max_htlc_value_in_flight_msat,
            channel_reserve_satoshis: m.channel_reserve_satoshis,
            htlc_minimum_msat: m.htlc_minimum_msat,
            to_self_delay: m.to_self_delay,
            max_accepted_htlcs: m.max_accepted_htlcs,
            minimum_depth: 0,
        };
        match proposed.check() {
            Some(err) => Err(err),
            None => Ok(proposed),
        }
    }

    /// Takes over the parameters of an `accept_channel`, unless it asks for
    /// too many confirmations, lowers the dust limit, sets a reserve below
    /// the other side's dust limit, or is itself out of bounds. The
    /// parameters stay as they were when the answer is turned down.
    pub fn updated(&mut self, accept_channel: &AcceptChannel, min_depth_bound: Option<u32>) -> (done: Result<
        (),
        ChannelNegotiationError,
    >)
        ensures
            match old(self).rejection(*accept_channel, min_depth_bound) {
                Some(err) => done == Err::<(), ChannelNegotiationError>(err) && *final(self) == *old(
                    self,
                ),
                None => done == Ok::<(), ChannelNegotiationError>(()) && *final(self)
                    == Self::answered(*accept_channel) && final(self).acceptable(),
            },
    {
        let m = accept_channel;
        if let Some(bound) = min_depth_bound {
            if m.minimum_depth > bound {
                return Err(
                    ChannelNegotiationError::UnreasonableMinDepth {
                        proposed: m.minimum_depth,
                        allowed_maximum: bound,
                    },
                );
            }
        }
        if m.dust_limit_satoshis < self.dust_limit_satoshis {
            return Err(
                ChannelNegotiationError::DustLimitDecreased {
                    proposed: m.dust_limit_satoshis,
                    current: self.dust_limit_satoshis,
                },
            );
        }
        if m.channel_reserve_satoshis < self.dust_limit_satoshis {
            return Err(
                ChannelNegotiationError::LocalDustExceedsRemoteReserve {
                    channel_reserve: m.channel_reserve_satoshis,
                    dust_limit: self.dust_limit_satoshis,
                },
            );
        }
        if self.channel_reserve_satoshis < m.dust_limit_satoshis {
            return Err(
                ChannelNegotiationError::RemoteDustExceedsLocalReserve {
                    channel_reserve: self.channel_reserve_satoshis,
                    dust_limit: m.dust_limit_satoshis,
                },
            );
        }
        let answered = ChannelParams {
            dust_limit_satoshis: m.dust_limit_satoshis,
            max_htlc_value_in_flight_msat: m.max_htlc_value_in_flight_msat,
            channel_reserve_satoshis: m.channel_reserve_satoshis,
            htlc_minimum_msat: m.htlc_minimum_msat,
            to_self_delay: m.to_self_delay,
            max_accepted_htlcs: m.max_accepted_htlcs,
            minimum_depth: m.minimum_depth,
        };
        match answered.check() {
            Some(err) => Err(err),
            None => {
                *self = answered;
                Ok(())
            },
        }
    }
}

/// An answer that repeats an accepted proposal is itself accepted: the
/// responder may echo the values of the originator.
pub proof fn lemma_echo_is_accepted(open: OpenChannel, accept: AcceptChannel, bound: Option<u32>)
    requires
        ChannelParams::with_spec(open) is Ok,
        accept.dust_limit_satoshis == open.dust_limit_satoshis,
        accept.channel_reserve_satoshis == open.channel_reserve_satoshis,
        accept.to_self_delay == open.to_self_delay,
        accept.max_accepted_htlcs == open.max_accepted_htlcs,
        bound matches Some(b) ==> accept.minimum_depth <= b,
    ensures
        ChannelParams::with_spec(open).unwrap().rejection(accept, bound) is None,
{
}

} // verus!
