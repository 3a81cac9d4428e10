//! The round lifecycle state machine.
//!
//! A session moves `NotStarted -> AcceptingBets -> BetsClosed -> Completed`,
//! and from `Completed` back to `AcceptingBets` of the next round. The
//! lifecycle only ever advances: in any other phase each transition is
//! rejected and the session is left untouched.
//!
//! The outcome is drawn deterministically from a SHA-256 digest of the last
//! bettor's identity, the clock and the slot counter; the low 64 bits of the
//! digest, reduced modulo 37, give the winning number.

use vstd::prelude::*;

use crate::errors::RouletteError;
use crate::events::{BetsClosed, RandomGenerated, RoundStarted};
use crate::state::{GameSession, Pubkey, RoundStatus};

verus! {

/// The SHA-256 digest drawn over the last bettor's identity, the draw time
/// and the slot, each serialized in little-endian order. A pure function of
/// its three inputs; named here, applied by `outcome_digest`.
pub uninterp spec fn spec_outcome_digest(bettor_id: u64, draw_time: i64, slot: u64) -> Seq<u8>;

/// Relies on `anchor_lang::solana_program::hash::hashv`: a SHA-256 digest of
/// the concatenation of the input byte slices, 32 bytes long, depending on
/// those bytes alone.
#[verifier::external_body]
fn outcome_digest(bettor: &Pubkey, draw_time: i64, slot: u64) -> (r: [u8; 32])
    ensures
        r@ == spec_outcome_digest(bettor.id, draw_time, slot),
        r@.len() == 32,
{
    let digest = anchor_lang::solana_program::hash::hashv(
        &[&bettor.id.to_le_bytes()[..], &draw_time.to_le_bytes()[..], &slot.to_le_bytes()[..]],
    );
    digest.to_bytes()
}

/// The unsigned 64-bit value read little-endian from the first eight cells
/// of `b`.
pub open spec fn spec_le_u64_prefix(b: Seq<u8>) -> int
    recommends
        b.len() >= 8,
{
    b[0] + b[1] * 0x100 + b[2] * 0x1_0000 + b[3] * 0x100_0000 + b[4] * 0x1_0000_0000 + b[5]
        * 0x100_0000_0000 + b[6] * 0x1_0000_0000_0000 + b[7] * 0x100_0000_0000_0000
}

/// Reads the first eight bytes of a digest as a little-endian u64.
fn le_u64_prefix(b: &[u8; 32]) -> (r: u64)
    ensures
        r == spec_le_u64_prefix(b@),
{
    (b[0] as u64) + (b[1] as u64) * 0x100 + (b[2] as u64) * 0x1_0000 + (b[3] as u64) * 0x100_0000
        + (b[4] as u64) * 0x1_0000_0000 + (b[5] as u64) * 0x100_0000_0000 + (b[6] as u64)
        * 0x1_0000_0000_0000 + (b[7] as u64) * 0x100_0000_0000_0000
}

/// The winning number that a draw at `draw_time` / `slot` with last bettor
/// `bettor_id` yields: the digest's low 64 bits reduced modulo 37.
pub open spec fn spec_winning_number(bettor_id: u64, draw_time: i64, slot: u64) -> int {
    spec_le_u64_prefix(spec_outcome_digest(bettor_id, draw_time, slot)) % 37
}

/// A fresh session bound to `authority`: round zero, nothing started, no
/// outcome, no bettor recorded.
pub fn initialize_game_session(authority: Pubkey) -> (s: GameSession)
    ensures
        s == (GameSession {
            current_round: 0,
            round_start_time: 0,
            round_status: RoundStatus::NotStarted,
            winning_number: None,
            bets_closed_timestamp: 0,
            get_random_timestamp: 0,
            last_bettor: None,
            last_completed_round: 0,
            authority,
        }),
        s.wf(),
{
    GameSession {
        current_round: 0,
        round_start_time: 0,
        round_status: RoundStatus::NotStarted,
        winning_number: None,
        bets_closed_timestamp: 0,
        get_random_timestamp: 0,
        last_bettor: None,
        last_completed_round: 0,
        authority,
    }
}

/// Whether the lifecycle allows a new round to begin.
pub open spec fn spec_start_allowed(s: GameSession) -> bool {
    s.round_status == RoundStatus::NotStarted || s.round_status == RoundStatus::Completed
}

/// Opens the next round: allowed only between rounds (`NotStarted` or
/// `Completed`), otherwise the session is untouched and the call is
/// rejected. On success the round counter is incremented, the phase becomes
/// `AcceptingBets`, and the previous round's timestamps, outcome and last
/// bettor are cleared.
pub fn start_new_round(
    session: &mut GameSession,
    starter: Pubkey,
    now: i64,
    enforce_admin: bool,
) -> (r: Result<RoundStarted, RouletteError>)
    ensures
        ({
            let s = *old(session);
            if enforce_admin && starter != s.authority {
                r == Err::<RoundStarted, RouletteError>(RouletteError::AdminOnly) && *final(session) == s
            } else if !spec_start_allowed(s) {
                r == Err::<RoundStarted, RouletteError>(RouletteError::RoundInProgress) && *final(session) == s
            } else if s.current_round == u64::MAX {
                r == Err::<RoundStarted, RouletteError>(RouletteError::ArithmeticOverflow)
                    && *final(session) == s
            } else {
                &&& *final(session) == (GameSession {
                    current_round: (s.current_round + 1) as u64,
                    round_start_time: now,
                    round_status: RoundStatus::AcceptingBets,
                    winning_number: None,
                    bets_closed_timestamp: 0,
                    get_random_timestamp: 0,
                    last_bettor: None,
                    ..s
                })
                &&& r == Ok::<RoundStarted, RouletteError>(RoundStarted {
                    round: (s.current_round + 1) as u64,
                    starter,
                    start_time: now,
                })
            }
        }),
        old(session).wf() ==> final(session).wf(),
{
    if enforce_admin && starter.id != session.authority.id {
        return Err(RouletteError::AdminOnly);
    }
    if !(session.round_status == RoundStatus::NotStarted || session.round_status
        == RoundStatus::Completed) {
        return Err(RouletteError::RoundInProgress);
    }
    if session.current_round == u64::MAX {
        return Err(RouletteError::ArithmeticOverflow);
    }
    session.current_round = session.current_round + 1;
    session.round_start_time = now;
    session.round_status = RoundStatus::AcceptingBets;
    session.winning_number = None;
    session.bets_closed_timestamp = 0;
    session.get_random_timestamp = 0;
    session.last_bettor = None;
    Ok(RoundStarted { round: session.current_round, starter, start_time: now })
}

/// Closes the betting phase: allowed only from `AcceptingBets` and only once
/// somebody has bet, otherwise the session is untouched and the call is
/// rejected.
pub fn close_bets(
    session: &mut GameSession,
    closer: Pubkey,
    now: i64,
    enforce_admin: bool,
) -> (r: Result<BetsClosed, RouletteError>)
    ensures
        ({
            let s = *old(session);
            if enforce_admin && closer != s.authority {
                r == Err::<BetsClosed, RouletteError>(RouletteError::AdminOnly) && *final(session)
                    == s
            } else if s.round_status != RoundStatus::AcceptingBets {
                r == Err::<BetsClosed, RouletteError>(RouletteError::BetsNotAccepted) && *final(session) == s
            } else if s.last_bettor is None {
                r == Err::<BetsClosed, RouletteError>(RouletteError::CannotCloseBetsWithoutBets)
                    && *final(session) == s
            } else {
                &&& *final(session) == (GameSession {
                    round_status: RoundStatus::BetsClosed,
                    bets_closed_timestamp: now,
                    ..s
                })
                &&& r == Ok::<BetsClosed, RouletteError>(BetsClosed {
                    round: s.current_round,
                    closer,
                    close_time: now,
                })
            }
        }),
        old(session).wf() ==> final(session).wf(),
{
    if enforce_admin && closer.id != session.authority.id {
        return Err(RouletteError::AdminOnly);
    }
    if session.round_status != RoundStatus::AcceptingBets {
        return Err(RouletteError::BetsNotAccepted);
    }
    if session.last_bettor.is_none() {
        return Err(RouletteError::CannotCloseBetsWithoutBets);
    }
    session.round_status = RoundStatus::BetsClosed;
    session.bets_closed_timestamp = now;
    Ok(BetsClosed { round: session.current_round, closer, close_time: now })
}

/// Draws the round's outcome: allowed only from `BetsClosed` with a recorded
/// last bettor, otherwise the session is untouched and the call is rejected.
/// The winning number is the low 64 bits of a SHA-256 digest of the last
/// bettor, the clock and the slot, reduced modulo 37; the round becomes
/// `Completed` and claimable.
pub fn get_random(
    session: &mut GameSession,
    initiator: Pubkey,
    now: i64,
    slot: u64,
    enforce_admin: bool,
) -> (r: Result<RandomGenerated, RouletteError>)
    ensures
        ({
            let s = *old(session);
            if enforce_admin && initiator != s.authority {
                r == Err::<RandomGenerated, RouletteError>(RouletteError::AdminOnly) && *final(session) == s
            } else if s.round_status != RoundStatus::BetsClosed {
                r == Err::<RandomGenerated, RouletteError>(RouletteError::RandomBeforeClosing)
                    && *final(session) == s
            } else if s.last_bettor is None {
                r == Err::<RandomGenerated, RouletteError>(RouletteError::NoBetsPlacedInRound)
                    && *final(session) == s
            } else {
                let bettor = s.last_bettor->Some_0;
                let w = spec_winning_number(bettor.id, now, slot) as u8;
                &&& *final(session) == (GameSession {
                    round_status: RoundStatus::Completed,
                    winning_number: Some(w),
                    last_completed_round: s.current_round,
                    get_random_timestamp: now,
                    ..s
                })
                &&& w < 37
                &&& r matches Ok(ev)
                &&& ev.round == s.current_round
                &&& ev.initiator == initiator
                &&& ev.winning_number == w
                &&& ev.generation_time == now
                &&& ev.slot == slot
                &&& ev.last_bettor == bettor
                &&& ev.hash_result@ == spec_outcome_digest(bettor.id, now, slot)
                &&& ev.hash_prefix_u64 == spec_le_u64_prefix(
                    spec_outcome_digest(bettor.id, now, slot),
                )
            }
        }),
        old(session).wf() ==> final(session).wf(),
{
    if enforce_admin && initiator.id != session.authority.id {
        return Err(RouletteError::AdminOnly);
    }
    if session.round_status != RoundStatus::BetsClosed {
        return Err(RouletteError::RandomBeforeClosing);
    }
    let last_bettor = match session.last_bettor {
        Some(b) => b,
        None => { return Err(RouletteError::NoBetsPlacedInRound) },
    };
    let hash_bytes = outcome_digest(&last_bettor, now, slot);
    let hash_prefix = le_u64_prefix(&hash_bytes);
    let winning_number = (hash_prefix % 37) as u8;
    session.winning_number = Some(winning_number);
    session.round_status = RoundStatus::Completed;
    session.last_completed_round = session.current_round;
    session.get_random_timestamp = now;
    Ok(
        RandomGenerated {
            round: session.current_round,
            initiator,
            winning_number,
            generation_time: now,
            slot,
            last_bettor,
            hash_result: hash_bytes,
            hash_prefix_u64: hash_prefix,
        },
    )
}

} // verus!
