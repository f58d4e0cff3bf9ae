//! Properties of the governance program that span instructions.

use vstd::prelude::*;
use crate::pubkey::Pubkey;
use crate::encoding::{le_bytes, lemma_le_roundtrip};
use crate::governance::cpi_helpers::{decoded_treasury_instruction, TreasuryInstruction};
use crate::governance::state::{GovernanceConfig, GovernanceError, Proposal, ProposalStatus, VoteChoice, BASIS_POINTS_MAX};
use crate::governance::instructions::{
    cast_vote_outcome, execute_outcome, reputation_multiplier, tally_approves, tally_outcome,
    voting_power, ExecutionAction,
};
use crate::governance::state::ProposalType;

verus! {

/// The yes and no votes of a proposal never exceed its total voting power
/// (abstentions count only in the total).
pub open spec fn votes_within_power(p: Proposal) -> bool {
    p.yes_votes + p.no_votes <= p.total_voting_power
}

/// Casting a vote keeps the yes and no votes within the total voting power,
/// and adds exactly the vote's power to the total.
pub proof fn lemma_cast_vote_keeps_vote_accounting(
    config: GovernanceConfig,
    p: Proposal,
    voter: Pubkey,
    owner: Pubkey,
    data: Seq<u8>,
    mint: Pubkey,
    proposal_id: u64,
    vote_choice: VoteChoice,
    bump: u8,
    now: i64,
    reputation: u64,
)
    requires
        votes_within_power(p),
    ensures
        cast_vote_outcome(config, p, voter, owner, data, mint, proposal_id, vote_choice, bump, now, reputation)
            matches Ok((p2, v)) ==> votes_within_power(p2) && p2.total_voting_power == p.total_voting_power
            + v.voting_power && p2.total_votes == p.total_votes + 1 && p2.status == p.status,
{
}

/// A vote only lands during the voting period, and a tally only happens
/// after it: no vote is ever counted after its proposal was tallied.
pub proof fn lemma_votes_precede_tally(
    config: GovernanceConfig,
    p: Proposal,
    voter: Pubkey,
    owner: Pubkey,
    data: Seq<u8>,
    mint: Pubkey,
    proposal_id: u64,
    vote_choice: VoteChoice,
    bump: u8,
    t_vote: i64,
    t_tally: i64,
    reputation: u64,
)
    requires
        cast_vote_outcome(config, p, voter, owner, data, mint, proposal_id, vote_choice, bump, t_vote, reputation) is Ok,
        tally_outcome(p, config, t_tally) is Ok,
    ensures
        t_vote < t_tally,
{
}

/// A higher reputation never gives less voting power, and the power lies
/// between the token amount and twice that amount.
pub proof fn lemma_voting_power_monotonic(amount: u64, r1: u64, r2: u64)
    requires
        r1 <= r2,
    ensures
        voting_power(amount, reputation_multiplier(r1)) <= voting_power(amount, reputation_multiplier(r2)),
        amount <= voting_power(amount, reputation_multiplier(r1)) <= 2 * amount,
{
    let w1 = reputation_multiplier(r1);
    let w2 = reputation_multiplier(r2);
    assert(amount * w1 <= amount * w2) by (nonlinear_arith)
        requires w1 <= w2;
    assert(amount * w1 / 100 <= amount * w2 / 100) by (nonlinear_arith)
        requires amount * w1 <= amount * w2;
    assert(amount <= amount * w1 / 100 <= 2 * amount) by (nonlinear_arith)
        requires 100 <= w1 <= 200, amount >= 0;
}

/// Abstentions count towards quorum: with a quorum of at most 100%, an
/// active proposal whose voting period is over is always decided (approved
/// or rejected), even when every vote abstained.
pub proof fn lemma_abstentions_count_for_quorum(p: Proposal, c: GovernanceConfig, now: i64)
    requires
        c.quorum_threshold_bps <= BASIS_POINTS_MAX,
        p.status == ProposalStatus::Active,
        now > p.voting_ends_at,
    ensures
        tally_outcome(p, c, now) is Ok,
{
    let t = p.total_voting_power as int;
    let q = c.quorum_threshold_bps as int;
    assert(t * q / 10000 <= t) by (nonlinear_arith)
        requires 0 <= q <= 10000, t >= 0;
}

/// When quorum is met and nobody voted no, the proposal is approved
/// (for any approval threshold of at most 100%).
pub proof fn lemma_no_opposition_approves(p: Proposal, c: GovernanceConfig, now: i64)
    requires
        c.approval_threshold_bps <= BASIS_POINTS_MAX,
        p.no_votes == 0,
        tally_outcome(p, c, now) is Ok,
    ensures
        tally_outcome(p, c, now) matches Ok(p2) && p2.status == ProposalStatus::Approved,
{
    let y = p.yes_votes as int;
    let a = c.approval_threshold_bps as int;
    assert(y * a / 10000 <= y) by (nonlinear_arith)
        requires 0 <= a <= 10000, y >= 0;
    assert(tally_approves(p, c));
}

/// A tally changes nothing but the status, which becomes approved or
/// rejected; the proposal can then no longer be voted on or tallied.
pub proof fn lemma_tally_is_final(p: Proposal, c: GovernanceConfig, now: i64, later: i64)
    ensures
        tally_outcome(p, c, now) matches Ok(p2) ==> (p2.status == ProposalStatus::Approved || p2.status
            == ProposalStatus::Rejected) && p2 == (Proposal { status: p2.status, ..p }) && tally_outcome(p2, c, later)
            == Err::<Proposal, GovernanceError>(GovernanceError::ProposalNotFound),
{
}

/// A proposal runs at most once: after a successful execution it is marked
/// executed, and executing it again is refused.
pub proof fn lemma_execute_at_most_once(p: Proposal, now: i64, later: i64)
    ensures
        execute_outcome(p, now) matches Ok((_, p2)) ==> p2.status == ProposalStatus::Executed && p2.executed_at
            == Some(now) && execute_outcome(p2, later) is Err,
{
}

/// Treasury instruction data built from an id and an amount decodes back
/// to them.
pub proof fn lemma_treasury_instruction_roundtrip(discriminator: Seq<u8>, proposal_id: u64, amount: u64)
    requires
        discriminator.len() == 8,
    ensures
        decoded_treasury_instruction(discriminator + le_bytes(proposal_id) + le_bytes(amount)) == Ok::<
            TreasuryInstruction,
            GovernanceError,
        >(TreasuryInstruction::FundProposal { proposal_id, amount }),
{
    lemma_le_roundtrip(proposal_id, Seq::empty());
    lemma_le_roundtrip(amount, Seq::empty());
    let d = discriminator + le_bytes(proposal_id) + le_bytes(amount);
    assert(d.subrange(8, 16) =~= le_bytes(proposal_id));
    assert(d.subrange(16, 24) =~= le_bytes(amount));
}

/// Distinct proposal ids give distinct proposal seeds (hence distinct
/// proposal addresses), and the id can be read back from its seed.
pub proof fn lemma_proposal_seed_identifies(id1: u64, id2: u64)
    ensures
        (le_bytes(id1) == le_bytes(id2)) == (id1 == id2),
        crate::encoding::from_le(le_bytes(id1)) == id1,
{
    lemma_le_roundtrip(id1, Seq::empty());
    lemma_le_roundtrip(id2, Seq::empty());
}

/// The tally rule: once the voting period of an active proposal is over, it
/// is refused for quorum exactly when the total voting power (yes, no and
/// abstain) falls below `quorum_threshold_bps` of itself; otherwise only the
/// status changes, to approved exactly when the yes votes reach
/// `approval_threshold_bps` of the yes and no votes (rounded down), and to
/// rejected otherwise.
pub proof fn lemma_tally_rule(p: Proposal, c: GovernanceConfig, now: i64)
    requires
        p.status == ProposalStatus::Active,
        now > p.voting_ends_at,
    ensures
        match tally_outcome(p, c, now) {
            Err(e) => e == GovernanceError::InsufficientQuorum && p.total_voting_power < p.total_voting_power
                * c.quorum_threshold_bps / 10000,
            Ok(p2) => {
                &&& p.total_voting_power >= p.total_voting_power * c.quorum_threshold_bps / 10000
                &&& p2 == (Proposal {
                    status: if p.yes_votes >= (p.yes_votes + p.no_votes) * c.approval_threshold_bps / 10000 {
                        ProposalStatus::Approved
                    } else {
                        ProposalStatus::Rejected
                    },
                    ..p
                })
            },
        },
{
}

/// The voting-power rule: an accepted vote records the balance stored in the
/// voter's token account (bytes 64 to 72, little-endian), a weight of 100,
/// 125, 150 or 200 for a reputation up to 100, up to 500, up to 1000 or
/// above, and a voting power of the balance times that weight over 100,
/// rounded down; that power goes to the chosen side and to the total. A
/// balance of at least 100 thus gets strictly more power from any
/// reputation above 100 than from none.
pub proof fn lemma_vote_power_rule(
    config: GovernanceConfig,
    p: Proposal,
    voter: Pubkey,
    owner: Pubkey,
    data: Seq<u8>,
    mint: Pubkey,
    proposal_id: u64,
    vote_choice: VoteChoice,
    bump: u8,
    now: i64,
    reputation: u64,
)
    ensures
        cast_vote_outcome(config, p, voter, owner, data, mint, proposal_id, vote_choice, bump, now, reputation)
            matches Ok((p2, v)) ==> {
            let w: int = if reputation <= 100 {
                100
            } else if reputation <= 500 {
                125
            } else if reputation <= 1000 {
                150
            } else {
                200
            };
            &&& v.agro_amount == crate::encoding::from_le(data.subrange(64, 72))
            &&& v.reputation_weight == w
            &&& v.voting_power == v.agro_amount * w / 100
            &&& p2.yes_votes == p.yes_votes + (if vote_choice == VoteChoice::Yes { v.voting_power as int } else { 0 })
            &&& p2.no_votes == p.no_votes + (if vote_choice == VoteChoice::No { v.voting_power as int } else { 0 })
            &&& p2.total_voting_power == p.total_voting_power + v.voting_power
            &&& (v.agro_amount >= 100 && reputation > 100 ==> v.voting_power > v.agro_amount)
        },
{
    if let Ok((p2, v)) = cast_vote_outcome(config, p, voter, owner, data, mint, proposal_id, vote_choice, bump, now, reputation) {
        let a = v.agro_amount as int;
        let w = v.reputation_weight as int;
        assert(a >= 100 && w >= 125 ==> a * w / 100 > a) by (nonlinear_arith);
    }
}

/// Executing an approved research proposal that has not run yet, within its
/// execution window, always succeeds (whatever its instruction data, none
/// included), asks for no call, and marks the proposal executed at `now`.
pub proof fn lemma_research_execution(p: Proposal, now: i64)
    requires
        p.proposal_type == ProposalType::Research,
        p.status == ProposalStatus::Approved,
        p.executed_at is None,
        now <= p.execution_window_end,
    ensures
        execute_outcome(p, now) == Ok::<(ExecutionAction, Proposal), GovernanceError>((
            ExecutionAction::NoCall,
            Proposal { status: ProposalStatus::Executed, executed_at: Some(now), ..p },
        )),
{
}

} // verus!
