//! Core Agro DAO program: the protocol state (authority, counters, funding
//! parameters, pause switch) and the research entry points it guards.

use vstd::prelude::*;
use crate::encoding::utf8_len;
use crate::pubkey::Pubkey;
use crate::research::{
    draft_view, new_profile, Milestone, ProposalCreated, ResearchCategory, ResearchProposal, ResearcherProfile,
    ResearcherProfileCreated, ProposalStatus, MAX_BIO_LENGTH, MAX_DESCRIPTION_LENGTH, MAX_MILESTONES,
    MAX_NAME_LENGTH, MAX_SPECIALIZATION_LENGTH, MAX_TITLE_LENGTH,
};

verus! {

/// Shortest funding window, in days.
pub const MIN_FUNDING_DEADLINE_DAYS: u64 = 7;
/// Longest funding window, in days.
pub const MAX_FUNDING_DEADLINE_DAYS: u64 = 90;
pub const SECONDS_PER_DAY: i64 = 24 * 60 * 60;

/// Errors of the core program.
#[derive(Debug, Clone, Copy, PartialEq, Eq, Structural)]
pub enum ErrorCode {
    ProtocolPaused,
    UnauthorizedResearcher,
    UnauthorizedUpdate,
    SameValueUpdate,
    TitleTooLong,
    DescriptionTooLong,
    InsufficientFundingTarget,
    TooManyMilestones,
    InvalidFundingDeadline,
    NameTooLong,
    BioTooLong,
    SpecializationTooLong,
}

/// Protocol-wide configuration and counters.
#[derive(Debug, Clone, Copy, PartialEq, Eq)]
pub struct ProtocolState {
    pub authority: Pubkey,
    pub proposal_id_counter: u64,
    pub min_funding_threshold: u64,
    pub research_proposal_fee: u64,
    pub ipfs_hash_of_agri_data: [u8; 32],
    pub research_data_counter: u64,
    pub creation_timestamp: i64,
    pub minimum_staked_amount: u64,
    pub protocol_version: u8,
    pub is_paused: bool,
    pub bump: u8,
    pub reserved: [u8; 128],
}

// ---------------------------------------------------------------------------
// initialize_protocol
// ---------------------------------------------------------------------------

/// Accounts of the protocol initialization: the authority.
pub struct InitializeProtocol {
    pub authority: Pubkey,
}

impl InitializeProtocol {
    /// The initial protocol state: the signer as authority, zero counters
    /// and parameters, version 1, not paused.
    pub fn initialize_protocol(&self, bump: u8, now: i64) -> (state: ProtocolState)
        ensures
            state.authority == self.authority,
            state.proposal_id_counter == 0,
            state.min_funding_threshold == 0,
            state.research_proposal_fee == 0,
            state.ipfs_hash_of_agri_data@ == Seq::new(32, |i: int| 0u8),
            state.research_data_counter == 0,
            state.creation_timestamp == now,
            state.minimum_staked_amount == 0,
            state.protocol_version == 1,
            !state.is_paused,
            state.bump == bump,
            state.reserved@ == Seq::new(128, |i: int| 0u8),
    {
        let state = ProtocolState {
            authority: self.authority,
            proposal_id_counter: 0,
            min_funding_threshold: 0,
            research_proposal_fee: 0,
            ipfs_hash_of_agri_data: [0u8; 32],
            research_data_counter: 0,
            creation_timestamp: now,
            minimum_staked_amount: 0,
            protocol_version: 1,
            is_paused: false,
            bump,
            reserved: [0u8; 128],
        };
        assert(state.ipfs_hash_of_agri_data@ =~= Seq::new(32, |i: int| 0u8));
        assert(state.reserved@ =~= Seq::new(128, |i: int| 0u8));
        state
    }
}

// ---------------------------------------------------------------------------
// update_protocol
// ---------------------------------------------------------------------------

/// The parameters an update may change; absent ones stay.
#[derive(Debug, Clone, Copy, PartialEq, Eq, Structural)]
pub struct UpdateProtocolParams {
    pub min_funding_threshold: Option<u64>,
    pub research_proposal_fee: Option<u64>,
    pub minimum_staked_amount: Option<u64>,
    pub is_paused: Option<bool>,
    pub new_authority: Option<Pubkey>,
}

/// Emitted after every successful update.
#[derive(Debug, Clone, Copy, PartialEq, Eq, Structural)]
pub struct ProtocolUpdated {
    pub authority: Pubkey,
    pub version: u8,
    pub timestamp: i64,
}

/// Emitted when the authority changes.
#[derive(Debug, Clone, Copy, PartialEq, Eq, Structural)]
pub struct AuthorityChanged {
    pub old_authority: Pubkey,
    pub new_authority: Pubkey,
    pub timestamp: i64,
}

/// Emitted when the pause switch is set.
#[derive(Debug, Clone, Copy, PartialEq, Eq, Structural)]
pub struct ProtocolPauseChanged {
    pub is_paused: bool,
    pub timestamp: i64,
}

/// Emitted for each numeric parameter set; the values are the parameter's
/// decimal text.
#[derive(Debug, Clone, PartialEq, Eq)]
pub struct ParameterUpdated {
    pub parameter_name: String,
    pub old_value: String,
    pub new_value: String,
    pub authority: Pubkey,
    pub timestamp: i64,
}

/// The events of one successful update, in the order they are emitted:
/// the parameter updates, then the pause change, the authority change and
/// the general update.
#[derive(Debug, Clone, PartialEq, Eq)]
pub struct ProtocolUpdateEvents {
    pub parameters: Vec<ParameterUpdated>,
    pub pause_changed: Option<ProtocolPauseChanged>,
    pub authority_changed: Option<AuthorityChanged>,
    pub updated: ProtocolUpdated,
}

/// Whether an optional new value is absent or differs from `current`.
pub open spec fn changes(new: Option<u64>, current: u64) -> bool {
    match new {
        Some(v) => v != current,
        None => true,
    }
}

/// `v + 1` held at 255.
pub open spec fn next_version(v: u8) -> u8 {
    if v == u8::MAX { u8::MAX } else { (v + 1) as u8 }
}

/// The first rule an update breaks, if any.
pub open spec fn update_error(s: ProtocolState, authority: Pubkey, params: UpdateProtocolParams) -> Option<ErrorCode> {
    if s.authority != authority {
        Some(ErrorCode::UnauthorizedUpdate)
    } else if s.is_paused && params.is_paused != Some(false) {
        Some(ErrorCode::ProtocolPaused)
    } else if !changes(params.min_funding_threshold, s.min_funding_threshold) || !changes(
        params.research_proposal_fee,
        s.research_proposal_fee,
    ) || !changes(params.minimum_staked_amount, s.minimum_staked_amount) {
        Some(ErrorCode::SameValueUpdate)
    } else {
        None
    }
}

/// The state after a successful update.
pub open spec fn updated_state(s: ProtocolState, params: UpdateProtocolParams) -> ProtocolState {
    ProtocolState {
        min_funding_threshold: crate::encoding::opt_or(params.min_funding_threshold, s.min_funding_threshold),
        research_proposal_fee: crate::encoding::opt_or(params.research_proposal_fee, s.research_proposal_fee),
        minimum_staked_amount: crate::encoding::opt_or(params.minimum_staked_amount, s.minimum_staked_amount),
        is_paused: crate::encoding::opt_or(params.is_paused, s.is_paused),
        authority: crate::encoding::opt_or(params.new_authority, s.authority),
        protocol_version: next_version(s.protocol_version),
        ..s
    }
}

/// Number of numeric parameters an update sets.
pub open spec fn numeric_updates(params: UpdateProtocolParams) -> nat {
    (if params.min_funding_threshold is Some { 1nat } else { 0nat }) + (if params.research_proposal_fee is Some {
        1nat
    } else {
        0nat
    }) + (if params.minimum_staked_amount is Some { 1nat } else { 0nat })
}

/// Names of the numeric parameters an update sets, in emission order.
pub open spec fn updated_names(params: UpdateProtocolParams) -> Seq<Seq<char>> {
    (if params.min_funding_threshold is Some { seq!["min_funding_threshold"@] } else { Seq::empty() })
        + (if params.research_proposal_fee is Some { seq!["research_proposal_fee"@] } else { Seq::empty() })
        + (if params.minimum_staked_amount is Some { seq!["minimum_staked_amount"@] } else { Seq::empty() })
}

/// Values of the numeric parameters an update sets, in emission order.
pub open spec fn updated_values(params: UpdateProtocolParams) -> Seq<u64> {
    (if let Some(v) = params.min_funding_threshold { seq![v] } else { Seq::empty() })
        + (if let Some(v) = params.research_proposal_fee { seq![v] } else { Seq::empty() })
        + (if let Some(v) = params.minimum_staked_amount { seq![v] } else { Seq::empty() })
}

/// Accounts of an update: the protocol state and the signer.
pub struct UpdateProtocol {
    pub protocol_state: ProtocolState,
    pub authority: Pubkey,
}

/// Appends the event of a numeric parameter set to `events`.
fn push_parameter_event(events: &mut Vec<ParameterUpdated>, name: &str, value: u64, authority: Pubkey, now: i64)
    ensures
        final(events)@.len() == old(events)@.len() + 1,
        final(events)@.subrange(0, old(events)@.len() as int) == old(events)@,
        final(events)@.last().parameter_name@ == name@,
        final(events)@.last().old_value == final(events)@.last().new_value,
        vstd::string::to_string_from_display_ensures::<u64>(&value, final(events)@.last().new_value),
        final(events)@.last().authority == authority,
        final(events)@.last().timestamp == now,
{
    let text = value.to_string();
    events.push(ParameterUpdated {
        parameter_name: name.to_owned(),
        old_value: text.clone(),
        new_value: text,
        authority,
        timestamp: now,
    });
    assert(events@.subrange(0, old(events)@.len() as int) =~= old(events)@);
}

impl UpdateProtocol {
    /// The authority sets the given parameters. While paused, only an
    /// update that unpauses is accepted; a numeric parameter may not be set
    /// to its current value. Every accepted update raises the version
    /// (saturating). Leaves the state unchanged when it refuses.
    pub fn update_protocol(&mut self, params: UpdateProtocolParams, now: i64) -> (res: Result<ProtocolUpdateEvents, ErrorCode>)
        ensures
            final(self).authority == old(self).authority,
            match update_error(old(self).protocol_state, old(self).authority, params) {
                Some(e) => res == Err::<ProtocolUpdateEvents, ErrorCode>(e) && final(self).protocol_state == old(self).protocol_state,
                None => {
                    let s2 = updated_state(old(self).protocol_state, params);
                    &&& final(self).protocol_state == s2
                    &&& res matches Ok(ev)
                    &&& ev.parameters@.len() == numeric_updates(params)
                    &&& ev.parameters@.len() == updated_names(params).len()
                    &&& forall|i: int| 0 <= i < ev.parameters@.len() ==> (#[trigger] ev.parameters@[i]).parameter_name@
                        == updated_names(params)[i]
                    &&& forall|i: int| 0 <= i < ev.parameters@.len() ==> (#[trigger] ev.parameters@[i]).authority
                        == old(self).authority && ev.parameters@[i].timestamp == now
                    &&& forall|i: int| 0 <= i < ev.parameters@.len() ==> (#[trigger] ev.parameters@[i]).old_value
                        == ev.parameters@[i].new_value && vstd::string::to_string_from_display_ensures::<u64>(
                        &updated_values(params)[i],
                        ev.parameters@[i].new_value,
                    )
                    &&& ev.pause_changed == (match params.is_paused {
                        Some(p) => Some(ProtocolPauseChanged { is_paused: p, timestamp: now }),
                        None => None,
                    })
                    &&& ev.authority_changed == (match params.new_authority {
                        Some(a) => Some(AuthorityChanged {
                            old_authority: old(self).protocol_state.authority,
                            new_authority: a,
                            timestamp: now,
                        }),
                        None => None,
                    })
                    &&& ev.updated == (ProtocolUpdated {
                        authority: old(self).authority,
                        version: s2.protocol_version,
                        timestamp: now,
                    })
                },
            },
    {
        if self.protocol_state.authority != self.authority {
            return Err(ErrorCode::UnauthorizedUpdate);
        }
        if self.protocol_state.is_paused && params.is_paused != Some(false) {
            return Err(ErrorCode::ProtocolPaused);
        }
        if let Some(new_threshold) = params.min_funding_threshold {
            if new_threshold == self.protocol_state.min_funding_threshold {
                return Err(ErrorCode::SameValueUpdate);
            }
        }
        if let Some(new_fee) = params.research_proposal_fee {
            if new_fee == self.protocol_state.research_proposal_fee {
                return Err(ErrorCode::SameValueUpdate);
            }
        }
        if let Some(new_stake_amount) = params.minimum_staked_amount {
            if new_stake_amount == self.protocol_state.minimum_staked_amount {
                return Err(ErrorCode::SameValueUpdate);
            }
        }
        let current_version = self.protocol_state.protocol_version;
        let mut parameters: Vec<ParameterUpdated> = Vec::new();
        let ghost names: Seq<Seq<char>> = Seq::empty();
        let ghost values: Seq<u64> = Seq::empty();
        if let Some(threshold) = params.min_funding_threshold {
            self.protocol_state.min_funding_threshold = threshold;
            push_parameter_event(&mut parameters, "min_funding_threshold", threshold, self.authority, now);
            proof {
                names = names.push("min_funding_threshold"@);
                values = values.push(threshold);
            }
        }
        assert(forall|i: int| 0 <= i < parameters@.len() ==> (#[trigger] parameters@[i]).parameter_name@ == names[i]
            && parameters@[i].authority == self.authority && parameters@[i].timestamp == now
            && parameters@[i].old_value == parameters@[i].new_value
            && vstd::string::to_string_from_display_ensures::<u64>(&values[i], parameters@[i].new_value));
        if let Some(fee) = params.research_proposal_fee {
            self.protocol_state.research_proposal_fee = fee;
            let ghost before = parameters@;
            push_parameter_event(&mut parameters, "research_proposal_fee", fee, self.authority, now);
            proof {
                names = names.push("research_proposal_fee"@);
                values = values.push(fee);
                assert forall|i: int| 0 <= i < before.len() implies parameters@[i] == before[i] by {
                    assert(parameters@.subrange(0, before.len() as int)[i] == parameters@[i]);
                }
            }
        }
        assert(forall|i: int| 0 <= i < parameters@.len() ==> (#[trigger] parameters@[i]).parameter_name@ == names[i]
            && parameters@[i].authority == self.authority && parameters@[i].timestamp == now
            && parameters@[i].old_value == parameters@[i].new_value
            && vstd::string::to_string_from_display_ensures::<u64>(&values[i], parameters@[i].new_value));
        if let Some(stake_amount) = params.minimum_staked_amount {
            self.protocol_state.minimum_staked_amount = stake_amount;
            let ghost before = parameters@;
            push_parameter_event(&mut parameters, "minimum_staked_amount", stake_amount, self.authority, now);
            proof {
                names = names.push("minimum_staked_amount"@);
                values = values.push(stake_amount);
                assert forall|i: int| 0 <= i < before.len() implies parameters@[i] == before[i] by {
                    assert(parameters@.subrange(0, before.len() as int)[i] == parameters@[i]);
                }
            }
        }
        assert(names =~= updated_names(params));
        assert(values =~= updated_values(params));
        let mut pause_changed: Option<ProtocolPauseChanged> = None;
        if let Some(paused) = params.is_paused {
            self.protocol_state.is_paused = paused;
            pause_changed = Some(ProtocolPauseChanged { is_paused: paused, timestamp: now });
        }
        let mut authority_changed: Option<AuthorityChanged> = None;
        if let Some(new_authority) = params.new_authority {
            let old_authority = self.protocol_state.authority;
            self.protocol_state.authority = new_authority;
            authority_changed = Some(AuthorityChanged { old_authority, new_authority, timestamp: now });
        }
        self.protocol_state.protocol_version = current_version.saturating_add(1);
        Ok(ProtocolUpdateEvents {
            parameters,
            pause_changed,
            authority_changed,
            updated: ProtocolUpdated {
                authority: self.authority,
                version: self.protocol_state.protocol_version,
                timestamp: now,
            },
        })
    }
}


// ---------------------------------------------------------------------------
// create_researcher_profile
// ---------------------------------------------------------------------------

/// The first rule a profile creation breaks, if any.
pub open spec fn protocol_profile_error(s: ProtocolState, name: Seq<char>, bio: Seq<char>, specialization: Seq<char>) -> Option<ErrorCode> {
    if s.is_paused {
        Some(ErrorCode::ProtocolPaused)
    } else if utf8_len(name) > MAX_NAME_LENGTH {
        Some(ErrorCode::NameTooLong)
    } else if utf8_len(bio) > MAX_BIO_LENGTH {
        Some(ErrorCode::BioTooLong)
    } else if utf8_len(specialization) > MAX_SPECIALIZATION_LENGTH {
        Some(ErrorCode::SpecializationTooLong)
    } else {
        None
    }
}

/// Accounts of a profile creation through the core program: the protocol
/// state and the researcher.
pub struct CreateResearcherProfile {
    pub protocol_state: ProtocolState,
    pub researcher: Pubkey,
}

impl CreateResearcherProfile {
    /// Creates the researcher's unverified profile while the protocol is
    /// not paused.
    pub fn create_researcher_profile(
        &self,
        name: String,
        bio: String,
        specialization: String,
        bump: u8,
        now: i64,
    ) -> (res: Result<(ResearcherProfile, ResearcherProfileCreated), ErrorCode>)
        ensures
            match protocol_profile_error(self.protocol_state, name@, bio@, specialization@) {
                Some(e) => res == Err::<(ResearcherProfile, ResearcherProfileCreated), ErrorCode>(e),
                None => res == Ok::<(ResearcherProfile, ResearcherProfileCreated), ErrorCode>((
                    new_profile(self.researcher, name, bio, specialization, now, bump),
                    ResearcherProfileCreated { researcher: self.researcher, timestamp: now },
                )),
            },
    {
        if self.protocol_state.is_paused {
            return Err(ErrorCode::ProtocolPaused);
        }
        match crate::research::checked_new_profile(self.researcher, name, bio, specialization, bump, now) {
            Ok(created) => Ok(created),
            Err(crate::research::ErrorCode::NameTooLong) => Err(ErrorCode::NameTooLong),
            Err(crate::research::ErrorCode::BioTooLong) => Err(ErrorCode::BioTooLong),
            Err(_) => Err(ErrorCode::SpecializationTooLong),
        }
    }
}

// ---------------------------------------------------------------------------
// create_proposal
// ---------------------------------------------------------------------------

/// The first rule a proposal creation through the core program breaks, if
/// any.
pub open spec fn protocol_proposal_error(
    s: ProtocolState,
    profile_owner: Pubkey,
    researcher: Pubkey,
    title: Seq<char>,
    description: Seq<char>,
    funding_target: u64,
    funding_deadline_days: u64,
    milestone_count: nat,
) -> Option<ErrorCode> {
    if s.is_paused {
        Some(ErrorCode::ProtocolPaused)
    } else if profile_owner != researcher {
        Some(ErrorCode::UnauthorizedResearcher)
    } else if utf8_len(title) > MAX_TITLE_LENGTH {
        Some(ErrorCode::TitleTooLong)
    } else if utf8_len(description) > MAX_DESCRIPTION_LENGTH {
        Some(ErrorCode::DescriptionTooLong)
    } else if funding_target < s.min_funding_threshold {
        Some(ErrorCode::InsufficientFundingTarget)
    } else if milestone_count > MAX_MILESTONES {
        Some(ErrorCode::TooManyMilestones)
    } else if !(MIN_FUNDING_DEADLINE_DAYS <= funding_deadline_days <= MAX_FUNDING_DEADLINE_DAYS) {
        Some(ErrorCode::InvalidFundingDeadline)
    } else {
        None
    }
}

/// Accounts of a proposal creation through the core program: the protocol
/// state, the researcher's profile and the researcher.
pub struct CreateProposal {
    pub protocol_state: ProtocolState,
    pub researcher_profile: ResearcherProfile,
    pub researcher: Pubkey,
}

impl CreateProposal {
    /// Creates a draft proposal numbered by the protocol's proposal counter,
    /// funded for `funding_deadline_days` days (7 to 90) and asking at
    /// least the protocol's minimum; the counter and the researcher's
    /// proposal count go up by one. Leaves the accounts unchanged when it
    /// refuses.
    pub fn create_proposal(
        &mut self,
        title: String,
        description: String,
        category: ResearchCategory,
        funding_target: u64,
        funding_deadline_days: u64,
        milestones: Vec<Milestone>,
        ipfs_hash: [u8; 32],
        bump: u8,
        now: i64,
    ) -> (res: Result<(ResearchProposal, ProposalCreated), ErrorCode>)
        requires
            protocol_proposal_error(
                old(self).protocol_state,
                old(self).researcher_profile.researcher,
                old(self).researcher,
                title@,
                description@,
                funding_target,
                funding_deadline_days,
                milestones@.len(),
            ) is None ==> {
                &&& now + funding_deadline_days * SECONDS_PER_DAY <= i64::MAX
                &&& old(self).protocol_state.proposal_id_counter < u64::MAX
                &&& old(self).researcher_profile.total_proposals < u32::MAX
            },
        ensures
            final(self).researcher == old(self).researcher,
            match protocol_proposal_error(
                old(self).protocol_state,
                old(self).researcher_profile.researcher,
                old(self).researcher,
                title@,
                description@,
                funding_target,
                funding_deadline_days,
                milestones@.len(),
            ) {
                Some(e) => res == Err::<(ResearchProposal, ProposalCreated), ErrorCode>(e)
                    && final(self).protocol_state == old(self).protocol_state
                    && final(self).researcher_profile == old(self).researcher_profile,
                None => {
                    let id = old(self).protocol_state.proposal_id_counter;
                    let deadline = (now + funding_deadline_days * SECONDS_PER_DAY) as i64;
                    &&& final(self).protocol_state == (ProtocolState {
                        proposal_id_counter: (id + 1) as u64,
                        ..old(self).protocol_state
                    })
                    &&& final(self).researcher_profile == (ResearcherProfile {
                        total_proposals: (old(self).researcher_profile.total_proposals + 1) as u32,
                        ..old(self).researcher_profile
                    })
                    &&& res matches Ok((p, ev))
                    &&& p@ == draft_view(id, old(self).researcher, title@, description@, category, funding_target,
                        milestones@, now, deadline, ipfs_hash@, bump)
                    &&& ev == (ProposalCreated { proposal_id: id, researcher: old(self).researcher, funding_target, timestamp: now })
                },
            },
    {
        if self.protocol_state.is_paused {
            return Err(ErrorCode::ProtocolPaused);
        }
        if self.researcher_profile.researcher != self.researcher {
            return Err(ErrorCode::UnauthorizedResearcher);
        }
        if title.as_str().len() > MAX_TITLE_LENGTH {
            return Err(ErrorCode::TitleTooLong);
        }
        if description.as_str().len() > MAX_DESCRIPTION_LENGTH {
            return Err(ErrorCode::DescriptionTooLong);
        }
        if funding_target < self.protocol_state.min_funding_threshold {
            return Err(ErrorCode::InsufficientFundingTarget);
        }
        if milestones.len() > MAX_MILESTONES {
            return Err(ErrorCode::TooManyMilestones);
        }
        if !(funding_deadline_days >= MIN_FUNDING_DEADLINE_DAYS && funding_deadline_days <= MAX_FUNDING_DEADLINE_DAYS) {
            return Err(ErrorCode::InvalidFundingDeadline);
        }
        assert(protocol_proposal_error(
            self.protocol_state,
            self.researcher_profile.researcher,
            self.researcher,
            title@,
            description@,
            funding_target,
            funding_deadline_days,
            milestones@.len(),
        ) is None);
        assert(now + funding_deadline_days * SECONDS_PER_DAY <= i64::MAX);
        assert(SECONDS_PER_DAY == 86400);
        let funding_deadline = now + (funding_deadline_days as i64) * SECONDS_PER_DAY;
        let id = self.protocol_state.proposal_id_counter;
        let proposal = ResearchProposal {
            id,
            researcher: self.researcher,
            title,
            description,
            category,
            funding_target,
            current_funding: 0,
            status: ProposalStatus::Draft,
            milestones,
            creation_timestamp: now,
            funding_deadline,
            ipfs_hash,
            findings_ipfs_hash: None,
            bump,
        };
        self.protocol_state.proposal_id_counter = id + 1;
        self.researcher_profile.total_proposals = self.researcher_profile.total_proposals + 1;
        let event = ProposalCreated { proposal_id: id, researcher: self.researcher, funding_target, timestamp: now };
        Ok((proposal, event))
    }
}

} // verus!
