//! Research program: researcher profiles, research proposals with
//! milestones, and their progress from draft to published findings.

use vstd::prelude::*;
use crate::encoding::utf8_len;
use crate::pubkey::Pubkey;

verus! {

pub const MAX_NAME_LENGTH: usize = 50;
pub const MAX_BIO_LENGTH: usize = 200;
pub const MAX_SPECIALIZATION_LENGTH: usize = 100;
pub const MAX_TITLE_LENGTH: usize = 100;
pub const MAX_DESCRIPTION_LENGTH: usize = 500;
pub const MAX_MILESTONES: usize = 10;
/// Reputation a researcher needs to seek a large funding target.
pub const MIN_REPUTATION_FOR_FUNDING: u64 = 100;
/// Lamports in one SOL.
pub const LAMPORTS_PER_SOL: u64 = 1_000_000_000;
/// Funding targets above this need `MIN_REPUTATION_FOR_FUNDING`.
pub const LARGE_FUNDING_TARGET: u64 = 10 * LAMPORTS_PER_SOL;
/// Reputation awarded for verification.
pub const VERIFICATION_BONUS: u64 = 100;
/// Reputation awarded per published milestone.
pub const MILESTONE_BONUS: u64 = 5;
/// Reputation awarded when the last milestone completes.
pub const COMPLETION_BONUS: u64 = 20;
/// Reputation awarded for publishing findings.
pub const FINDINGS_BONUS: u64 = 50;

/// Errors of the research program.
#[derive(Debug, Clone, Copy, PartialEq, Eq, Structural)]
pub enum ErrorCode {
    CustomError,
    NameTooLong,
    BioTooLong,
    SpecializationTooLong,
    UnauthorizedResearcher,
    TitleTooLong,
    DescriptionTooLong,
    InsufficientFundingTarget,
    TooManyMilestones,
    InvalidFundingDeadline,
    InvalidProposalStatus,
    FundingDeadlineExpired,
    InsufficientReputation,
    InvalidMilestoneIndex,
    MilestoneAlreadyCompleted,
    FindingsAlreadyPublished,
    AlreadyVerified,
    ProposalNotEligibleForFunding,
    ResearcherNotVerifiedForFunding,
    InvalidProposalForFunding,
    ExcessiveFunding,
    FundingDeadlinePassed,
}

/// A researcher's profile.
#[derive(Debug, Clone, PartialEq, Eq)]
pub struct ResearcherProfile {
    pub researcher: Pubkey,
    pub name: String,
    pub bio: String,
    pub specialization: String,
    pub reputation_score: u64,
    pub total_proposals: u32,
    pub completed_projects: u32,
    pub total_funding_received: u64,
    pub creation_timestamp: i64,
    pub is_verified: bool,
    pub bump: u8,
}

/// One milestone of a research proposal.
#[derive(Debug, Clone, PartialEq, Eq)]
pub struct Milestone {
    pub description: String,
    pub target_date: i64,
    pub completion_date: Option<i64>,
    pub is_completed: bool,
    pub ipfs_evidence_hash: Option<[u8; 32]>,
}

/// Field of a research proposal.
#[derive(Debug, Clone, Copy, PartialEq, Eq, Structural)]
pub enum ResearchCategory {
    CropImprovement,
    SustainableFarming,
    PestControl,
    SoilHealth,
    ClimateAdaptation,
    WaterManagement,
}

/// Where a research proposal is in its life.
#[derive(Debug, Clone, Copy, PartialEq, Eq, Structural)]
pub enum ProposalStatus {
    Draft,
    SubmittedForFunding,
    FundingActive,
    Funded,
    InProgress,
    Completed,
    Cancelled,
}

/// A research proposal.
#[derive(Debug, Clone, PartialEq, Eq)]
pub struct ResearchProposal {
    pub id: u64,
    pub researcher: Pubkey,
    pub title: String,
    pub description: String,
    pub category: ResearchCategory,
    pub funding_target: u64,
    pub current_funding: u64,
    pub status: ProposalStatus,
    pub milestones: Vec<Milestone>,
    pub creation_timestamp: i64,
    pub funding_deadline: i64,
    pub ipfs_hash: [u8; 32],
    pub findings_ipfs_hash: Option<[u8; 32]>,
    pub bump: u8,
}

/// A research proposal with its milestones as a sequence.
pub struct ResearchProposalView {
    pub id: u64,
    pub researcher: Pubkey,
    pub title: Seq<char>,
    pub description: Seq<char>,
    pub category: ResearchCategory,
    pub funding_target: u64,
    pub current_funding: u64,
    pub status: ProposalStatus,
    pub milestones: Seq<Milestone>,
    pub creation_timestamp: i64,
    pub funding_deadline: i64,
    pub ipfs_hash: Seq<u8>,
    pub findings_ipfs_hash: Option<[u8; 32]>,
    pub bump: u8,
}

impl View for ResearchProposal {
    type V = ResearchProposalView;

    open spec fn view(&self) -> ResearchProposalView {
        ResearchProposalView {
            id: self.id,
            researcher: self.researcher,
            title: self.title@,
            description: self.description@,
            category: self.category,
            funding_target: self.funding_target,
            current_funding: self.current_funding,
            status: self.status,
            milestones: self.milestones@,
            creation_timestamp: self.creation_timestamp,
            funding_deadline: self.funding_deadline,
            ipfs_hash: self.ipfs_hash@,
            findings_ipfs_hash: self.findings_ipfs_hash,
            bump: self.bump,
        }
    }
}

/// `a + b`, held at `u64::MAX`.
pub open spec fn sat_add(a: u64, b: u64) -> u64 {
    if a + b > u64::MAX { u64::MAX } else { (a + b) as u64 }
}

/// Every milestone is completed.
pub open spec fn all_completed(ms: Seq<Milestone>) -> bool {
    forall|i: int| 0 <= i < ms.len() ==> #[trigger] ms[i].is_completed
}

/// Whether every milestone of `ms` is completed.
fn all_milestones_completed(ms: &Vec<Milestone>) -> (b: bool)
    ensures
        b == all_completed(ms@),
{
    let mut i: usize = 0;
    while i < ms.len()
        invariant
            i <= ms@.len(),
            forall|j: int| 0 <= j < i ==> #[trigger] ms@[j].is_completed,
        decreases ms@.len() - i,
    {
        if !ms[i].is_completed {
            return false;
        }
        i = i + 1;
    }
    true
}

// ---------------------------------------------------------------------------
// create_researcher_profile
// ---------------------------------------------------------------------------

/// Emitted when a profile is created.
#[derive(Debug, Clone, Copy, PartialEq, Eq, Structural)]
pub struct ResearcherProfileCreated {
    pub researcher: Pubkey,
    pub timestamp: i64,
}

/// The first rule a profile creation breaks, if any.
pub open spec fn profile_error(name: Seq<char>, bio: Seq<char>, specialization: Seq<char>) -> Option<ErrorCode> {
    if utf8_len(name) > MAX_NAME_LENGTH {
        Some(ErrorCode::NameTooLong)
    } else if utf8_len(bio) > MAX_BIO_LENGTH {
        Some(ErrorCode::BioTooLong)
    } else if utf8_len(specialization) > MAX_SPECIALIZATION_LENGTH {
        Some(ErrorCode::SpecializationTooLong)
    } else {
        None
    }
}

/// A fresh, unverified profile.
pub open spec fn new_profile(researcher: Pubkey, name: String, bio: String, specialization: String, now: i64, bump: u8) -> ResearcherProfile {
    ResearcherProfile {
        researcher,
        name,
        bio,
        specialization,
        reputation_score: 0,
        total_proposals: 0,
        completed_projects: 0,
        total_funding_received: 0,
        creation_timestamp: now,
        is_verified: false,
        bump,
    }
}

/// Builds a fresh profile after checking the lengths of its texts.
pub fn checked_new_profile(
    researcher: Pubkey,
    name: String,
    bio: String,
    specialization: String,
    bump: u8,
    now: i64,
) -> (res: Result<(ResearcherProfile, ResearcherProfileCreated), ErrorCode>)
    ensures
        match profile_error(name@, bio@, specialization@) {
            Some(e) => res == Err::<(ResearcherProfile, ResearcherProfileCreated), ErrorCode>(e),
            None => res == Ok::<(ResearcherProfile, ResearcherProfileCreated), ErrorCode>((
                new_profile(researcher, name, bio, specialization, now, bump),
                ResearcherProfileCreated { researcher, timestamp: now },
            )),
        },
{
    if name.as_str().len() > MAX_NAME_LENGTH {
        return Err(ErrorCode::NameTooLong);
    }
    if bio.as_str().len() > MAX_BIO_LENGTH {
        return Err(ErrorCode::BioTooLong);
    }
    if specialization.as_str().len() > MAX_SPECIALIZATION_LENGTH {
        return Err(ErrorCode::SpecializationTooLong);
    }
    Ok((
        ResearcherProfile {
            researcher,
            name,
            bio,
            specialization,
            reputation_score: 0,
            total_proposals: 0,
            completed_projects: 0,
            total_funding_received: 0,
            creation_timestamp: now,
            is_verified: false,
            bump,
        },
        ResearcherProfileCreated { researcher, timestamp: now },
    ))
}

/// Accounts of a profile creation: the researcher.
pub struct CreateResearcherProfile {
    pub researcher: Pubkey,
}

impl CreateResearcherProfile {
    /// Creates the researcher's unverified profile with no reputation.
    pub fn create_researcher_profile(
        &self,
        name: String,
        bio: String,
        specialization: String,
        bump: u8,
        now: i64,
    ) -> (res: Result<(ResearcherProfile, ResearcherProfileCreated), ErrorCode>)
        ensures
            match profile_error(name@, bio@, specialization@) {
                Some(e) => res == Err::<(ResearcherProfile, ResearcherProfileCreated), ErrorCode>(e),
                None => res == Ok::<(ResearcherProfile, ResearcherProfileCreated), ErrorCode>((
                    new_profile(self.researcher, name, bio, specialization, now, bump),
                    ResearcherProfileCreated { researcher: self.researcher, timestamp: now },
                )),
            },
    {
        checked_new_profile(self.researcher, name, bio, specialization, bump, now)
    }
}

// ---------------------------------------------------------------------------
// verify_researcher
// ---------------------------------------------------------------------------

/// Emitted when a researcher is verified.
#[derive(Debug, Clone, Copy, PartialEq, Eq, Structural)]
pub struct ResearcherVerified {
    pub researcher: Pubkey,
    pub authority: Pubkey,
    pub timestamp: i64,
}

/// Accounts of a verification: the profile and the signer.
pub struct VerifyResearcher {
    pub researcher_profile: ResearcherProfile,
    pub authority: Pubkey,
}

impl VerifyResearcher {
    /// Marks an unverified researcher verified and awards the verification
    /// bonus (saturating). Leaves the profile unchanged when it refuses.
    pub fn verify_researcher(&mut self, now: i64) -> (res: Result<ResearcherVerified, ErrorCode>)
        ensures
            final(self).authority == old(self).authority,
            old(self).researcher_profile.is_verified ==> res == Err::<ResearcherVerified, ErrorCode>(ErrorCode::AlreadyVerified)
                && final(self).researcher_profile == old(self).researcher_profile,
            !old(self).researcher_profile.is_verified ==> final(self).researcher_profile == (ResearcherProfile {
                is_verified: true,
                reputation_score: sat_add(old(self).researcher_profile.reputation_score, VERIFICATION_BONUS),
                ..old(self).researcher_profile
            }) && res == Ok::<ResearcherVerified, ErrorCode>(ResearcherVerified {
                researcher: old(self).researcher_profile.researcher,
                authority: old(self).authority,
                timestamp: now,
            }),
    {
        if self.researcher_profile.is_verified {
            return Err(ErrorCode::AlreadyVerified);
        }
        self.researcher_profile.is_verified = true;
        self.researcher_profile.reputation_score = self.researcher_profile.reputation_score.saturating_add(VERIFICATION_BONUS);
        Ok(ResearcherVerified {
            researcher: self.researcher_profile.researcher,
            authority: self.authority,
            timestamp: now,
        })
    }
}


// ---------------------------------------------------------------------------
// create_proposal
// ---------------------------------------------------------------------------

/// Emitted when a research proposal is created.
#[derive(Debug, Clone, Copy, PartialEq, Eq, Structural)]
pub struct ProposalCreated {
    pub proposal_id: u64,
    pub researcher: Pubkey,
    pub funding_target: u64,
    pub timestamp: i64,
}

/// The first rule a research proposal creation breaks, if any.
pub open spec fn research_proposal_error(
    profile_owner: Pubkey,
    researcher: Pubkey,
    title: Seq<char>,
    description: Seq<char>,
    funding_target: u64,
    funding_deadline: i64,
    milestone_count: nat,
    now: i64,
) -> Option<ErrorCode> {
    if profile_owner != researcher {
        Some(ErrorCode::UnauthorizedResearcher)
    } else if utf8_len(title) > MAX_TITLE_LENGTH {
        Some(ErrorCode::TitleTooLong)
    } else if utf8_len(description) > MAX_DESCRIPTION_LENGTH {
        Some(ErrorCode::DescriptionTooLong)
    } else if funding_target == 0 {
        Some(ErrorCode::InsufficientFundingTarget)
    } else if milestone_count > MAX_MILESTONES {
        Some(ErrorCode::TooManyMilestones)
    } else if funding_deadline <= now {
        Some(ErrorCode::InvalidFundingDeadline)
    } else {
        None
    }
}

/// A draft proposal as created.
pub open spec fn draft_view(
    id: u64,
    researcher: Pubkey,
    title: Seq<char>,
    description: Seq<char>,
    category: ResearchCategory,
    funding_target: u64,
    milestones: Seq<Milestone>,
    now: i64,
    funding_deadline: i64,
    ipfs_hash: Seq<u8>,
    bump: u8,
) -> ResearchProposalView {
    ResearchProposalView {
        id,
        researcher,
        title,
        description,
        category,
        funding_target,
        current_funding: 0,
        status: ProposalStatus::Draft,
        milestones,
        creation_timestamp: now,
        funding_deadline,
        ipfs_hash,
        findings_ipfs_hash: None,
        bump,
    }
}

/// Accounts of a research proposal creation: the researcher's profile and
/// the researcher.
pub struct CreateProposal {
    pub researcher_profile: ResearcherProfile,
    pub researcher: Pubkey,
}

impl CreateProposal {
    /// Creates a draft proposal numbered by the researcher's proposal count,
    /// which it then increments. Leaves the profile unchanged when it refuses.
    pub fn create_proposal(
        &mut self,
        title: String,
        description: String,
        category: ResearchCategory,
        funding_target: u64,
        funding_deadline: i64,
        milestones: Vec<Milestone>,
        ipfs_hash: [u8; 32],
        bump: u8,
        now: i64,
    ) -> (res: Result<(ResearchProposal, ProposalCreated), ErrorCode>)
        requires
            research_proposal_error(
                old(self).researcher_profile.researcher,
                old(self).researcher,
                title@,
                description@,
                funding_target,
                funding_deadline,
                milestones@.len(),
                now,
            ) is None ==> old(self).researcher_profile.total_proposals < u32::MAX,
        ensures
            final(self).researcher == old(self).researcher,
            match research_proposal_error(
                old(self).researcher_profile.researcher,
                old(self).researcher,
                title@,
                description@,
                funding_target,
                funding_deadline,
                milestones@.len(),
                now,
            ) {
                Some(e) => res == Err::<(ResearchProposal, ProposalCreated), ErrorCode>(e)
                    && final(self).researcher_profile == old(self).researcher_profile,
                None => {
                    let id = old(self).researcher_profile.total_proposals as u64;
                    &&& final(self).researcher_profile == (ResearcherProfile {
                        total_proposals: (old(self).researcher_profile.total_proposals + 1) as u32,
                        ..old(self).researcher_profile
                    })
                    &&& res matches Ok((p, ev))
                    &&& p@ == draft_view(id, old(self).researcher, title@, description@, category, funding_target,
                        milestones@, now, funding_deadline, ipfs_hash@, bump)
                    &&& ev == (ProposalCreated { proposal_id: id, researcher: old(self).researcher, funding_target, timestamp: now })
                },
            },
    {
        if self.researcher_profile.researcher != self.researcher {
            return Err(ErrorCode::UnauthorizedResearcher);
        }
        if title.as_str().len() > MAX_TITLE_LENGTH {
            return Err(ErrorCode::TitleTooLong);
        }
        if description.as_str().len() > MAX_DESCRIPTION_LENGTH {
            return Err(ErrorCode::DescriptionTooLong);
        }
        if funding_target == 0 {
            return Err(ErrorCode::InsufficientFundingTarget);
        }
        if milestones.len() > MAX_MILESTONES {
            return Err(ErrorCode::TooManyMilestones);
        }
        if funding_deadline <= now {
            return Err(ErrorCode::InvalidFundingDeadline);
        }
        let id = self.researcher_profile.total_proposals as u64;
        let proposal = ResearchProposal {
            id,
            researcher: self.researcher,
            title,
            description,
            category,
            funding_target,
            current_funding: 0,
            status: ProposalStatus::Draft,
            milestones,
            creation_timestamp: now,
            funding_deadline,
            ipfs_hash,
            findings_ipfs_hash: None,
            bump,
        };
        self.researcher_profile.total_proposals = self.researcher_profile.total_proposals + 1;
        let event = ProposalCreated { proposal_id: id, researcher: self.researcher, funding_target, timestamp: now };
        Ok((proposal, event))
    }
}

// ---------------------------------------------------------------------------
// submit_proposal_for_funding
// ---------------------------------------------------------------------------

/// Emitted when a proposal is submitted for funding.
#[derive(Debug, Clone, Copy, PartialEq, Eq, Structural)]
pub struct ProposalSubmittedForFunding {
    pub proposal_id: u64,
    pub researcher: Pubkey,
    pub funding_target: u64,
    pub deadline: i64,
    pub timestamp: i64,
}

/// The first rule a submission for funding breaks, if any.
pub open spec fn submission_error(p: ResearchProposal, profile: ResearcherProfile, researcher: Pubkey, now: i64) -> Option<ErrorCode> {
    if p.researcher != researcher {
        Some(ErrorCode::UnauthorizedResearcher)
    } else if p.status != ProposalStatus::Draft {
        Some(ErrorCode::InvalidProposalStatus)
    } else if profile.researcher != researcher {
        Some(ErrorCode::UnauthorizedResearcher)
    } else if now >= p.funding_deadline {
        Some(ErrorCode::FundingDeadlineExpired)
    } else if p.funding_target > LARGE_FUNDING_TARGET && profile.reputation_score < MIN_REPUTATION_FOR_FUNDING {
        Some(ErrorCode::InsufficientReputation)
    } else {
        None
    }
}

/// Accounts of a submission for funding.
pub struct SubmitProposalForFunding {
    pub research_proposal: ResearchProposal,
    pub researcher_profile: ResearcherProfile,
    pub researcher: Pubkey,
}

impl SubmitProposalForFunding {
    /// Moves a draft to submitted-for-funding before its deadline; targets
    /// above ten SOL need a reputation of at least 100. Leaves the proposal
    /// unchanged when it refuses.
    pub fn submit_proposal_for_funding(&mut self, now: i64) -> (res: Result<ProposalSubmittedForFunding, ErrorCode>)
        ensures
            final(self).researcher_profile == old(self).researcher_profile,
            final(self).researcher == old(self).researcher,
            match submission_error(old(self).research_proposal, old(self).researcher_profile, old(self).researcher, now) {
                Some(e) => res == Err::<ProposalSubmittedForFunding, ErrorCode>(e)
                    && final(self).research_proposal == old(self).research_proposal,
                None => final(self).research_proposal == (ResearchProposal {
                    status: ProposalStatus::SubmittedForFunding,
                    ..old(self).research_proposal
                }) && res == Ok::<ProposalSubmittedForFunding, ErrorCode>(ProposalSubmittedForFunding {
                    proposal_id: old(self).research_proposal.id,
                    researcher: old(self).researcher,
                    funding_target: old(self).research_proposal.funding_target,
                    deadline: old(self).research_proposal.funding_deadline,
                    timestamp: now,
                }),
            },
    {
        if self.research_proposal.researcher != self.researcher {
            return Err(ErrorCode::UnauthorizedResearcher);
        }
        if self.research_proposal.status != ProposalStatus::Draft {
            return Err(ErrorCode::InvalidProposalStatus);
        }
        if self.researcher_profile.researcher != self.researcher {
            return Err(ErrorCode::UnauthorizedResearcher);
        }
        if !(now < self.research_proposal.funding_deadline) {
            return Err(ErrorCode::FundingDeadlineExpired);
        }
        if self.research_proposal.funding_target > LARGE_FUNDING_TARGET {
            if !(self.researcher_profile.reputation_score >= MIN_REPUTATION_FOR_FUNDING) {
                return Err(ErrorCode::InsufficientReputation);
            }
        }
        self.research_proposal.status = ProposalStatus::SubmittedForFunding;
        Ok(ProposalSubmittedForFunding {
            proposal_id: self.research_proposal.id,
            researcher: self.researcher,
            funding_target: self.research_proposal.funding_target,
            deadline: self.research_proposal.funding_deadline,
            timestamp: now,
        })
    }
}


// ---------------------------------------------------------------------------
// publish_milestone
// ---------------------------------------------------------------------------

/// Emitted when a milestone is published.
#[derive(Debug, Clone, Copy, PartialEq, Eq, Structural)]
pub struct MilestonePublished {
    pub proposal_id: u64,
    pub researcher: Pubkey,
    pub milestone_index: u8,
    pub timestamp: i64,
    pub all_milestones_completed: bool,
}

/// The first rule a milestone publication breaks, if any.
pub open spec fn milestone_error(p: ResearchProposal, profile: ResearcherProfile, researcher: Pubkey, milestone_index: u8) -> Option<ErrorCode> {
    if p.researcher != researcher {
        Some(ErrorCode::UnauthorizedResearcher)
    } else if !(p.status == ProposalStatus::InProgress || p.status == ProposalStatus::SubmittedForFunding) {
        Some(ErrorCode::InvalidProposalStatus)
    } else if profile.researcher != researcher {
        Some(ErrorCode::UnauthorizedResearcher)
    } else if milestone_index >= p.milestones@.len() {
        Some(ErrorCode::InvalidMilestoneIndex)
    } else if p.milestones@[milestone_index as int].is_completed {
        Some(ErrorCode::MilestoneAlreadyCompleted)
    } else {
        None
    }
}

/// Milestone `m` completed at `now` with evidence `hash`.
pub open spec fn completed_milestone(m: Milestone, now: i64, hash: [u8; 32]) -> Milestone {
    Milestone { completion_date: Some(now), is_completed: true, ipfs_evidence_hash: Some(hash), ..m }
}

/// Accounts of a milestone publication.
pub struct PublishMilestone {
    pub research_proposal: ResearchProposal,
    pub researcher_profile: ResearcherProfile,
    pub researcher: Pubkey,
}

impl PublishMilestone {
    /// Completes one milestone of a submitted or in-progress proposal,
    /// which is then in progress, and awards the milestone bonus; when it
    /// was the last open milestone the proposal is completed, the
    /// researcher's completed projects go up by one and the completion bonus
    /// is awarded (bonuses saturate). Leaves the accounts unchanged when it
    /// refuses.
    pub fn publish_milestone(&mut self, milestone_index: u8, ipfs_evidence_hash: [u8; 32], now: i64) -> (res: Result<MilestonePublished, ErrorCode>)
        requires
            milestone_error(old(self).research_proposal, old(self).researcher_profile, old(self).researcher, milestone_index)
                is None && all_completed(old(self).research_proposal.milestones@.update(
                milestone_index as int,
                completed_milestone(old(self).research_proposal.milestones@[milestone_index as int], now, ipfs_evidence_hash),
            )) ==> old(self).researcher_profile.completed_projects < u32::MAX,
        ensures
            final(self).researcher == old(self).researcher,
            match milestone_error(old(self).research_proposal, old(self).researcher_profile, old(self).researcher, milestone_index) {
                Some(e) => res == Err::<MilestonePublished, ErrorCode>(e)
                    && final(self).research_proposal == old(self).research_proposal
                    && final(self).researcher_profile == old(self).researcher_profile,
                None => {
                    let p = old(self).research_proposal;
                    let prof = old(self).researcher_profile;
                    let i = milestone_index as int;
                    let ms = p.milestones@.update(i, completed_milestone(p.milestones@[i], now, ipfs_evidence_hash));
                    let done = all_completed(ms);
                    &&& final(self).research_proposal@ == (ResearchProposalView {
                        status: if done { ProposalStatus::Completed } else { ProposalStatus::InProgress },
                        milestones: ms,
                        ..p@
                    })
                    &&& final(self).researcher_profile == (if done {
                        ResearcherProfile {
                            reputation_score: sat_add(sat_add(prof.reputation_score, MILESTONE_BONUS), COMPLETION_BONUS),
                            completed_projects: (prof.completed_projects + 1) as u32,
                            ..prof
                        }
                    } else {
                        ResearcherProfile { reputation_score: sat_add(prof.reputation_score, MILESTONE_BONUS), ..prof }
                    })
                    &&& res == Ok::<MilestonePublished, ErrorCode>(MilestonePublished {
                        proposal_id: p.id,
                        researcher: old(self).researcher,
                        milestone_index,
                        timestamp: now,
                        all_milestones_completed: done,
                    })
                },
            },
    {
        if self.research_proposal.researcher != self.researcher {
            return Err(ErrorCode::UnauthorizedResearcher);
        }
        if !(self.research_proposal.status == ProposalStatus::InProgress
            || self.research_proposal.status == ProposalStatus::SubmittedForFunding) {
            return Err(ErrorCode::InvalidProposalStatus);
        }
        if self.researcher_profile.researcher != self.researcher {
            return Err(ErrorCode::UnauthorizedResearcher);
        }
        let idx = milestone_index as usize;
        if idx >= self.research_proposal.milestones.len() {
            return Err(ErrorCode::InvalidMilestoneIndex);
        }
        if self.research_proposal.milestones[idx].is_completed {
            return Err(ErrorCode::MilestoneAlreadyCompleted);
        }
        let completed = Milestone {
            description: self.research_proposal.milestones[idx].description.clone(),
            target_date: self.research_proposal.milestones[idx].target_date,
            completion_date: Some(now),
            is_completed: true,
            ipfs_evidence_hash: Some(ipfs_evidence_hash),
        };
        if self.research_proposal.status == ProposalStatus::SubmittedForFunding {
            self.research_proposal.status = ProposalStatus::InProgress;
        }
        self.research_proposal.milestones[idx] = completed;
        self.researcher_profile.reputation_score = self.researcher_profile.reputation_score.saturating_add(MILESTONE_BONUS);
        let all_completed = all_milestones_completed(&self.research_proposal.milestones);
        if all_completed {
            self.research_proposal.status = ProposalStatus::Completed;
            self.researcher_profile.completed_projects = self.researcher_profile.completed_projects + 1;
            self.researcher_profile.reputation_score = self.researcher_profile.reputation_score.saturating_add(COMPLETION_BONUS);
        }
        proof {
            assert(self.research_proposal@.milestones =~= old(self).research_proposal.milestones@.update(
                milestone_index as int,
                completed_milestone(old(self).research_proposal.milestones@[milestone_index as int], now, ipfs_evidence_hash),
            ));
        }
        Ok(MilestonePublished {
            proposal_id: self.research_proposal.id,
            researcher: self.researcher,
            milestone_index,
            timestamp: now,
            all_milestones_completed: all_completed,
        })
    }
}

// ---------------------------------------------------------------------------
// publish_findings
// ---------------------------------------------------------------------------

/// Emitted when findings are published.
#[derive(Debug, Clone, Copy, PartialEq, Eq)]
pub struct FindingsPublished {
    pub proposal_id: u64,
    pub researcher: Pubkey,
    pub findings_ipfs_hash: [u8; 32],
    pub timestamp: i64,
}

/// The first rule a findings publication breaks, if any.
pub open spec fn findings_error(p: ResearchProposal, profile: ResearcherProfile, researcher: Pubkey) -> Option<ErrorCode> {
    if p.researcher != researcher {
        Some(ErrorCode::UnauthorizedResearcher)
    } else if !(p.status == ProposalStatus::Completed || p.status == ProposalStatus::InProgress || p.status
        == ProposalStatus::SubmittedForFunding) {
        Some(ErrorCode::InvalidProposalStatus)
    } else if profile.researcher != researcher {
        Some(ErrorCode::UnauthorizedResearcher)
    } else if p.findings_ipfs_hash is Some {
        Some(ErrorCode::FindingsAlreadyPublished)
    } else if p.status != ProposalStatus::Completed && !all_completed(p.milestones@) {
        Some(ErrorCode::InvalidProposalStatus)
    } else {
        None
    }
}

/// Accounts of a findings publication.
pub struct PublishFindings {
    pub research_proposal: ResearchProposal,
    pub researcher_profile: ResearcherProfile,
    pub researcher: Pubkey,
}

impl PublishFindings {
    /// Records the findings of a proposal whose work is done (completed, or
    /// with every milestone completed), marks it completed and awards the
    /// findings bonus (saturating). Findings are published once. Leaves the
    /// accounts unchanged when it refuses.
    pub fn publish_findings(&mut self, findings_ipfs_hash: [u8; 32], now: i64) -> (res: Result<FindingsPublished, ErrorCode>)
        ensures
            final(self).researcher == old(self).researcher,
            match findings_error(old(self).research_proposal, old(self).researcher_profile, old(self).researcher) {
                Some(e) => res == Err::<FindingsPublished, ErrorCode>(e)
                    && final(self).research_proposal == old(self).research_proposal
                    && final(self).researcher_profile == old(self).researcher_profile,
                None => {
                    &&& final(self).research_proposal == (ResearchProposal {
                        status: ProposalStatus::Completed,
                        findings_ipfs_hash: Some(findings_ipfs_hash),
                        ..old(self).research_proposal
                    })
                    &&& final(self).researcher_profile == (ResearcherProfile {
                        reputation_score: sat_add(old(self).researcher_profile.reputation_score, FINDINGS_BONUS),
                        ..old(self).researcher_profile
                    })
                    &&& res == Ok::<FindingsPublished, ErrorCode>(FindingsPublished {
                        proposal_id: old(self).research_proposal.id,
                        researcher: old(self).researcher,
                        findings_ipfs_hash,
                        timestamp: now,
                    })
                },
            },
    {
        if self.research_proposal.researcher != self.researcher {
            return Err(ErrorCode::UnauthorizedResearcher);
        }
        if !(self.research_proposal.status == ProposalStatus::Completed
            || self.research_proposal.status == ProposalStatus::InProgress
            || self.research_proposal.status == ProposalStatus::SubmittedForFunding) {
            return Err(ErrorCode::InvalidProposalStatus);
        }
        if self.researcher_profile.researcher != self.researcher {
            return Err(ErrorCode::UnauthorizedResearcher);
        }
        if self.research_proposal.findings_ipfs_hash.is_some() {
            return Err(ErrorCode::FindingsAlreadyPublished);
        }
        let all_completed = all_milestones_completed(&self.research_proposal.milestones);
        if self.research_proposal.status != ProposalStatus::Completed {
            if !all_completed {
                return Err(ErrorCode::InvalidProposalStatus);
            }
            self.research_proposal.status = ProposalStatus::Completed;
        }
        self.research_proposal.findings_ipfs_hash = Some(findings_ipfs_hash);
        self.researcher_profile.reputation_score = self.researcher_profile.reputation_score.saturating_add(FINDINGS_BONUS);
        Ok(FindingsPublished {
            proposal_id: self.research_proposal.id,
            researcher: self.researcher,
            findings_ipfs_hash,
            timestamp: now,
        })
    }
}

// ---------------------------------------------------------------------------
// validate_proposal_for_funding
// ---------------------------------------------------------------------------

/// Accounts the treasury's funding validation reads.
pub struct ValidateProposalForFunding {
    pub proposal: ResearchProposal,
    pub researcher_profile: ResearcherProfile,
}

/// The first rule a funding validation breaks, if any.
pub open spec fn funding_validation_error(ctx: ValidateProposalForFunding, proposal_id: u64, funding_amount: u64, now: i64) -> Option<ErrorCode> {
    if ctx.proposal.status != ProposalStatus::SubmittedForFunding {
        Some(ErrorCode::ProposalNotEligibleForFunding)
    } else if !ctx.researcher_profile.is_verified {
        Some(ErrorCode::ResearcherNotVerifiedForFunding)
    } else if ctx.proposal.id != proposal_id {
        Some(ErrorCode::InvalidProposalForFunding)
    } else if funding_amount > ctx.proposal.funding_target {
        Some(ErrorCode::ExcessiveFunding)
    } else if now >= ctx.proposal.funding_deadline {
        Some(ErrorCode::FundingDeadlinePassed)
    } else {
        None
    }
}

/// Accepts funding `funding_amount` for proposal `proposal_id` when the
/// proposal is submitted for funding, its researcher is verified, the
/// amount is within the target and the deadline has not passed.
pub fn validate_proposal_for_funding(
    ctx: &ValidateProposalForFunding,
    proposal_id: u64,
    funding_amount: u64,
    now: i64,
) -> (res: Result<(), ErrorCode>)
    ensures
        res == (match funding_validation_error(*ctx, proposal_id, funding_amount, now) {
            Some(e) => Err(e),
            None => Ok(()),
        }),
{
    if ctx.proposal.status != ProposalStatus::SubmittedForFunding {
        return Err(ErrorCode::ProposalNotEligibleForFunding);
    }
    if !ctx.researcher_profile.is_verified {
        return Err(ErrorCode::ResearcherNotVerifiedForFunding);
    }
    if ctx.proposal.id != proposal_id {
        return Err(ErrorCode::InvalidProposalForFunding);
    }
    if funding_amount > ctx.proposal.funding_target {
        return Err(ErrorCode::ExcessiveFunding);
    }
    if !(now < ctx.proposal.funding_deadline) {
        return Err(ErrorCode::FundingDeadlinePassed);
    }
    Ok(())
}


// ---------------------------------------------------------------------------
// Properties across research instructions
// ---------------------------------------------------------------------------

/// Number of completed milestones.
pub open spec fn completed_count(ms: Seq<Milestone>) -> nat
    decreases ms.len(),
{
    if ms.len() == 0 {
        0
    } else {
        completed_count(ms.drop_last()) + if ms.last().is_completed { 1nat } else { 0nat }
    }
}

/// Every milestone is completed exactly when the completed count reaches
/// the number of milestones; the count never exceeds it.
pub proof fn lemma_completed_count_full(ms: Seq<Milestone>)
    ensures
        completed_count(ms) <= ms.len(),
        (completed_count(ms) == ms.len()) == all_completed(ms),
    decreases ms.len(),
{
    if ms.len() > 0 {
        lemma_completed_count_full(ms.drop_last());
        if all_completed(ms) {
            assert(all_completed(ms.drop_last())) by {
                assert forall|i: int| 0 <= i < ms.drop_last().len() implies #[trigger] ms.drop_last()[i].is_completed by {
                    assert(ms[i].is_completed);
                }
            }
        }
        if completed_count(ms) == ms.len() {
            assert forall|i: int| 0 <= i < ms.len() implies #[trigger] ms[i].is_completed by {
                if i < ms.len() - 1 {
                    assert(ms.drop_last()[i].is_completed);
                }
            }
        }
    }
}

/// Completing an open milestone raises the completed count by one.
pub proof fn lemma_completing_raises_count(ms: Seq<Milestone>, i: int, m: Milestone)
    requires
        0 <= i < ms.len(),
        !ms[i].is_completed,
        m.is_completed,
    ensures
        completed_count(ms.update(i, m)) == completed_count(ms) + 1,
    decreases ms.len(),
{
    let u = ms.update(i, m);
    if i == ms.len() - 1 {
        assert(u.drop_last() =~= ms.drop_last());
    } else {
        lemma_completing_raises_count(ms.drop_last(), i, m);
        assert(u.drop_last() =~= ms.drop_last().update(i, m));
    }
}

/// Publishing a milestone completes exactly that milestone, raising the
/// completed count by one, and the proposal becomes completed exactly when
/// the count reaches the number of milestones.
pub proof fn lemma_milestone_progress(p: ResearchProposal, profile: ResearcherProfile, researcher: Pubkey, milestone_index: u8, now: i64, hash: [u8; 32])
    requires
        milestone_error(p, profile, researcher, milestone_index) is None,
    ensures
        ({
            let i = milestone_index as int;
            let ms = p.milestones@.update(i, completed_milestone(p.milestones@[i], now, hash));
            &&& completed_count(ms) == completed_count(p.milestones@) + 1
            &&& ms[i].is_completed
            &&& all_completed(ms) == (completed_count(ms) == ms.len())
        }),
{
    let i = milestone_index as int;
    let ms = p.milestones@.update(i, completed_milestone(p.milestones@[i], now, hash));
    lemma_completing_raises_count(p.milestones@, i, completed_milestone(p.milestones@[i], now, hash));
    lemma_completed_count_full(ms);
}

/// Findings are published at most once: once recorded, a second
/// publication by the same researcher is refused.
pub proof fn lemma_findings_published_once(p: ResearchProposal, profile: ResearcherProfile, researcher: Pubkey, hash: [u8; 32])
    requires
        findings_error(p, profile, researcher) is None,
    ensures
        findings_error(
            ResearchProposal { status: ProposalStatus::Completed, findings_ipfs_hash: Some(hash), ..p },
            ResearcherProfile { reputation_score: sat_add(profile.reputation_score, FINDINGS_BONUS), ..profile },
            researcher,
        ) == Some(ErrorCode::FindingsAlreadyPublished),
{
}

/// When findings are accepted: exactly when the signer is the proposal's
/// researcher and owns the profile, no findings are recorded yet, and the
/// work is done — the proposal is completed, or it is submitted for funding
/// or in progress with every milestone completed. In particular a completed
/// proposal of the signer's, without findings, always gets them published.
pub proof fn lemma_findings_acceptance(p: ResearchProposal, profile: ResearcherProfile, researcher: Pubkey)
    ensures
        (findings_error(p, profile, researcher) is None) == (p.researcher == researcher && profile.researcher
            == researcher && p.findings_ipfs_hash is None && (p.status == ProposalStatus::Completed || ((p.status
            == ProposalStatus::SubmittedForFunding || p.status == ProposalStatus::InProgress) && forall|k: int|
            0 <= k < p.milestones@.len() ==> (#[trigger] p.milestones@[k]).is_completed))),
{
}

/// Publishing the last open milestone completes the proposal, after which
/// its researcher can publish the findings.
pub proof fn lemma_findings_after_last_milestone(
    p: ResearchProposal,
    profile: ResearcherProfile,
    researcher: Pubkey,
    milestone_index: u8,
    now: i64,
    hash: [u8; 32],
    done: ResearchProposal,
    done_profile: ResearcherProfile,
)
    requires
        milestone_error(p, profile, researcher, milestone_index) is None,
        p.findings_ipfs_hash is None,
        done_profile.researcher == profile.researcher,
        forall|k: int| 0 <= k < p.milestones@.len() && k != milestone_index ==> (#[trigger] p.milestones@[k]).is_completed,
        done@ == (ResearchProposalView {
            status: if all_completed(p.milestones@.update(
                milestone_index as int,
                completed_milestone(p.milestones@[milestone_index as int], now, hash),
            )) {
                ProposalStatus::Completed
            } else {
                ProposalStatus::InProgress
            },
            milestones: p.milestones@.update(
                milestone_index as int,
                completed_milestone(p.milestones@[milestone_index as int], now, hash),
            ),
            ..p@
        }),
    ensures
        done.status == ProposalStatus::Completed,
        findings_error(done, done_profile, researcher) is None,
{
    let ms = p.milestones@.update(milestone_index as int, completed_milestone(p.milestones@[milestone_index as int], now, hash));
    assert forall|k: int| 0 <= k < ms.len() implies #[trigger] ms[k].is_completed by {
        if k != milestone_index {
            assert(p.milestones@[k].is_completed);
        }
    }
}

} // verus!
