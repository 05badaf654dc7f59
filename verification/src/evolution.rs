//! The evolution layer, reduced to its regular core.
//!
//! The surrounding assistant persona is presentation, not regulation; what
//! is lawful about it is the pair of pure functions below: the competence
//! tier is a function of the interaction counter alone, and each kind of
//! interaction carries a fixed learning weight.  Both are stated exactly.

use vstd::prelude::*;

verus! {

/// The kind of exchange an interaction was.
#[derive(Clone, Copy, Debug, PartialEq, Eq, Structural)]
pub enum InteractionType {
    ZoneAnalysis,
    BioCoreRecommendation,
    SystemOptimization,
    StrategicPlanning,
    GeneralInquiry,
    EmergencyResponse,
}

/// The direction of a BioCore effect.
#[derive(Clone, Copy, Debug, PartialEq, Eq, Structural)]
pub enum EffectType {
    Calming,
    Activating,
    Balancing,
    Purifying,
    Relaxing,
}

/// Competence tiers, reached purely by interaction count.
#[derive(Clone, Copy, Debug, PartialEq, Eq, Structural)]
pub enum IntelligenceLevel {
    Beginner,
    Intermediate,
    Advanced,
    Expert,
    Master,
    Autonomous,
}

/// The weight each kind of interaction contributes to learning, on the
/// unit scale of [`crate::zone::SCALE`].
pub open spec fn learning_weight(interaction_type: InteractionType) -> u64 {
    match interaction_type {
        InteractionType::ZoneAnalysis => 800_000,
        InteractionType::BioCoreRecommendation => 900_000,
        InteractionType::SystemOptimization => 1_000_000,
        InteractionType::StrategicPlanning => 950_000,
        InteractionType::GeneralInquiry => 500_000,
        InteractionType::EmergencyResponse => 1_000_000,
    }
}

/// The executable form of [`learning_weight`].
pub fn calculate_learning_weight(interaction_type: &InteractionType) -> (weight: u64)
    ensures
        weight == learning_weight(*interaction_type),
{
    match interaction_type {
        InteractionType::ZoneAnalysis => 800_000,
        InteractionType::BioCoreRecommendation => 900_000,
        InteractionType::SystemOptimization => 1_000_000,
        InteractionType::StrategicPlanning => 950_000,
        InteractionType::GeneralInquiry => 500_000,
        InteractionType::EmergencyResponse => 1_000_000,
    }
}

/// The tier reached after a number of interactions: fewer than 5 is
/// beginner, then intermediate to 9, advanced to 19, expert to 49, master
/// to 99, and autonomous beyond.
pub open spec fn level_after(total_interactions: u64) -> IntelligenceLevel {
    if total_interactions <= 4 {
        IntelligenceLevel::Beginner
    } else if total_interactions <= 9 {
        IntelligenceLevel::Intermediate
    } else if total_interactions <= 19 {
        IntelligenceLevel::Advanced
    } else if total_interactions <= 49 {
        IntelligenceLevel::Expert
    } else if total_interactions <= 99 {
        IntelligenceLevel::Master
    } else {
        IntelligenceLevel::Autonomous
    }
}

/// The executable form of [`level_after`].
pub fn intelligence_level_after(total_interactions: u64) -> (level: IntelligenceLevel)
    ensures
        level == level_after(total_interactions),
{
    if total_interactions <= 4 {
        IntelligenceLevel::Beginner
    } else if total_interactions <= 9 {
        IntelligenceLevel::Intermediate
    } else if total_interactions <= 19 {
        IntelligenceLevel::Advanced
    } else if total_interactions <= 49 {
        IntelligenceLevel::Expert
    } else if total_interactions <= 99 {
        IntelligenceLevel::Master
    } else {
        IntelligenceLevel::Autonomous
    }
}

} // verus!
