//! Presentation data of a campaign: configuration records, roadmap, summary.

use vstd::prelude::*;
use crate::principal::Principal;

verus! {

/// Who receives the platform fee, and how much of the raised total it is.
#[derive(Clone, Copy, Debug, PartialEq, Eq, Structural)]
pub struct PlatformConfig {
    /// The fee recipient.
    pub address: Principal,
    /// The fee rate in basis points: 10000 is 100%.
    pub fee_bps: u32,
}

/// One entry of the roadmap, as a mathematical value.
pub struct Milestone {
    pub date: u64,
    pub description: Seq<char>,
}

/// One entry of the roadmap: a date and what is planned for it.
#[derive(Debug)]
pub struct RoadmapItem {
    pub date: u64,
    pub description: String,
}

impl Clone for RoadmapItem {
    fn clone(&self) -> (r: Self)
        ensures
            r == *self,
    {
        RoadmapItem { date: self.date, description: self.description.clone() }
    }
}

impl View for RoadmapItem {
    type V = Milestone;

    open spec fn view(&self) -> Milestone {
        Milestone { date: self.date, description: self.description@ }
    }
}

/// The roadmap items as mathematical values, in the same order.
pub open spec fn milestones(items: Seq<RoadmapItem>) -> Seq<Milestone> {
    Seq::new(items.len(), |i: int| items[i]@)
}

/// The fixed fields of a campaign together with its title and description.
#[derive(Debug)]
pub struct CampaignInfo {
    pub creator: Principal,
    pub token: Principal,
    pub goal: i128,
    pub deadline: u64,
    pub total_raised: i128,
    pub title: String,
    pub description: String,
}

impl Clone for CampaignInfo {
    fn clone(&self) -> (r: Self)
        ensures
            r == *self,
    {
        CampaignInfo {
            creator: self.creator,
            token: self.token,
            goal: self.goal,
            deadline: self.deadline,
            total_raised: self.total_raised,
            title: self.title.clone(),
            description: self.description.clone(),
        }
    }
}

} // verus!
