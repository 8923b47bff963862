use crowdfund::contract::{CrowdfundContract, CONTRACT_VERSION};
use crowdfund::effect::{Effect, Event};
use crowdfund::error::{Abort, Failure};
use crowdfund::ledger::{Entry, Ledger};
use crowdfund::principal::{Principal, PrincipalKind};
use crowdfund::stats::{average_contribution, progress, CampaignStats};
use crowdfund::status::Status;
use crowdfund::timeline::{Stamp, Timeline};

fn account(n: u128) -> Principal {
    Principal { kind: PrincipalKind::Account, hi: 0, lo: n }
}

fn asset() -> Principal {
    Principal { kind: PrincipalKind::Contract, hi: 7, lo: 7 }
}

fn campaign(goal: i128) -> CrowdfundContract {
    let mut c = CrowdfundContract::new();
    c.initialize(
        account(1),
        account(1),
        asset(),
        goal,
        1_000,
        1,
        String::from("Orchard"),
        String::from("Plant a hundred trees"),
        None,
        0,
    )
    .unwrap();
    c
}

#[test]
fn active_is_the_only_live_status() {
    assert!(Status::Active.is_active());
    assert!(!Status::Successful.is_active());
    assert!(!Status::Refunded.is_active());
    assert!(!Status::Cancelled.is_active());
}

#[test]
fn a_principal_is_its_kind_and_its_identifier() {
    let a = Principal { kind: PrincipalKind::Account, hi: 1, lo: 2 };
    assert_eq!(a, Principal { kind: PrincipalKind::Account, hi: 1, lo: 2 });
    assert_ne!(a, Principal { kind: PrincipalKind::Contract, hi: 1, lo: 2 });
    assert_ne!(a, Principal { kind: PrincipalKind::Account, hi: 2, lo: 2 });
    assert_ne!(a, Principal { kind: PrincipalKind::Account, hi: 1, lo: 3 });
}

#[test]
fn campaign_info_collects_the_fixed_fields() {
    let mut c = campaign(5_000);
    c.contribute(account(2), account(2), 40, None, 1).unwrap();
    let info = c.get_campaign_info();
    assert_eq!(info.creator, account(1));
    assert_eq!(info.token, asset());
    assert_eq!(info.goal, 5_000);
    assert_eq!(info.deadline, 1_000);
    assert_eq!(info.total_raised, 40);
    assert_eq!(info.title, "Orchard");
    assert_eq!(info.description, "Plant a hundred trees");
    assert_eq!(c.creator(), account(1));
    assert_eq!(c.min_contribution(), 1);
    assert_eq!(c.version(), 2);
    assert_eq!(CONTRACT_VERSION, 2);
}

#[test]
fn metadata_is_replaced_where_a_new_value_is_given() {
    let mut c = campaign(5_000);
    let effects = c
        .update_metadata(account(1), None, Some(String::from("Two hundred")), Some(String::from("@o")))
        .unwrap();
    assert_eq!(
        effects,
        vec![Effect::Emit(Event::MetadataUpdated {
            title: false,
            description: true,
            socials: true
        })]
    );
    assert_eq!(c.title(), "Orchard");
    assert_eq!(c.description(), "Two hundred");
    assert_eq!(c.socials(), "@o");
    c.update_metadata(account(1), Some(String::from("Grove")), None, None).unwrap();
    assert_eq!(c.title(), "Grove");
    assert_eq!(c.description(), "Two hundred");
}

#[test]
fn roadmap_items_are_appended_in_order() {
    let mut c = campaign(5_000);
    assert_eq!(
        c.add_roadmap_item(account(1), 10, String::from("late"), 10),
        Err(Failure::Aborted(Abort::RoadmapDateNotInFuture))
    );
    assert_eq!(
        c.add_roadmap_item(account(1), 11, String::new(), 10),
        Err(Failure::Aborted(Abort::EmptyDescription))
    );
    let effects = c.add_roadmap_item(account(1), 500, String::from("beta"), 10).unwrap();
    assert_eq!(effects, vec![Effect::Emit(Event::RoadmapItemAdded { date: 500 })]);
    c.add_roadmap_item(account(1), 200, String::from("alpha"), 10).unwrap();
    let roadmap = c.roadmap();
    assert_eq!(roadmap.len(), 2);
    assert_eq!(roadmap[0].date, 500);
    assert_eq!(roadmap[0].description, "beta");
    assert_eq!(roadmap[1].date, 200);
    assert_eq!(roadmap[1].description, "alpha");
}

#[test]
fn stats_of_a_campaign_in_progress() {
    let mut c = campaign(1_000);
    assert_eq!(
        c.get_stats(),
        CampaignStats {
            total_raised: 0,
            goal: 1_000,
            progress_bps: 0,
            contributor_count: 0,
            average_contribution: 0,
            largest_contribution: 0,
        }
    );
    c.contribute(account(2), account(2), 100, None, 1).unwrap();
    c.contribute(account(3), account(3), 233, None, 1).unwrap();
    c.contribute(account(2), account(2), 1, None, 2).unwrap();
    assert_eq!(
        c.get_stats(),
        CampaignStats {
            total_raised: 334,
            goal: 1_000,
            progress_bps: 3_340,
            contributor_count: 2,
            average_contribution: 167,
            largest_contribution: 233,
        }
    );
    c.contribute(account(4), account(4), 5_000, None, 3).unwrap();
    let stats = c.get_stats();
    assert_eq!(stats.progress_bps, 10_000);
    assert_eq!(stats.contributor_count, 3);
    assert_eq!(stats.average_contribution, 1_778);
    assert_eq!(stats.largest_contribution, 5_000);
}

#[test]
fn stats_are_safe_at_every_status() {
    let fresh = CrowdfundContract::new();
    assert_eq!(fresh.get_stats().progress_bps, 0);

    let mut c = campaign(100);
    c.contribute(account(2), account(2), 150, None, 1).unwrap();
    c.withdraw(account(1), 1_001).unwrap();
    let stats = c.get_stats();
    assert_eq!(stats.total_raised, 0);
    assert_eq!(stats.progress_bps, 0);
    assert_eq!(stats.contributor_count, 1);
    assert_eq!(stats.average_contribution, 0);
    assert_eq!(stats.largest_contribution, 150);
}

#[test]
fn progress_is_exact_and_capped() {
    assert_eq!(progress(0, 1_000), 0);
    assert_eq!(progress(1, 3), 3_333);
    assert_eq!(progress(2, 3), 6_666);
    assert_eq!(progress(999, 1_000), 9_990);
    assert_eq!(progress(1_000, 1_000), 10_000);
    assert_eq!(progress(1_001, 1_000), 10_000);
    assert_eq!(progress(5, 0), 0);
    assert_eq!(progress(5, -7), 0);
    assert_eq!(progress(1, 10_001), 0);
    assert_eq!(progress(1, 10_000), 1);
    // Totals whose product with 10000 leaves the 128-bit range.
    assert_eq!(progress(i128::MAX - 1, i128::MAX), 9_999);
    assert_eq!(progress(i128::MAX / 2, i128::MAX), 4_999);
    assert_eq!(progress(i128::MAX / 3, i128::MAX), 3_333);
    assert_eq!(progress(i128::MAX, i128::MAX), 10_000);
}

#[test]
fn average_rounds_down_and_is_zero_without_contributors() {
    assert_eq!(average_contribution(0, 0), 0);
    assert_eq!(average_contribution(10, 0), 0);
    assert_eq!(average_contribution(10, 3), 3);
    assert_eq!(average_contribution(9, 3), 3);
    assert_eq!(average_contribution(2, 3), 0);
}

#[test]
fn ledger_keeps_one_entry_for_each_principal() {
    let mut l = Ledger::new();
    assert_eq!(l.len(), 0);
    assert_eq!(l.amount_of(account(1)), 0);
    assert_eq!(l.largest(), 0);
    l.credit(account(1), 5);
    l.credit(account(2), 7);
    l.credit(account(1), 10);
    assert_eq!(l.len(), 2);
    assert_eq!(l.entry(0), Entry { who: account(1), amount: 15 });
    assert_eq!(l.entry(1), Entry { who: account(2), amount: 7 });
    assert_eq!(l.find(account(2)), Some(1));
    assert_eq!(l.find(account(3)), None);
    assert_eq!(l.total(), Some(22));
    assert_eq!(l.largest(), 15);
    assert_eq!(l.settle(account(1)), 15);
    assert_eq!(l.settle(account(1)), 0);
    assert_eq!(l.settle(account(9)), 0);
    assert_eq!(l.len(), 2);
    assert_eq!(l.total(), Some(7));
    l.clear();
    assert_eq!(l.entries, vec![
        Entry { who: account(1), amount: 0 },
        Entry { who: account(2), amount: 0 },
    ]);
}

#[test]
fn ledger_total_notices_when_it_leaves_the_range() {
    let mut l = Ledger::new();
    l.credit(account(1), i128::MAX);
    assert_eq!(l.total(), Some(i128::MAX));
    l.credit(account(2), 1);
    assert_eq!(l.total(), None);
}

#[test]
fn ledger_entries_are_checked_for_repetition_and_sign() {
    assert!(Ledger::well_formed(&vec![]));
    assert!(Ledger::well_formed(&vec![
        Entry { who: account(1), amount: 0 },
        Entry { who: account(2), amount: 3 },
    ]));
    assert!(!Ledger::well_formed(&vec![
        Entry { who: account(1), amount: 1 },
        Entry { who: account(2), amount: 3 },
        Entry { who: account(1), amount: 2 },
    ]));
    assert!(!Ledger::well_formed(&vec![Entry { who: account(1), amount: -1 }]));
}

#[test]
fn timeline_remembers_the_latest_contribution() {
    let mut t = Timeline::new();
    assert_eq!(t.last_seen(account(1)), None);
    t.touch(account(1), 10);
    t.touch(account(2), 20);
    t.touch(account(1), 30);
    assert_eq!(t.last_seen(account(1)), Some(30));
    assert_eq!(t.last_seen(account(2)), Some(20));
    assert_eq!(t.stamps.len(), 2);
    assert!(Timeline::well_formed(&t.stamps));
    assert!(!Timeline::well_formed(&vec![
        Stamp { who: account(1), at: 1 },
        Stamp { who: account(1), at: 2 },
    ]));
}

#[test]
fn books_that_do_not_balance_are_not_well_formed() {
    let mut c = campaign(1_000);
    c.contribute(account(2), account(2), 100, None, 1).unwrap();
    c.pledge(account(3), account(3), 50, 1).unwrap();
    assert!(c.is_well_formed());

    c.total_raised = 99;
    assert!(!c.is_well_formed());
    c.total_raised = 100;

    c.total_pledged = 51;
    assert!(!c.is_well_formed());
    c.total_pledged = 50;

    c.status = Status::Refunded;
    assert!(!c.is_well_formed());
    c.status = Status::Active;

    c.goal = 0;
    assert!(!c.is_well_formed());
    c.goal = 1_000;

    c.contributions.entries.push(Entry { who: account(2), amount: 0 });
    assert!(!c.is_well_formed());
    c.contributions.entries.pop();

    assert!(c.is_well_formed());
}
