use domain_rust::{
    add_exp_report, calculate_required_exp, profile_text, BoundaryError, InventoryEntity,
    InventoryEntityExt, Item, LevelProgress, ProfileEntity, ProfileEntityExt, UserAggregates,
    UserAggregatesExt,
};

fn profile(level: i64, exp: i64) -> ProfileEntity {
    ProfileEntity {
        nickname: "TestPlayer".to_string(),
        level,
        exp,
        avatar: "test_avatar".to_string(),
        created_at: "2024-01-01T00:00:00Z".to_string(),
    }
}

fn percentage(p: LevelProgress) -> f64 {
    match p {
        LevelProgress::Complete => 100.0,
        LevelProgress::Partial { earned, span } => (earned as f64 / span as f64) * 100.0,
    }
}

fn item(id: &str) -> Item {
    Item { id: id.to_string(), quantity: 1, level: None, rarity: None, properties: None }
}

#[test]
fn test_calculate_required_exp() {
    assert_eq!(calculate_required_exp(1), 0);
    assert_eq!(calculate_required_exp(2), 100);
    assert_eq!(calculate_required_exp(3), 282);
    assert_eq!(calculate_required_exp(4), 519);
    assert_eq!(calculate_required_exp(10), 2700);
}

#[test]
fn test_profile_add_exp_core() {
    let mut profile = profile(1, 0);
    let level_increased = profile.AddExp(500);
    assert_eq!(level_increased, true);
    assert_eq!(profile.level, 3);
    assert_eq!(profile.exp, 500);
    let exp_to_next = profile.GetExpToNextLevel();
    let progress = percentage(profile.GetLevelProgress());
    assert!(exp_to_next > 0);
    assert!(progress >= 0.0 && progress <= 100.0);
}

#[test]
fn required_exp_below_level_two_is_zero() {
    assert_eq!(calculate_required_exp(0), 0);
    let p = profile(1, 0);
    assert_eq!(p.CalculateRequiredExpForLevel(0), 0);
    assert_eq!(p.CalculateRequiredExpForLevel(10), 2700);
}

#[test]
fn required_exp_at_last_level() {
    assert_eq!(calculate_required_exp(100), 98503);
    assert_eq!(calculate_required_exp(101), 100000);
}

#[test]
fn required_exp_saturates_for_huge_levels() {
    assert_eq!(calculate_required_exp(u32::MAX), u32::MAX);
    assert_eq!(calculate_required_exp(200_000), u32::MAX);
}

#[test]
fn add_exp_lands_on_earned_level() {
    let mut p = profile(1, 0);
    assert!(p.AddExp(2700));
    assert_eq!(p.level, 10);
    let mut q = profile(1, 0);
    assert!(q.AddExp(2699));
    assert_eq!(q.level, 9);
}

#[test]
fn add_exp_stops_at_last_level() {
    let mut p = profile(1, 0);
    assert!(p.AddExp(5_000_000));
    assert_eq!(p.level, 100);
    assert_eq!(p.exp, 5_000_000);
    assert_eq!(p.GetExpToNextLevel(), 0);
    assert_eq!(p.GetLevelProgress(), LevelProgress::Complete);
    assert!(!p.AddExp(10));
    assert_eq!(p.level, 100);
    assert_eq!(p.exp, 5_000_010);
}

#[test]
fn add_exp_never_lowers_level_or_exp() {
    let mut p = profile(5, 10);
    assert!(!p.AddExp(0));
    assert_eq!(p.level, 5);
    assert_eq!(p.exp, 10);
    let mut q = profile(2, 150);
    assert!(!q.AddExp(100));
    assert_eq!(q.level, 2);
    assert_eq!(q.exp, 250);
}

#[test]
fn exp_to_next_level_counts_the_gap() {
    let p = profile(3, 500);
    assert_eq!(p.GetExpToNextLevel(), 19);
    let q = profile(3, 600);
    assert_eq!(q.GetExpToNextLevel(), 0);
}

#[test]
fn progress_is_a_fraction_of_the_level() {
    let p = profile(2, 191);
    assert_eq!(p.GetLevelProgress(), LevelProgress::Partial { earned: 91, span: 182 });
    assert_eq!(percentage(p.GetLevelProgress()), 50.0);
    let q = profile(1, 0);
    assert_eq!(q.GetLevelProgress(), LevelProgress::Partial { earned: 0, span: 100 });
    let r = profile(0, 0);
    assert_eq!(r.GetLevelProgress(), LevelProgress::Complete);
}

#[test]
fn profile_validation() {
    assert!(profile(1, 0).IsValid());
    assert!(!profile(0, 0).IsValid());
    assert!(!profile(101, 0).IsValid());
    let mut p = profile(1, 0);
    p.nickname = String::new();
    assert!(!p.IsValid());
    p.nickname = "n".repeat(50);
    assert!(p.IsValid());
    p.nickname = "n".repeat(51);
    assert!(!p.IsValid());
    let mut q = profile(1, 0);
    q.avatar = "a".repeat(101);
    assert!(!q.IsValid());
}

#[test]
fn gold_cap_is_kept() {
    let mut inv = InventoryEntity::new(999_999_998, 0, 10);
    assert!(inv.AddGold(1));
    assert_eq!(inv.gold, 999_999_999);
    assert!(!inv.AddGold(1));
    assert_eq!(inv.gold, 999_999_999);
    assert!(!inv.AddGold(u32::MAX));
    assert_eq!(inv.gold, 999_999_999);
}

#[test]
fn gold_never_goes_negative() {
    let mut inv = InventoryEntity::new(5, 0, 10);
    assert!(!inv.RemoveGold(6));
    assert_eq!(inv.gold, 5);
    assert!(inv.RemoveGold(5));
    assert_eq!(inv.gold, 0);
}

#[test]
fn gems_follow_the_same_rules() {
    let mut inv = InventoryEntity::new(0, 999_999_990, 10);
    assert!(!inv.AddGems(10));
    assert_eq!(inv.gems, 999_999_990);
    assert!(inv.AddGems(9));
    assert_eq!(inv.gems, 999_999_999);
    assert!(!inv.RemoveGems(1_000_000_000));
    assert!(inv.RemoveGems(999_999_999));
    assert_eq!(inv.gems, 0);
    assert_eq!(inv.gold, 0);
}

#[test]
fn inventory_space_and_validation() {
    let mut inv = InventoryEntity::new(0, 0, 1);
    assert!(inv.HasSpace());
    assert_eq!(inv.GetItemCount(), 0);
    inv.items.push(item("sword"));
    assert!(!inv.HasSpace());
    assert_eq!(inv.GetItemCount(), 1);
    assert!(inv.IsValid());
    inv.items.push(item("shield"));
    assert!(!inv.IsValid());
    assert!(!InventoryEntity::new(0, 0, 0).IsValid());
    assert!(!InventoryEntity::new(0, 0, 1001).IsValid());
    assert!(!InventoryEntity::new(1_000_000_000, 0, 10).IsValid());
    assert!(InventoryEntity::new(999_999_999, 999_999_999, 1000).IsValid());
}

#[test]
fn level_up_pays_gold_for_the_landing_level() {
    let mut agg = UserAggregates { profile: profile(1, 0), inventory: InventoryEntity::new(0, 0, 10) };
    assert!(agg.AddExpWithRewards(500));
    assert_eq!(agg.profile.level, 3);
    assert_eq!(agg.inventory.gold, 600);
    assert_eq!(agg.inventory.gems, 0);
    assert!(agg.IsValid());
}

#[test]
fn fifth_level_pays_gems() {
    let mut agg = UserAggregates { profile: profile(4, 519), inventory: InventoryEntity::new(0, 0, 10) };
    assert!(agg.AddExpWithRewards(281));
    assert_eq!(agg.profile.level, 5);
    assert_eq!(agg.inventory.gold, 500);
    assert_eq!(agg.inventory.gems, 1);
}

#[test]
fn no_level_up_pays_nothing() {
    let mut agg = UserAggregates { profile: profile(1, 0), inventory: InventoryEntity::new(7, 3, 10) };
    assert!(!agg.AddExpWithRewards(99));
    assert_eq!(agg.profile.exp, 99);
    assert_eq!(agg.inventory.gold, 7);
    assert_eq!(agg.inventory.gems, 3);
}

#[test]
fn failed_reward_still_reports_level_up() {
    let mut agg = UserAggregates {
        profile: profile(1, 0),
        inventory: InventoryEntity::new(999_999_999, 0, 10),
    };
    assert!(agg.AddExpWithRewards(100));
    assert_eq!(agg.profile.level, 2);
    assert_eq!(agg.inventory.gold, 999_999_999);
}

#[test]
fn non_utf8_input_is_an_error() {
    let r = profile_text(&[0x7b, 0xff, 0xfe, 0x7d]);
    match r {
        Err(e) => {
            assert!(matches!(e, BoundaryError::InvalidUtf8));
            assert_eq!(e.message(), "Invalid UTF-8 in profile JSON");
        }
        Ok(_) => panic!("accepted bytes that are not UTF-8"),
    }
}

#[test]
fn utf8_input_is_decoded() {
    let bytes = "{\"nickname\":\"h\u{e9}\"}".as_bytes().to_vec();
    match profile_text(&bytes) {
        Ok(s) => assert_eq!(s, "{\"nickname\":\"h\u{e9}\"}"),
        Err(_) => panic!("refused UTF-8 input"),
    }
    assert!(profile_text(&[]).is_ok());
}

#[test]
fn malformed_profile_message() {
    let e = BoundaryError::MalformedProfile("missing field `level`".to_string());
    assert_eq!(e.message(), "Failed to parse profile JSON: missing field `level`");
}

#[test]
fn report_after_adding_exp() {
    let rep = add_exp_report(profile(1, 0), 500).ok().unwrap();
    assert_eq!(rep.profile.level, 3);
    assert_eq!(rep.profile.exp, 500);
    assert_eq!(rep.profile.nickname, "TestPlayer");
    assert!(rep.level_increased);
    assert_eq!(rep.exp_to_next_level, 19);
    assert_eq!(rep.progress, LevelProgress::Partial { earned: 218, span: 237 });
}

#[test]
fn report_refuses_overflowing_exp() {
    let r = add_exp_report(profile(100, i64::MAX - 1), 2);
    assert!(matches!(r, Err(BoundaryError::ExpOverflow)));
    let ok = add_exp_report(profile(100, i64::MAX - 1), 1);
    assert!(ok.is_ok());
}
