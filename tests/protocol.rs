use character::protocol::{Request, StatBar, STAT_MAX};
use character::record::{column_to_u32, MiuchizDBCharacter, MiuchizStats};

#[test]
fn stat_bar_keeps_values_in_range() {
    assert_eq!(StatBar::from_u32(0).to_u32(), 0);
    assert_eq!(StatBar::from_u32(12345).to_u32(), 12345);
    assert_eq!(StatBar::from_u32(STAT_MAX).to_u32(), 0x7FFF_FFFF);
}

#[test]
fn stat_bar_clamps_values_above_full() {
    assert_eq!(StatBar::from_u32(0x8000_0000).to_u32(), STAT_MAX);
    assert_eq!(StatBar::from_u32(u32::MAX).to_u32(), STAT_MAX);
}

#[test]
fn every_request_names_its_user() {
    let bar = StatBar::from_u32(1);
    let reqs = [
        Request::GetCreditz(5),
        Request::SetCreditz(5, 1),
        Request::AddCreditz(5, 1),
        Request::SubtractCreditz(5, 1),
        Request::GetHappiness(5),
        Request::SetHappiness(5, bar),
        Request::GetBoredom(5),
        Request::SetBoredom(5, bar),
        Request::GetHunger(5),
        Request::SetHunger(5, bar),
    ];
    for r in reqs.iter() {
        assert_eq!(r.user_id(), 5);
    }
}

#[test]
fn columns_decode_one_row() {
    let s = MiuchizStats::from_columns(1, Some(10), Some(20), Some(30), Some(40)).unwrap();
    assert_eq!(s, MiuchizStats { creditz: 10, happiness: 20, hunger: 30, boredom: 40 });
}

#[test]
fn columns_need_exactly_one_full_row() {
    assert_eq!(MiuchizStats::from_columns(0, Some(1), Some(1), Some(1), Some(1)), None);
    assert_eq!(MiuchizStats::from_columns(2, Some(1), Some(1), Some(1), Some(1)), None);
    assert_eq!(MiuchizStats::from_columns(1, Some(1), None, Some(1), Some(1)), None);
}

#[test]
fn columns_out_of_range_read_as_zero() {
    assert_eq!(column_to_u32(-1), 0);
    assert_eq!(column_to_u32(4_294_967_296), 0);
    assert_eq!(column_to_u32(4_294_967_295), u32::MAX);
}

#[test]
fn record_round_trips_through_columns() {
    let stats = MiuchizStats { creditz: 9, happiness: 1, hunger: u32::MAX, boredom: 3 };
    let rec = MiuchizDBCharacter::from_stats(6, stats);
    assert_eq!(rec.citizen_id, 6);
    assert_eq!(rec.hunger.to_u32(), STAT_MAX);
    let back = rec.to_stats();
    assert_eq!(back, MiuchizStats { creditz: 9, happiness: 1, hunger: STAT_MAX, boredom: 3 });
}
