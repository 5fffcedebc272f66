use character::dispatch::{dispatch, finish, Decision};
use character::protocol::{Notification, Request, Response, StatBar};
use character::record::MiuchizDBCharacter;
use character::store::MemoryStore;

fn with_balance(store: &mut MemoryStore, id: u32, creditz: u32) {
    let (resp, _) = store.process_request(&Request::SetCreditz(id, creditz));
    assert_eq!(resp, Response::Success);
}

#[test]
fn set_add_get_creditz() {
    let mut store = MemoryStore::new();
    let (resp, note) = store.process_request(&Request::SetCreditz(42, 100));
    assert_eq!(resp, Response::Success);
    assert_eq!(note, Some(Notification::CreditzChanged { user_id: 42, new_value: 100 }));
    let (resp, note) = store.process_request(&Request::AddCreditz(42, 10));
    assert_eq!(resp, Response::Success);
    assert_eq!(note, Some(Notification::CreditzChanged { user_id: 42, new_value: 110 }));
    let (resp, note) = store.process_request(&Request::GetCreditz(42));
    assert_eq!(resp, Response::Creditz(110));
    assert_eq!(note, None);
}

#[test]
fn subtract_more_than_balance_is_refused() {
    let mut store = MemoryStore::new();
    with_balance(&mut store, 42, 5);
    let (resp, note) = store.process_request(&Request::SubtractCreditz(42, 10));
    assert_eq!(resp, Response::Error("Insufficient funds".to_string()));
    assert_eq!(note, None);
    assert_eq!(store.get(42).unwrap().creditz, 5);
}

#[test]
fn subtract_whole_balance() {
    let mut store = MemoryStore::new();
    with_balance(&mut store, 7, 5);
    let (resp, note) = store.process_request(&Request::SubtractCreditz(7, 5));
    assert_eq!(resp, Response::Success);
    assert_eq!(note, Some(Notification::CreditzChanged { user_id: 7, new_value: 0 }));
}

#[test]
fn add_past_largest_balance_is_refused() {
    let mut store = MemoryStore::new();
    with_balance(&mut store, 3, u32::MAX - 1);
    let (resp, note) = store.process_request(&Request::AddCreditz(3, 2));
    assert_eq!(resp, Response::Error("Creditz overflow".to_string()));
    assert_eq!(note, None);
    assert_eq!(store.get(3).unwrap().creditz, u32::MAX - 1);
    let (resp, _) = store.process_request(&Request::AddCreditz(3, 1));
    assert_eq!(resp, Response::Success);
    assert_eq!(store.get(3).unwrap().creditz, u32::MAX);
}

#[test]
fn first_touch_creates_a_zero_record() {
    let mut store = MemoryStore::new();
    assert_eq!(store.get(9), None);
    let (resp, note) = store.process_request(&Request::GetHunger(9));
    assert_eq!(resp, Response::Hunger(StatBar::from_u32(0)));
    assert_eq!(note, None);
    assert_eq!(store.get(9), Some(MiuchizDBCharacter::fresh(9)));
}

#[test]
fn set_and_get_each_bar() {
    let mut store = MemoryStore::new();
    let h = StatBar::from_u32(1000);
    let b = StatBar::from_u32(2000);
    let u = StatBar::from_u32(3000);
    assert_eq!(
        store.process_request(&Request::SetHappiness(1, h)),
        (Response::Success, Some(Notification::HappinessChanged { user_id: 1, new_value: h }))
    );
    assert_eq!(
        store.process_request(&Request::SetBoredom(1, b)),
        (Response::Success, Some(Notification::BoredomChanged { user_id: 1, new_value: b }))
    );
    assert_eq!(
        store.process_request(&Request::SetHunger(1, u)),
        (Response::Success, Some(Notification::HungerChanged { user_id: 1, new_value: u }))
    );
    assert_eq!(store.process_request(&Request::GetHappiness(1)), (Response::Happiness(h), None));
    assert_eq!(store.process_request(&Request::GetBoredom(1)), (Response::Boredom(b), None));
    assert_eq!(store.process_request(&Request::GetHunger(1)), (Response::Hunger(u), None));
    let rec = store.get(1).unwrap();
    assert_eq!(rec.creditz, 0);
    assert_eq!(rec.citizen_id, 1);
}

#[test]
fn users_are_independent() {
    let mut store = MemoryStore::new();
    with_balance(&mut store, 1, 10);
    with_balance(&mut store, 2, 20);
    store.process_request(&Request::AddCreditz(1, 5));
    assert_eq!(store.process_request(&Request::GetCreditz(1)).0, Response::Creditz(15));
    assert_eq!(store.process_request(&Request::GetCreditz(2)).0, Response::Creditz(20));
}

#[test]
fn serialized_changes_lose_no_update() {
    let mut store = MemoryStore::new();
    with_balance(&mut store, 42, 50);
    let reqs = [
        Request::AddCreditz(42, 30),
        Request::SubtractCreditz(42, 100),
        Request::SubtractCreditz(42, 20),
        Request::AddCreditz(42, 5),
        Request::SubtractCreditz(42, 65),
    ];
    let mut applied: i64 = 0;
    for r in reqs.iter() {
        let (resp, _) = store.process_request(r);
        if resp == Response::Success {
            applied += match r {
                Request::AddCreditz(_, a) => *a as i64,
                Request::SubtractCreditz(_, a) => -(*a as i64),
                _ => 0,
            };
        }
    }
    assert_eq!(applied, -50);
    assert_eq!(store.get(42).unwrap().creditz as i64, 50 + applied);
}

#[test]
fn store_failure_before_reading() {
    let d = dispatch(&Request::SetCreditz(4, 1), None);
    assert_eq!(d, Decision::Reply(Response::Error("store unavailable".to_string())));
    assert_eq!(finish(d, true), (Response::Error("store unavailable".to_string()), None));
}

#[test]
fn store_failure_on_write() {
    let rec = MiuchizDBCharacter::fresh(4);
    let d = dispatch(&Request::SetCreditz(4, 12), Some(rec));
    let n = Notification::CreditzChanged { user_id: 4, new_value: 12 };
    assert_eq!(d, Decision::Write(MiuchizDBCharacter { creditz: 12, ..rec }, n));
    assert_eq!(finish(d.clone(), false), (Response::Error("store unavailable".to_string()), None));
    assert_eq!(finish(d, true), (Response::Success, Some(n)));
}

#[test]
fn reads_decide_a_reply() {
    let rec = MiuchizDBCharacter { creditz: 77, ..MiuchizDBCharacter::fresh(8) };
    assert_eq!(dispatch(&Request::GetCreditz(8), Some(rec)), Decision::Reply(Response::Creditz(77)));
}
