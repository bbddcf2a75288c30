use tween_accounts::instant::Instant;
use tween_accounts::user_phones::count_of;
use tween_accounts::user_phones::found_phone;
use tween_accounts::user_phones::found_phones;
use tween_accounts::user_phones::Condition;
use tween_accounts::user_phones::UserPhone;
use tween_accounts::user_phones::UserPhoneFilter;
use tween_accounts::user_phones::UserPhoneLookup;
use tween_accounts::users::model::User;

fn alice() -> User {
    User { id: 0x0102_0304, username: "alice".to_owned(), valid: true }
}

/// The user of [`row`].
fn owner() -> User {
    User { id: 1u128 << 120, username: "owner".to_owned(), valid: true }
}

fn row(last: u8) -> UserPhoneLookup {
    let mut id = [0u8; 16];
    id[15] = last;
    let mut user_id = [0u8; 16];
    user_id[0] = 1;
    UserPhoneLookup {
        id,
        user_id,
        phone_number: "+2348012345678".to_owned(),
        created_at: Instant { seconds: 10, nanos: 20 },
    }
}

#[test]
fn rows_become_phones() {
    let phone = UserPhone::from(row(9));
    assert_eq!(phone.id, 9);
    assert_eq!(phone.user_id, 1u128 << 120);
    assert_eq!(phone.phone_number, "+2348012345678");
    assert_eq!(phone.created_at, Instant { seconds: 10, nanos: 20 });
    assert_eq!(found_phone(Some(row(9))), Some(phone));
    assert_eq!(found_phone(None), None);
    // Phones of the same age stay in the order in which they were found.
    let owner = owner();
    let ids: Vec<u128> =
        found_phones(&owner, vec![row(3), row(1), row(2)]).iter().map(|p| p.id).collect();
    assert_eq!(ids, vec![3, 1, 2]);
}

#[test]
fn new_phones_read_back_as_written() {
    let mut bytes = [0u8; 16];
    bytes[14] = 1;
    let now = Instant { seconds: 1, nanos: 2 };
    let phone = UserPhone::new(bytes, now, &alice(), "+447400123456".to_owned());
    assert_eq!(phone.id, 256);
    assert_eq!(phone.user_id, alice().id);
    assert_eq!(phone.row().id, bytes);
    assert_eq!(UserPhone::from(phone.row()), phone);
}

#[test]
fn filters_become_conditions() {
    let user = alice();
    let mut uuid = [0u8; 16];
    uuid[12..].copy_from_slice(&[1, 2, 3, 4]);
    let none = UserPhoneFilter::new();
    assert!(none.user().is_none());
    assert!(none.phone_number().is_none());
    assert_eq!(none.conditions(), Vec::new());
    assert_eq!(none, UserPhoneFilter::default());
    let both = none.for_phone_number("+1").for_user(&user);
    assert_eq!(both, UserPhoneFilter::new().for_user(&user).for_phone_number("+1"));
    assert_eq!(both.user(), Some(&user));
    assert_eq!(both.phone_number(), Some("+1"));
    assert_eq!(
        both.conditions(),
        vec![Condition::UserIs(uuid), Condition::NumberIs("+1")]
    );
    assert_eq!(none.for_user(&user).conditions(), vec![Condition::UserIs(uuid)]);
    assert_eq!(
        none.for_phone_number("+1").for_phone_number("+2").conditions(),
        vec![Condition::NumberIs("+2")]
    );
}

#[test]
fn counts_that_do_not_fit_are_the_most_there_can_be() {
    assert_eq!(count_of(0), 0);
    assert_eq!(count_of(42), 42);
    assert_eq!(count_of(-1), usize::MAX);
    assert_eq!(count_of(i64::MIN), usize::MAX);
}

#[test]
fn lists_hold_the_phones_of_the_user_by_age() {
    let aged = |id: u8, seconds: i64| {
        let mut row = row(id);
        row.created_at = Instant { seconds, nanos: 0 };
        row
    };
    let mut foreign = aged(8, 15);
    foreign.user_id = [7; 16];
    let rows = vec![aged(9, 30), foreign, aged(7, 10), aged(3, 20), aged(4, 20)];
    let list = found_phones(&owner(), rows);
    assert_eq!(list.iter().map(|phone| phone.id).collect::<Vec<_>>(), vec![7, 3, 4, 9]);
    assert!(list.iter().all(|phone| phone.user_id == owner().id));
    // Four of the five rows pass the filter for the user.
    assert_eq!(list.len(), count_of(4));
    assert_eq!(found_phones(&alice(), vec![row(1)]), Vec::new());
}
