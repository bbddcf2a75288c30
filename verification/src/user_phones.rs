//! Phone numbers owned by a user.

use crate::ids::ulid_from_bytes;
use crate::ids::ulid_from_uuid;
use crate::ids::uuid_from_ulid;
use crate::instant::Instant;
use crate::users::model::User;
use vstd::prelude::*;

verus! {

/// A phone number of a user.
#[derive(Debug, PartialEq, Eq)]
pub struct UserPhone {
    pub id: u128,
    pub user_id: u128,
    /// The number, in E.164.
    pub phone_number: String,
    pub created_at: Instant,
}

/// The database representation of a [`UserPhone`]: its identifiers are UUIDs.
#[derive(Debug)]
pub struct UserPhoneLookup {
    pub id: [u8; 16],
    pub user_id: [u8; 16],
    pub phone_number: String,
    pub created_at: Instant,
}

/// The phone that a row stands for.
pub open spec fn phone_of(lookup: UserPhoneLookup) -> UserPhone {
    UserPhone {
        id: crate::ids::big_endian(lookup.id@) as u128,
        user_id: crate::ids::big_endian(lookup.user_id@) as u128,
        phone_number: lookup.phone_number,
        created_at: lookup.created_at,
    }
}

impl vstd::std_specs::convert::FromSpecImpl<UserPhoneLookup> for UserPhone {
    open spec fn obeys_from_spec() -> bool {
        true
    }

    open spec fn from_spec(lookup: UserPhoneLookup) -> UserPhone {
        phone_of(lookup)
    }
}

impl From<UserPhoneLookup> for UserPhone {
    fn from(lookup: UserPhoneLookup) -> (r: Self) {
        UserPhone {
            id: ulid_from_uuid(lookup.id),
            user_id: ulid_from_uuid(lookup.user_id),
            phone_number: lookup.phone_number,
            created_at: lookup.created_at,
        }
    }
}

/// The phone that a query found, if it found one.
pub fn found_phone(row: Option<UserPhoneLookup>) -> (r: Option<UserPhone>)
    ensures
        r == match row {
            Some(lookup) => Some(phone_of(lookup)),
            None => None,
        },
{
    match row {
        Some(lookup) => Some(UserPhone::from(lookup)),
        None => None,
    }
}

impl UserPhone {
    /// A phone of `user`, created at `created_at`, whose identifier is made of random
    /// bytes.
    pub fn new(bytes: [u8; 16], created_at: Instant, user: &User, phone_number: String) -> (r: Self)
        ensures
            r.id as int == crate::ids::big_endian(bytes@),
            r.user_id == user.id,
            r.phone_number == phone_number,
            r.created_at == created_at,
    {
        UserPhone { id: ulid_from_bytes(bytes), user_id: user.id, phone_number, created_at }
    }

    /// The row that stands for the phone. What is read of it is the phone again.
    pub fn row(&self) -> (r: UserPhoneLookup)
        ensures
            phone_of(r) == *self,
    {
        UserPhoneLookup {
            id: uuid_from_ulid(self.id),
            user_id: uuid_from_ulid(self.user_id),
            phone_number: self.phone_number.clone(),
            created_at: self.created_at,
        }
    }
}

/// A filter for phones
#[derive(Clone, Copy, Debug, Default, PartialEq, Eq)]
pub struct UserPhoneFilter<'a> {
    user: Option<&'a User>,
    phone_number: Option<&'a str>,
}

/// The contents of a [`UserPhoneFilter`].
pub struct FilterView {
    pub user: Option<User>,
    pub phone_number: Option<Seq<char>>,
}

impl<'a> View for UserPhoneFilter<'a> {
    type V = FilterView;

    closed spec fn view(&self) -> FilterView {
        FilterView {
            user: match self.user {
                Some(user) => Some(*user),
                None => None,
            },
            phone_number: match self.phone_number {
                Some(number) => Some(number@),
                None => None,
            },
        }
    }
}

impl FilterView {
    /// Whether a phone passes the filter.
    pub open spec fn admits(self, phone: UserPhone) -> bool {
        &&& self.user matches Some(user) ==> phone.user_id == user.id
        &&& self.phone_number matches Some(number) ==> phone.phone_number@ == number
    }
}

impl<'a> UserPhoneFilter<'a> {
    /// Create a new [`UserPhoneFilter`]
    #[must_use]
    pub fn new() -> (r: Self)
        ensures
            r@ == (FilterView { user: None, phone_number: None }),
    {
        UserPhoneFilter { user: None, phone_number: None }
    }

    /// Filter by [`User`]
    #[must_use]
    pub fn for_user(self, user: &'a User) -> (r: Self)
        ensures
            r@ == (FilterView { user: Some(*user), phone_number: self@.phone_number }),
    {
        UserPhoneFilter { user: Some(user), phone_number: self.phone_number }
    }

    /// Filter by phone number, in E.164
    #[must_use]
    pub fn for_phone_number(self, phone_number: &'a str) -> (r: Self)
        ensures
            r@ == (FilterView { user: self@.user, phone_number: Some(phone_number@) }),
    {
        UserPhoneFilter { user: self.user, phone_number: Some(phone_number) }
    }

    /// Get the [`User`] to filter by
    pub fn user(&self) -> (r: Option<&User>)
        ensures
            match r {
                Some(user) => self@.user == Some(*user),
                None => self@.user is None,
            },
    {
        self.user
    }

    /// Get the phone number to filter by
    pub fn phone_number(&self) -> (r: Option<&str>)
        ensures
            match r {
                Some(number) => self@.phone_number == Some(number@),
                None => self@.phone_number is None,
            },
    {
        self.phone_number
    }

    /// What a row has to meet to be counted.
    pub fn conditions(&self) -> (r: Vec<Condition<'a>>)
        ensures
            conditions_view(r@) == self@.conditions(),
    {
        let mut r: Vec<Condition<'a>> = Vec::new();
        if let Some(user) = self.user {
            r.push(Condition::UserIs(uuid_from_ulid(user.id)));
        }
        if let Some(number) = self.phone_number {
            r.push(Condition::NumberIs(number));
        }
        proof {
            assert(conditions_view(r@) =~= self@.conditions());
        }
        r
    }
}

/// A condition on a row.
#[derive(Debug, PartialEq, Eq)]
pub enum Condition<'a> {
    /// The user has the identifier that this UUID stands for.
    UserIs([u8; 16]),
    NumberIs(&'a str),
}

/// The contents of a [`Condition`].
pub enum ConditionView {
    UserIs(int),
    NumberIs(Seq<char>),
}

impl<'a> View for Condition<'a> {
    type V = ConditionView;

    open spec fn view(&self) -> ConditionView {
        match self {
            Condition::UserIs(uuid) => ConditionView::UserIs(crate::ids::big_endian(uuid@)),
            Condition::NumberIs(number) => ConditionView::NumberIs(number@),
        }
    }
}

/// The contents of conditions.
pub open spec fn conditions_view<'a>(conditions: Seq<Condition<'a>>) -> Seq<ConditionView> {
    conditions.map_values(|condition: Condition<'a>| condition@)
}

impl ConditionView {
    /// Whether a phone meets the condition.
    pub open spec fn holds(self, phone: UserPhone) -> bool {
        match self {
            ConditionView::UserIs(id) => phone.user_id as int == id,
            ConditionView::NumberIs(number) => phone.phone_number@ == number,
        }
    }
}

impl FilterView {
    /// The conditions of the filter.
    pub open spec fn conditions(self) -> Seq<ConditionView> {
        let by_user = match self.user {
            Some(user) => seq![ConditionView::UserIs(user.id as int)],
            None => Seq::empty(),
        };
        let by_number = match self.phone_number {
            Some(number) => seq![ConditionView::NumberIs(number)],
            None => Seq::empty(),
        };
        by_user + by_number
    }
}

/// What is told of the count of a query: as much as fits.
pub open spec fn told_count(count: int) -> int {
    if 0 <= count <= usize::MAX {
        count
    } else {
        usize::MAX as int
    }
}

/// The number of phones, given the count of a query.
pub fn count_of(count: i64) -> (r: usize)
    ensures
        r == told_count(count as int),
{
    if count < 0 {
        return usize::MAX;
    }
    if count as u64 > usize::MAX as u64 {
        return usize::MAX;
    }
    count as usize
}

/// The phones that pass a filter.
pub open spec fn selected(stored: Seq<UserPhone>, filter: FilterView) -> Seq<UserPhone> {
    stored.filter(|phone: UserPhone| filter.admits(phone))
}

/// The phones that rows stand for.
pub open spec fn phones_in(rows: Seq<UserPhoneLookup>) -> Seq<UserPhone> {
    rows.map_values(|lookup: UserPhoneLookup| phone_of(lookup))
}

/// The filter for the phones of a user.
pub open spec fn by_user(user: User) -> FilterView {
    FilterView { user: Some(user), phone_number: None }
}

/// Whether the oldest phones come first.
pub open spec fn oldest_first(list: Seq<UserPhone>) -> bool {
    forall|i: int, j: int|
        0 <= i <= j < list.len() ==> (#[trigger] list[i]).created_at.since_epoch() <= (
        #[trigger] list[j]).created_at.since_epoch()
}

/// Whether a list holds the phones of a user: all of those that are stored and no others,
/// each as often as it is stored, the oldest first.
pub open spec fn lists_phones_of(
    list: Seq<UserPhone>,
    stored: Seq<UserPhone>,
    user: User,
) -> bool {
    &&& list.to_multiset() == selected(stored, by_user(user)).to_multiset()
    &&& oldest_first(list)
}

/// Puts a phone into a list behind those that are not younger.
fn add_by_age(list: &mut Vec<UserPhone>, phone: UserPhone)
    requires
        oldest_first(old(list)@),
    ensures
        oldest_first(final(list)@),
        final(list)@.to_multiset() == old(list)@.to_multiset().insert(phone),
{
    let mut at: usize = list.len();
    while at > 0 && list[at - 1].created_at.is_after(&phone.created_at)
        invariant
            0 <= at <= list@.len(),
            forall|i: int|
                at <= i < list@.len() ==> (#[trigger] list@[i]).created_at.since_epoch()
                    > phone.created_at.since_epoch(),
        decreases at,
    {
        at = at - 1;
    }
    let ghost before = list@;
    let ghost added = phone;
    list.insert(at, phone);
    proof {
        vstd::seq_lib::to_multiset_insert(before, at as int, added);
        assert(list@ == before.insert(at as int, added));
        assert forall|i: int, j: int| 0 <= i <= j < list@.len() implies (
        #[trigger] list@[i]).created_at.since_epoch() <= (
        #[trigger] list@[j]).created_at.since_epoch() by {
            let i_before = if i < at {
                i
            } else {
                i - 1
            };
            let j_before = if j < at {
                j
            } else {
                j - 1
            };
            if i == at && j > at {
                assert(list@[j] == before[j_before]);
            } else if j == at && i < at {
                assert(before[i] == list@[i]);
                assert(before[i].created_at.since_epoch() <= before[at
                    - 1].created_at.since_epoch());
            } else if i != at && j != at {
                assert(list@[i] == before[i_before]);
                assert(list@[j] == before[j_before]);
            }
        }
    }
}

/// All the numbers owned by a user, among the rows that a query found, the oldest first.
pub fn found_phones(user: &User, rows: Vec<UserPhoneLookup>) -> (r: Vec<UserPhone>)
    ensures
        lists_phones_of(r@, phones_in(rows@), *user),
{
    let ghost all = rows@;
    let ghost filter = by_user(*user);
    let mut r: Vec<UserPhone> = Vec::new();
    assert(phones_in(all.take(0)) =~= Seq::<UserPhone>::empty());
    assert(selected(phones_in(all.take(0)), filter) =~= Seq::<UserPhone>::empty()) by {
        reveal(Seq::filter);
    }
    for row in it: rows
        invariant
            it.seq() == all,
            filter == by_user(*user),
            oldest_first(r@),
            r@.to_multiset() == selected(
                phones_in(all.take(it.index() as int)),
                filter,
            ).to_multiset(),
    {
        let phone = UserPhone::from(row);
        proof {
            let i = it.index() as int;
            let front = phones_in(all.take(i));
            assert(phones_in(all.take(i + 1)) =~= front.push(phone));
            front.lemma_filter_push(phone, |phone: UserPhone| filter.admits(phone));
            vstd::seq_lib::to_multiset_build(selected(front, filter), phone);
        }
        if phone.user_id == user.id {
            add_by_age(&mut r, phone);
        }
    }
    assert(all.take(all.len() as int) =~= all);
    r
}

proof fn selected_are_stored_and_admitted(stored: Seq<UserPhone>, filter: FilterView)
    ensures
        forall|phone: UserPhone| #[trigger]
            selected(stored, filter).contains(phone) <==> stored.contains(phone)
                && filter.admits(phone),
        stored.no_duplicates() ==> selected(stored, filter).no_duplicates(),
    decreases stored.len(),
{
    reveal(Seq::filter);
    if stored.len() > 0 {
        let front = stored.drop_last();
        let last = stored.last();
        selected_are_stored_and_admitted(front, filter);
        let before = selected(front, filter);
        let after = selected(stored, filter);
        assert(stored =~= front.push(last));
        assert forall|phone: UserPhone| #[trigger]
            after.contains(phone) <==> stored.contains(phone) && filter.admits(phone) by {
            assert(stored.contains(phone) <==> front.contains(phone) || phone == last) by {
                if phone == last {
                    assert(stored[stored.len() - 1] == phone);
                }
                if front.contains(phone) {
                    let i = choose|i: int| 0 <= i < front.len() && front[i] == phone;
                    assert(stored[i] == phone);
                }
                if stored.contains(phone) && phone != last {
                    let i = choose|i: int| 0 <= i < stored.len() && stored[i] == phone;
                    assert(front[i] == phone);
                }
            }
            if filter.admits(last) {
                assert(after == before.push(last));
                if phone == last {
                    assert(after[after.len() - 1] == phone);
                }
                if before.contains(phone) {
                    let i = choose|i: int| 0 <= i < before.len() && before[i] == phone;
                    assert(after[i] == phone);
                }
                if after.contains(phone) && phone != last {
                    let i = choose|i: int| 0 <= i < after.len() && after[i] == phone;
                    assert(before[i] == phone);
                }
            } else {
                assert(after == before);
            }
        }
        if stored.no_duplicates() && filter.admits(last) {
            assert(after == before.push(last));
            assert(!before.contains(last)) by {
                if front.contains(last) {
                    let i = choose|i: int| 0 <= i < front.len() && front[i] == last;
                    assert(stored[i] == stored[stored.len() - 1]);
                }
            }
            assert(front.no_duplicates());
        }
    }
}

/// The list of a user's phones holds all and only that user's, and none of them twice
/// where none is stored twice.
pub proof fn law_lists_hold_the_phones_of_the_user(
    list: Seq<UserPhone>,
    stored: Seq<UserPhone>,
    user: User,
)
    requires
        lists_phones_of(list, stored, user),
    ensures
        forall|phone: UserPhone| #[trigger]
            list.contains(phone) <==> stored.contains(phone) && phone.user_id == user.id,
        stored.no_duplicates() ==> list.no_duplicates(),
{
    let chosen = selected(stored, by_user(user));
    selected_are_stored_and_admitted(stored, by_user(user));
    list.to_multiset_ensures();
    chosen.to_multiset_ensures();
    assert forall|phone: UserPhone| #[trigger]
        list.contains(phone) <==> stored.contains(phone) && phone.user_id == user.id by {
        assert(list.contains(phone) <==> list.to_multiset().count(phone) > 0);
        assert(chosen.contains(phone) <==> chosen.to_multiset().count(phone) > 0);
    }
    if stored.no_duplicates() {
        chosen.lemma_multiset_has_no_duplicates();
        list.lemma_multiset_has_no_duplicates_conv();
    }
}

/// The list of a user's phones is as long as the count of those that the filter for the
/// user lets pass.
pub proof fn law_counts_agree_with_lists(
    list: Seq<UserPhone>,
    stored: Seq<UserPhone>,
    user: User,
)
    requires
        lists_phones_of(list, stored, user),
        list.len() <= usize::MAX,
    ensures
        told_count(selected(stored, by_user(user)).len() as int) == list.len(),
{
    list.to_multiset_ensures();
    selected(stored, by_user(user)).to_multiset_ensures();
}

/// It makes no difference to the list what rows of other users a query found besides, nor
/// in which order: rows that hold what is stored of the user give the list of the user.
pub proof fn law_lists_rest_on_the_rows_of_the_user(
    list: Seq<UserPhone>,
    rows: Seq<UserPhoneLookup>,
    stored: Seq<UserPhone>,
    user: User,
)
    requires
        lists_phones_of(list, phones_in(rows), user),
        selected(phones_in(rows), by_user(user)).to_multiset() == selected(
            stored,
            by_user(user),
        ).to_multiset(),
    ensures
        lists_phones_of(list, stored, user),
{
}

/// The phones that meet all conditions of a filter are those that pass it.
pub proof fn law_conditions_select_what_the_filter_admits(filter: FilterView, phone: UserPhone)
    ensures
        filter.admits(phone) <==> forall|i: int|
            0 <= i < filter.conditions().len() ==> (#[trigger] filter.conditions()[i]).holds(phone),
{
    let conditions = filter.conditions();
    if forall|i: int| 0 <= i < conditions.len() ==> (#[trigger] conditions[i]).holds(phone) {
        if filter.user is Some {
            assert(conditions[0].holds(phone));
        }
        if filter.phone_number is Some {
            assert(conditions[conditions.len() - 1].holds(phone));
        }
    }
}

/// A filter without conditions lets every phone pass.
pub proof fn law_the_empty_filter_admits_all(phone: UserPhone)
    ensures
        (FilterView { user: None, phone_number: None }).admits(phone),
{
}

/// A phone that is stored is found by the user that it was added for, and by its
/// number.
pub proof fn law_added_phones_are_found(phone: UserPhone, user: User)
    requires
        phone.user_id == user.id,
    ensures
        (FilterView { user: Some(user), phone_number: Some(phone.phone_number@) }).admits(phone),
        (FilterView { user: Some(user), phone_number: None }).admits(phone),
        (FilterView { user: None, phone_number: Some(phone.phone_number@) }).admits(phone),
{
}

/// A phone that is read of a row is the row's: its identifiers have the bytes of the UUIDs,
/// most significant first, and its number and age are those of the row.
pub proof fn law_phones_are_read_as_they_are_stored(lookup: UserPhoneLookup)
    ensures
        phone_of(lookup).id as int == crate::ids::big_endian(lookup.id@),
        phone_of(lookup).user_id as int == crate::ids::big_endian(lookup.user_id@),
        phone_of(lookup).phone_number == lookup.phone_number,
        phone_of(lookup).created_at == lookup.created_at,
{
    big_endian_fits(lookup.id@);
    big_endian_fits(lookup.user_id@);
}

proof fn big_endian_fits(bytes: Seq<u8>)
    requires
        bytes.len() == 16,
    ensures
        0 <= crate::ids::big_endian(bytes) <= u128::MAX,
{
    big_endian_is_bounded(bytes);
    assert(vstd::arithmetic::power::pow(256, 16) == u128::MAX + 1) by {
        reveal(vstd::arithmetic::power::pow);
        reveal_with_fuel(vstd::arithmetic::power::pow, 17);
    }
}

proof fn big_endian_is_bounded(bytes: Seq<u8>)
    ensures
        0 <= crate::ids::big_endian(bytes) < vstd::arithmetic::power::pow(256, bytes.len()),
    decreases bytes.len(),
{
    reveal(vstd::arithmetic::power::pow);
    if bytes.len() > 0 {
        big_endian_is_bounded(bytes.drop_last());
    }
}

/// A filter goes by the user and by the number, each only where it is set.
pub proof fn law_filters_go_by_what_is_set(filter: FilterView, phone: UserPhone)
    ensures
        filter.admits(phone) <==> {
            &&& filter.user is None || filter.user->0.id == phone.user_id
            &&& filter.phone_number is None || filter.phone_number->0 == phone.phone_number@
        },
{
}

/// The conditions of a filter are one for the user, if it is set, and then one for the
/// number, if it is set.
pub proof fn law_conditions_are_what_is_set(filter: FilterView)
    ensures
        ({
            let conditions = filter.conditions();
            &&& conditions.len() == (if filter.user is Some {
                1int
            } else {
                0
            }) + (if filter.phone_number is Some {
                1int
            } else {
                0
            })
            &&& filter.user matches Some(user) ==> conditions[0] == ConditionView::UserIs(
                user.id as int,
            )
            &&& filter.phone_number matches Some(number) ==> conditions.last()
                == ConditionView::NumberIs(number)
        }),
{
}

/// A phone meets the condition on the user by its owner, and that on the number by its
/// number; a condition is viewed as it is.
pub proof fn law_conditions_hold_of_the_phone<'a>(condition: Condition<'a>, phone: UserPhone)
    ensures
        condition matches Condition::UserIs(uuid) ==> {
            &&& condition@ == ConditionView::UserIs(crate::ids::big_endian(uuid@))
            &&& condition@.holds(phone) <==> phone.user_id as int == crate::ids::big_endian(uuid@)
        },
        condition matches Condition::NumberIs(number) ==> {
            &&& condition@ == ConditionView::NumberIs(number@)
            &&& condition@.holds(phone) <==> phone.phone_number@ == number@
        },
{
}

/// A count is told as it is, wherever a count of that size can be told; otherwise the
/// largest that can be is told.
pub proof fn law_counts_are_told_as_they_are(count: int)
    ensures
        0 <= count <= usize::MAX ==> told_count(count) == count,
        count < 0 || count > usize::MAX ==> told_count(count) == usize::MAX,
{
}

/// In the list of a user's phones none stands before one that was created earlier, and each
/// phone of the user stands in it as often as it is stored.
pub proof fn law_lists_put_the_oldest_first(
    list: Seq<UserPhone>,
    stored: Seq<UserPhone>,
    user: User,
    i: int,
    j: int,
    phone: UserPhone,
)
    requires
        lists_phones_of(list, stored, user),
    ensures
        0 <= i < j < list.len() ==> {
            let a = list[i].created_at;
            let b = list[j].created_at;
            a.seconds * 1_000_000_000 + a.nanos <= b.seconds * 1_000_000_000 + b.nanos
        },
        list.to_multiset().count(phone) == if phone.user_id == user.id {
            stored.to_multiset().count(phone)
        } else {
            0
        },
{
    selected_as_often(stored, by_user(user), phone);
}

proof fn selected_as_often(stored: Seq<UserPhone>, filter: FilterView, phone: UserPhone)
    ensures
        selected(stored, filter).to_multiset().count(phone) == if filter.admits(phone) {
            stored.to_multiset().count(phone)
        } else {
            0
        },
    decreases stored.len(),
{
    broadcast use vstd::seq_lib::group_to_multiset_ensures;

    reveal(Seq::filter);
    if stored.len() > 0 {
        let front = stored.drop_last();
        selected_as_often(front, filter, phone);
        assert(stored =~= front.push(stored.last()));
        vstd::seq_lib::to_multiset_build(front, stored.last());
        vstd::seq_lib::to_multiset_build(selected(front, filter), stored.last());
    } else {
        assert(selected(stored, filter) =~= stored);
        stored.to_multiset_ensures();
        assert(!stored.contains(phone));
        assert(stored.to_multiset().count(phone) == 0);
    }
}

/// The phones of rows are those of each row, in the same order.
pub proof fn law_rows_are_read_one_by_one(rows: Seq<UserPhoneLookup>, i: int)
    ensures
        phones_in(rows).len() == rows.len(),
        0 <= i < rows.len() ==> phones_in(rows)[i] == phone_of(rows[i]),
{
}

} // verus!
