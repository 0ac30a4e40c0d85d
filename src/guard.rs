//! Deletions that keep the register consistent: a member with billing
//! history stays, and a household without members goes with its address.
use crate::database::{address_household, Database};
use crate::models::{
    copy_address, copy_household, copy_member, Address, DbError, Household, Invoice, Member,
};
use vstd::prelude::*;

verus! {

/// Some line of some invoice bills member `id`.
pub open spec fn member_has_lines(invoices: Seq<Invoice>, id: i64) -> bool {
    exists|i: int, j: int|
        0 <= i < invoices.len() && 0 <= j < invoices[i].rivit@.len()
            && #[trigger] invoices[i].rivit@[j].jasen_id == id
}

/// Member `m` lives at an address of household `h`.
pub open spec fn lives_in(addresses: Seq<Address>, h: i64, m: Member) -> bool {
    address_household(addresses, m.osoite_id) == Some(h)
}

/// Some member of `ms` lives at an address of household `h`.
pub open spec fn has_residents(ms: Seq<Member>, addresses: Seq<Address>, h: i64) -> bool {
    exists|i: int| 0 <= i < ms.len() && lives_in(addresses, h, #[trigger] ms[i])
}

/// How many of the first `k` of `ms` live in household `h`.
pub open spec fn resident_count(ms: Seq<Member>, addresses: Seq<Address>, h: i64, k: int) -> nat
    decreases k,
{
    if k <= 0 {
        0
    } else {
        resident_count(ms, addresses, h, k - 1) + if lives_in(addresses, h, ms[k - 1]) {
            1nat
        } else {
            0nat
        }
    }
}

/// Where no member lives in household `h`, the count is zero, and the
/// other way round.
proof fn lemma_resident_count_zero(ms: Seq<Member>, addresses: Seq<Address>, h: i64, k: int)
    requires
        0 <= k <= ms.len(),
    ensures
        resident_count(ms, addresses, h, k) == 0 <==> forall|j: int|
            0 <= j < k ==> !lives_in(addresses, h, #[trigger] ms[j]),
    decreases k,
{
    if k > 0 {
        lemma_resident_count_zero(ms, addresses, h, k - 1);
    }
}

/// Some member of household `h` has invoice lines.
pub open spec fn household_has_lines(db: Database, h: i64) -> bool {
    exists|i: int|
        0 <= i < db.members@.len() && lives_in(db.addresses@, h, #[trigger] db.members@[i])
            && member_has_lines(db.invoices@, db.members@[i].id)
}

/// The first member of `ms` with id `id`.
pub open spec fn find_member(ms: Seq<Member>, id: i64) -> Option<Member>
    decreases ms.len(),
{
    if ms.len() == 0 {
        None
    } else if ms[0].id == id {
        Some(ms[0])
    } else {
        find_member(ms.subrange(1, ms.len() as int), id)
    }
}

/// Some household of `hs` has id `h`.
pub open spec fn household_exists(hs: Seq<Household>, h: i64) -> bool {
    exists|i: int| 0 <= i < hs.len() && #[trigger] hs[i].id == h
}

/// Deleting member `id` took `old` to `new`: the member is gone; where no
/// member is left in the household that the member lived in, that
/// household and its addresses are gone too; nothing else changed.
pub open spec fn member_deleted(old: Database, id: i64, new: Database) -> bool {
    let m = find_member(old.members@, id)->Some_0;
    let h = address_household(old.addresses@, m.osoite_id);
    &&& new.members@ == members_without(old.members@, id)
    &&& new.invoices@ == old.invoices@
    &&& new.membership_fees@ == old.membership_fees@
    &&& new.organization == old.organization
    &&& if h is Some && !has_residents(new.members@, old.addresses@, h->Some_0) {
        &&& new.addresses@ == addresses_without(old.addresses@, h->Some_0)
        &&& new.households@ == households_without(old.households@, h->Some_0)
    } else {
        &&& new.addresses@ == old.addresses@
        &&& new.households@ == old.households@
    }
}

/// Deleting household `h` took `old` to `new`: its members, its addresses
/// and the household are gone; nothing else changed.
pub open spec fn household_deleted(old: Database, h: i64, new: Database) -> bool {
    &&& new.members@ == members_outside(old.members@, old.addresses@, h)
    &&& new.addresses@ == addresses_without(old.addresses@, h)
    &&& new.households@ == households_without(old.households@, h)
    &&& new.invoices@ == old.invoices@
    &&& new.membership_fees@ == old.membership_fees@
    &&& new.organization == old.organization
}

/// The members of `ms` other than `id`.
pub open spec fn members_without(ms: Seq<Member>, id: i64) -> Seq<Member> {
    ms.filter(|m: Member| m.id != id)
}

/// The members of `ms` that do not live in household `h`.
pub open spec fn members_outside(ms: Seq<Member>, addresses: Seq<Address>, h: i64) -> Seq<Member> {
    ms.filter(|m: Member| !lives_in(addresses, h, m))
}

/// The addresses of `addresses` not owned by household `h`.
pub open spec fn addresses_without(addresses: Seq<Address>, h: i64) -> Seq<Address> {
    addresses.filter(|a: Address| a.talous_id != h)
}

/// The households of `hs` other than `h`.
pub open spec fn households_without(hs: Seq<Household>, h: i64) -> Seq<Household> {
    hs.filter(|x: Household| x.id != h)
}

impl Database {
    /// Whether some invoice line bills member `id`.
    pub fn member_has_invoice_lines(&self, id: i64) -> (r: bool)
        ensures
            r == member_has_lines(self.invoices@, id),
    {
        let mut i: usize = 0;
        while i < self.invoices.len()
            invariant
                i <= self.invoices@.len(),
                forall|a: int, b: int|
                    0 <= a < i && 0 <= b < self.invoices@[a].rivit@.len() ==> #[trigger] self.invoices@[a].rivit@[b].jasen_id != id,
            decreases self.invoices@.len() - i,
        {
            let rivit = &self.invoices[i].rivit;
            let mut j: usize = 0;
            while j < rivit.len()
                invariant
                    i < self.invoices@.len(),
                    rivit@ == self.invoices@[i as int].rivit@,
                    j <= rivit@.len(),
                    forall|b: int| 0 <= b < j ==> #[trigger] rivit@[b].jasen_id != id,
                decreases rivit@.len() - j,
            {
                if rivit[j].jasen_id == id {
                    assert(self.invoices@[i as int].rivit@[j as int].jasen_id == id);
                    return true;
                }
                j = j + 1;
            }
            i = i + 1;
        }
        false
    }

    /// How many members live at an address of household `h`.
    pub fn get_household_member_count(&self, h: i64) -> (r: u64)
        ensures
            r == resident_count(self.members@, self.addresses@, h, self.members@.len() as int),
            r == 0 <==> !has_residents(self.members@, self.addresses@, h),
    {
        let mut n: u64 = 0;
        let mut i: usize = 0;
        while i < self.members.len()
            invariant
                i <= self.members@.len(),
                n <= i,
                n == resident_count(self.members@, self.addresses@, h, i as int),
            decreases self.members@.len() - i,
        {
            if let Some(mh) = self.household_of_address(self.members[i].osoite_id) {
                if mh == h {
                    n = n + 1;
                }
            }
            i = i + 1;
        }
        proof {
            lemma_resident_count_zero(self.members@, self.addresses@, h, i as int);
        }
        n
    }

    /// The members other than `id`.
    fn keep_members_except(&self, id: i64) -> (r: Vec<Member>)
        ensures
            r@ == members_without(self.members@, id),
    {
        let mut r: Vec<Member> = Vec::new();
        let mut i: usize = 0;
        let ghost p = |m: Member| m.id != id;
        while i < self.members.len()
            invariant
                i <= self.members@.len(),
                p == (|m: Member| m.id != id),
                r@ == self.members@.subrange(0, i as int).filter(p),
            decreases self.members@.len() - i,
        {
            proof {
                reveal(Seq::filter);
                assert(self.members@.subrange(0, i + 1).drop_last() =~= self.members@.subrange(0, i as int));
            }
            if self.members[i].id != id {
                r.push(copy_member(&self.members[i]));
            }
            i = i + 1;
        }
        assert(self.members@.subrange(0, i as int) =~= self.members@);
        r
    }

    /// The address of the first member with id `id`.
    pub(crate) fn member_address(&self, id: i64) -> (r: Option<i64>)
        ensures
            match find_member(self.members@, id) {
                Some(m) => r == Some(m.osoite_id),
                None => r is None,
            },
    {
        let mut i: usize = 0;
        assert(self.members@.subrange(0, self.members@.len() as int) =~= self.members@);
        while i < self.members.len()
            invariant
                i <= self.members@.len(),
                find_member(self.members@, id) == find_member(
                    self.members@.subrange(i as int, self.members@.len() as int),
                    id,
                ),
            decreases self.members@.len() - i,
        {
            let ghost rest = self.members@.subrange(i as int, self.members@.len() as int);
            assert(rest[0] == self.members@[i as int]);
            assert(rest.subrange(1, rest.len() as int) =~= self.members@.subrange(
                i + 1,
                self.members@.len() as int,
            ));
            if self.members[i].id == id {
                assert(find_member(rest, id) == Some(self.members@[i as int]));
                return Some(self.members[i].osoite_id);
            }
            i = i + 1;
        }
        None
    }

    /// The members that do not live in household `h`.
    fn keep_members_outside(&self, h: i64) -> (r: Vec<Member>)
        ensures
            r@ == members_outside(self.members@, self.addresses@, h),
    {
        let mut r: Vec<Member> = Vec::new();
        let mut i: usize = 0;
        let ghost p = |m: Member| !lives_in(self.addresses@, h, m);
        while i < self.members.len()
            invariant
                i <= self.members@.len(),
                p == (|m: Member| !lives_in(self.addresses@, h, m)),
                r@ == self.members@.subrange(0, i as int).filter(p),
            decreases self.members@.len() - i,
        {
            proof {
                reveal(Seq::filter);
                assert(self.members@.subrange(0, i + 1).drop_last() =~= self.members@.subrange(0, i as int));
            }
            let inside = match self.household_of_address(self.members[i].osoite_id) {
                Some(mh) => mh == h,
                None => false,
            };
            if !inside {
                r.push(copy_member(&self.members[i]));
            }
            i = i + 1;
        }
        assert(self.members@.subrange(0, i as int) =~= self.members@);
        r
    }

    /// The addresses not owned by household `h`.
    fn keep_addresses_except(&self, h: i64) -> (r: Vec<Address>)
        ensures
            r@ == addresses_without(self.addresses@, h),
    {
        let mut r: Vec<Address> = Vec::new();
        let mut i: usize = 0;
        let ghost p = |a: Address| a.talous_id != h;
        while i < self.addresses.len()
            invariant
                i <= self.addresses@.len(),
                p == (|a: Address| a.talous_id != h),
                r@ == self.addresses@.subrange(0, i as int).filter(p),
            decreases self.addresses@.len() - i,
        {
            proof {
                reveal(Seq::filter);
                assert(self.addresses@.subrange(0, i + 1).drop_last() =~= self.addresses@.subrange(0, i as int));
            }
            if self.addresses[i].talous_id != h {
                r.push(copy_address(&self.addresses[i]));
            }
            i = i + 1;
        }
        assert(self.addresses@.subrange(0, i as int) =~= self.addresses@);
        r
    }

    /// The households other than `h`.
    fn keep_households_except(&self, h: i64) -> (r: Vec<Household>)
        ensures
            r@ == households_without(self.households@, h),
    {
        let mut r: Vec<Household> = Vec::new();
        let mut i: usize = 0;
        let ghost p = |x: Household| x.id != h;
        while i < self.households.len()
            invariant
                i <= self.households@.len(),
                p == (|x: Household| x.id != h),
                r@ == self.households@.subrange(0, i as int).filter(p),
            decreases self.households@.len() - i,
        {
            proof {
                reveal(Seq::filter);
                assert(self.households@.subrange(0, i + 1).drop_last() =~= self.households@.subrange(0, i as int));
            }
            if self.households[i].id != h {
                r.push(copy_household(&self.households[i]));
            }
            i = i + 1;
        }
        assert(self.households@.subrange(0, i as int) =~= self.households@);
        r
    }

    /// Whether a household with id `h` exists.
    fn has_household(&self, h: i64) -> (r: bool)
        ensures
            r == household_exists(self.households@, h),
    {
        let mut i: usize = 0;
        while i < self.households.len()
            invariant
                i <= self.households@.len(),
                forall|j: int| 0 <= j < i ==> #[trigger] self.households@[j].id != h,
            decreases self.households@.len() - i,
        {
            if self.households[i].id == h {
                return true;
            }
            i = i + 1;
        }
        false
    }

    /// Whether some member of household `h` has invoice lines.
    fn household_members_have_lines(&self, h: i64) -> (r: bool)
        ensures
            r == household_has_lines(*self, h),
    {
        let mut i: usize = 0;
        while i < self.members.len()
            invariant
                i <= self.members@.len(),
                forall|j: int|
                    0 <= j < i ==> !(lives_in(self.addresses@, h, #[trigger] self.members@[j])
                        && member_has_lines(self.invoices@, self.members@[j].id)),
            decreases self.members@.len() - i,
        {
            if let Some(mh) = self.household_of_address(self.members[i].osoite_id) {
                if mh == h && self.member_has_invoice_lines(self.members[i].id) {
                    return true;
                }
            }
            i = i + 1;
        }
        false
    }

    /// Deletes member `id`. A member that some invoice line bills is kept,
    /// and the result is a referential-integrity error; an unknown id is not
    /// found. Where the deleted member was the last one of the household, the
    /// household and its addresses are deleted too. On error nothing changes.
    pub fn delete_member(&mut self, id: i64) -> (r: Result<(), DbError>)
        ensures
            member_has_lines(old(self).invoices@, id) ==> r == Err::<(), DbError>(DbError::ReferentialIntegrity),
            !member_has_lines(old(self).invoices@, id) && find_member(old(self).members@, id) is None
                ==> r == Err::<(), DbError>(DbError::NotFound(id)),
            r is Ok <==> !member_has_lines(old(self).invoices@, id) && find_member(old(self).members@, id) is Some,
            r is Ok ==> member_deleted(*old(self), id, *final(self)),
            r is Err ==> *final(self) == *old(self),
    {
        if self.member_has_invoice_lines(id) {
            return Err(DbError::ReferentialIntegrity);
        }
        let address_id = match self.member_address(id) {
            Some(a) => a,
            None => {
                return Err(DbError::NotFound(id));
            },
        };
        let h = self.household_of_address(address_id);
        self.members = self.keep_members_except(id);
        if let Some(hh) = h {
            if self.get_household_member_count(hh) == 0 {
                self.addresses = self.keep_addresses_except(hh);
                self.households = self.keep_households_except(hh);
            }
        }
        Ok(())
    }

    /// Deletes household `h` with its members and addresses. Where a member
    /// of the household has invoice lines, nothing is deleted and the result
    /// is a referential-integrity error; an unknown household is not found.
    pub fn delete_household(&mut self, h: i64) -> (r: Result<(), DbError>)
        ensures
            household_has_lines(*old(self), h) ==> r == Err::<(), DbError>(DbError::ReferentialIntegrity),
            !household_has_lines(*old(self), h) && !household_exists(old(self).households@, h)
                ==> r == Err::<(), DbError>(DbError::NotFound(h)),
            r is Ok <==> !household_has_lines(*old(self), h) && household_exists(old(self).households@, h),
            r is Ok ==> household_deleted(*old(self), h, *final(self)),
            r is Err ==> *final(self) == *old(self),
    {
        if self.household_members_have_lines(h) {
            return Err(DbError::ReferentialIntegrity);
        }
        if !self.has_household(h) {
            return Err(DbError::NotFound(h));
        }
        self.members = self.keep_members_outside(h);
        self.addresses = self.keep_addresses_except(h);
        self.households = self.keep_households_except(h);
        Ok(())
    }
}

} // verus!
