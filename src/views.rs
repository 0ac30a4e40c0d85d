//! The register's records joined for display: members with their address
//! and household, households with their address and size, and invoices
//! with their household, address and billed members.
use crate::database::Database;
use crate::guard::{find_member, resident_count};
use crate::order::{
    date_on_or_after, household_before, household_le, lemma_household_total, lemma_household_trans,
    lemma_name_total, lemma_name_trans, member_type_rank, name_before, name_le, sort_by, sorted_by,
    type_rank,
};
use crate::models::{
    copy_address, copy_household, copy_invoice, copy_line, copy_member, same_invoice, Address,
    Household, Invoice, InvoiceLine, Member, MembershipFee,
};
use vstd::prelude::*;

verus! {

/// A member with the address they live at and its household.
#[derive(Clone, Debug)]
pub struct MemberWithAddress {
    pub member: Member,
    pub address: Address,
    pub household: Household,
}

/// An invoice line with the member it bills.
#[derive(Clone, Debug)]
pub struct InvoiceLineWithMember {
    pub line: InvoiceLine,
    pub member: Member,
}

/// An invoice with its household, the household's address, its lines with
/// their members, and the household's separate billing address, if any.
#[derive(Clone, Debug)]
pub struct InvoiceWithDetails {
    pub invoice: Invoice,
    pub household: Household,
    pub address: Address,
    pub lines: Vec<InvoiceLineWithMember>,
    pub billing_address: Option<Address>,
}

/// A household with its address and how many members live in it.
#[derive(Clone, Debug)]
pub struct HouseholdWithAddress {
    pub household: Household,
    pub address: Option<Address>,
    pub member_count: u64,
}

/// The first address of `addresses` with id `id`.
pub open spec fn find_address(addresses: Seq<Address>, id: i64) -> Option<Address>
    decreases addresses.len(),
{
    if addresses.len() == 0 {
        None
    } else if addresses[0].id == id {
        Some(addresses[0])
    } else {
        find_address(addresses.subrange(1, addresses.len() as int), id)
    }
}

/// The first address of `addresses` owned by household `h`.
pub open spec fn address_of(addresses: Seq<Address>, h: i64) -> Option<Address>
    decreases addresses.len(),
{
    if addresses.len() == 0 {
        None
    } else if addresses[0].talous_id == h {
        Some(addresses[0])
    } else {
        address_of(addresses.subrange(1, addresses.len() as int), h)
    }
}

/// The first household of `households` with id `id`.
pub open spec fn find_household(households: Seq<Household>, id: i64) -> Option<Household>
    decreases households.len(),
{
    if households.len() == 0 {
        None
    } else if households[0].id == id {
        Some(households[0])
    } else {
        find_household(households.subrange(1, households.len() as int), id)
    }
}

/// The first `k` members joined with their address and household; a member
/// whose address or household is missing is left out.
pub open spec fn members_joined(db: Database, k: int) -> Seq<MemberWithAddress>
    decreases k,
{
    if k <= 0 {
        seq![]
    } else {
        let p = members_joined(db, k - 1);
        let m = db.members@[k - 1];
        match find_address(db.addresses@, m.osoite_id) {
            Some(a) => match find_household(db.households@, a.talous_id) {
                Some(h) => p.push(MemberWithAddress { member: m, address: a, household: h }),
                None => p,
            },
            None => p,
        }
    }
}

/// The first `k` lines of `lines` joined with the members they bill; a line
/// whose member is missing is left out.
pub open spec fn lines_joined(lines: Seq<InvoiceLine>, members: Seq<Member>, k: int) -> Seq<InvoiceLineWithMember>
    decreases k,
{
    if k <= 0 {
        seq![]
    } else {
        let p = lines_joined(lines, members, k - 1);
        match find_member(members, lines[k - 1].jasen_id) {
            Some(m) => p.push(InvoiceLineWithMember { line: lines[k - 1], member: m }),
            None => p,
        }
    }
}

/// The separate billing address of household `h`: where the household
/// is not billed at its own address and names another one that exists.
pub open spec fn billing_address_of(addresses: Seq<Address>, h: Household) -> Option<Address> {
    if !h.laskutusosoite_sama && h.laskutusosoite_id is Some {
        find_address(addresses, h.laskutusosoite_id->Some_0)
    } else {
        None
    }
}

/// The indices of the first `k` invoices whose household and its address exist.
pub open spec fn shown_invoices(db: Database, k: int) -> Seq<int>
    decreases k,
{
    if k <= 0 {
        seq![]
    } else {
        let p = shown_invoices(db, k - 1);
        let c = db.invoices@[k - 1];
        if find_household(db.households@, c.talous_id) is Some && address_of(db.addresses@, c.talous_id) is Some {
            p.push(k - 1)
        } else {
            p
        }
    }
}

/// `d` shows the invoice `c` of `db`.
pub open spec fn shows_invoice(d: InvoiceWithDetails, c: Invoice, db: Database) -> bool {
    &&& same_invoice(d.invoice, c)
    &&& find_household(db.households@, c.talous_id) == Some(d.household)
    &&& address_of(db.addresses@, c.talous_id) == Some(d.address)
    &&& d.lines@.to_multiset() == lines_joined(c.rivit@, db.members@, c.rivit@.len() as int).to_multiset()
    &&& lines_in_order(d.lines@)
    &&& d.billing_address == billing_address_of(db.addresses@, d.household)
}

/// The lines are in order of their members' names.
pub open spec fn lines_in_order(s: Seq<InvoiceLineWithMember>) -> bool {
    forall|i: int, j: int| 0 <= i < j < s.len() ==> name_le((#[trigger] s[i]).member, (#[trigger] s[j]).member)
}

/// The members are in order of their names.
pub open spec fn members_in_order(s: Seq<MemberWithAddress>) -> bool {
    forall|i: int, j: int| 0 <= i < j < s.len() ==> name_le((#[trigger] s[i]).member, (#[trigger] s[j]).member)
}

/// The invoices are in order of creation date, newest first.
pub open spec fn invoices_in_order(s: Seq<InvoiceWithDetails>) -> bool {
    forall|i: int, j: int|
        0 <= i < j < s.len() ==> date_on_or_after(
            (#[trigger] s[i]).invoice.luontipaiva,
            (#[trigger] s[j]).invoice.luontipaiva,
        )
}

/// The households are in order of their names.
pub open spec fn households_in_order(s: Seq<Household>) -> bool {
    forall|i: int, j: int| 0 <= i < j < s.len() ==> household_le(#[trigger] s[i], #[trigger] s[j])
}

/// The household rows are in order of the households' names.
pub open spec fn household_rows_in_order(s: Seq<HouseholdWithAddress>) -> bool {
    forall|i: int, j: int| 0 <= i < j < s.len() ==> household_le((#[trigger] s[i]).household, (#[trigger] s[j]).household)
}

/// `a` comes before `b`, or equals it: newer year first, then member type
/// in the alphabetical order of the stored names.
pub open spec fn fee_le(a: MembershipFee, b: MembershipFee) -> bool {
    a.vuosi > b.vuosi || (a.vuosi == b.vuosi && type_rank(a.jasentyyppi) <= type_rank(b.jasentyyppi))
}

/// The fees are in order: newest year first, then by member type.
pub open spec fn fees_in_order(s: Seq<MembershipFee>) -> bool {
    forall|i: int, j: int| 0 <= i < j < s.len() ==> fee_le(#[trigger] s[i], #[trigger] s[j])
}

impl Database {
    /// The first address with id `id`.
    pub fn address_by_id(&self, id: i64) -> (r: Option<Address>)
        ensures
            r == find_address(self.addresses@, id),
    {
        let mut i: usize = 0;
        assert(self.addresses@.subrange(0, self.addresses@.len() as int) =~= self.addresses@);
        while i < self.addresses.len()
            invariant
                i <= self.addresses@.len(),
                find_address(self.addresses@, id) == find_address(
                    self.addresses@.subrange(i as int, self.addresses@.len() as int),
                    id,
                ),
            decreases self.addresses@.len() - i,
        {
            let ghost rest = self.addresses@.subrange(i as int, self.addresses@.len() as int);
            assert(rest[0] == self.addresses@[i as int]);
            assert(rest.subrange(1, rest.len() as int) =~= self.addresses@.subrange(
                i + 1,
                self.addresses@.len() as int,
            ));
            if self.addresses[i].id == id {
                assert(find_address(rest, id) == Some(self.addresses@[i as int]));
                return Some(copy_address(&self.addresses[i]));
            }
            i = i + 1;
        }
        None
    }

    /// The first address of household `h`.
    pub fn address_of_household_record(&self, h: i64) -> (r: Option<Address>)
        ensures
            r == address_of(self.addresses@, h),
    {
        let mut i: usize = 0;
        assert(self.addresses@.subrange(0, self.addresses@.len() as int) =~= self.addresses@);
        while i < self.addresses.len()
            invariant
                i <= self.addresses@.len(),
                address_of(self.addresses@, h) == address_of(
                    self.addresses@.subrange(i as int, self.addresses@.len() as int),
                    h,
                ),
            decreases self.addresses@.len() - i,
        {
            let ghost rest = self.addresses@.subrange(i as int, self.addresses@.len() as int);
            assert(rest[0] == self.addresses@[i as int]);
            assert(rest.subrange(1, rest.len() as int) =~= self.addresses@.subrange(
                i + 1,
                self.addresses@.len() as int,
            ));
            if self.addresses[i].talous_id == h {
                assert(address_of(rest, h) == Some(self.addresses@[i as int]));
                return Some(copy_address(&self.addresses[i]));
            }
            i = i + 1;
        }
        None
    }

    /// The first household with id `id`.
    pub fn household_by_id(&self, id: i64) -> (r: Option<Household>)
        ensures
            r == find_household(self.households@, id),
    {
        let mut i: usize = 0;
        assert(self.households@.subrange(0, self.households@.len() as int) =~= self.households@);
        while i < self.households.len()
            invariant
                i <= self.households@.len(),
                find_household(self.households@, id) == find_household(
                    self.households@.subrange(i as int, self.households@.len() as int),
                    id,
                ),
            decreases self.households@.len() - i,
        {
            let ghost rest = self.households@.subrange(i as int, self.households@.len() as int);
            assert(rest[0] == self.households@[i as int]);
            assert(rest.subrange(1, rest.len() as int) =~= self.households@.subrange(
                i + 1,
                self.households@.len() as int,
            ));
            if self.households[i].id == id {
                assert(find_household(rest, id) == Some(self.households@[i as int]));
                return Some(copy_household(&self.households[i]));
            }
            i = i + 1;
        }
        None
    }

    /// The first member with id `id`.
    pub fn member_by_id(&self, id: i64) -> (r: Option<Member>)
        ensures
            r == find_member(self.members@, id),
    {
        let mut i: usize = 0;
        assert(self.members@.subrange(0, self.members@.len() as int) =~= self.members@);
        while i < self.members.len()
            invariant
                i <= self.members@.len(),
                find_member(self.members@, id) == find_member(
                    self.members@.subrange(i as int, self.members@.len() as int),
                    id,
                ),
            decreases self.members@.len() - i,
        {
            let ghost rest = self.members@.subrange(i as int, self.members@.len() as int);
            assert(rest[0] == self.members@[i as int]);
            assert(rest.subrange(1, rest.len() as int) =~= self.members@.subrange(
                i + 1,
                self.members@.len() as int,
            ));
            if self.members[i].id == id {
                assert(find_member(rest, id) == Some(self.members@[i as int]));
                return Some(copy_member(&self.members[i]));
            }
            i = i + 1;
        }
        None
    }

    /// Every member with their address and household, by last name and then
    /// first name; members whose address or household is missing are left out.
    pub fn get_members(&self) -> (r: Vec<MemberWithAddress>)
        ensures
            r@.to_multiset() == members_joined(*self, self.members@.len() as int).to_multiset(),
            members_in_order(r@),
    {
        let joined = self.joined_members();
        let ghost le = |x: MemberWithAddress, y: MemberWithAddress| name_le(x.member, y.member);
        proof {
            assert forall|a: MemberWithAddress, b: MemberWithAddress| #[trigger] le(a, b) || le(b, a) by {
                lemma_name_total(a.member, b.member);
            }
            assert forall|a: MemberWithAddress, b: MemberWithAddress, c: MemberWithAddress|
                #[trigger] le(a, b) && #[trigger] le(b, c) implies le(a, c) by {
                lemma_name_trans(a.member, b.member, c.member);
            }
        }
        let cmp = |a: &MemberWithAddress, b: &MemberWithAddress| -> (r: bool)
            ensures
                r == name_le(a.member, b.member),
            { name_before(&a.member, &b.member) };
        let r = sort_by(joined, Ghost(le), &cmp);
        assert(sorted_by(r@, le));
        r
    }

    /// Every member with their address and household, in register order.
    fn joined_members(&self) -> (r: Vec<MemberWithAddress>)
        ensures
            r@ == members_joined(*self, self.members@.len() as int),
    {
        let mut r: Vec<MemberWithAddress> = Vec::new();
        let mut i: usize = 0;
        while i < self.members.len()
            invariant
                i <= self.members@.len(),
                r@ == members_joined(*self, i as int),
            decreases self.members@.len() - i,
        {
            let m = &self.members[i];
            if let Some(a) = self.address_by_id(m.osoite_id) {
                if let Some(h) = self.household_by_id(a.talous_id) {
                    r.push(MemberWithAddress { member: copy_member(m), address: a, household: h });
                }
            }
            i = i + 1;
        }
        r
    }

    /// Every household with its first address and its number of members,
    /// by household name.
    pub fn get_households_with_addresses(&self) -> (r: Vec<HouseholdWithAddress>)
        ensures
            exists|u: Seq<HouseholdWithAddress>|
                {
                    &&& u.len() == self.households@.len()
                    &&& forall|j: int|
                        0 <= j < u.len() ==> {
                            let x = self.households@[j];
                            &&& (#[trigger] u[j]).household == x
                            &&& u[j].address == address_of(self.addresses@, x.id)
                            &&& u[j].member_count == resident_count(
                                self.members@,
                                self.addresses@,
                                x.id,
                                self.members@.len() as int,
                            )
                        }
                    &&& r@.to_multiset() == #[trigger] u.to_multiset()
                },
            household_rows_in_order(r@),
    {
        let rows = self.household_rows();
        let ghost u = rows@;
        let ghost le = |x: HouseholdWithAddress, y: HouseholdWithAddress| household_le(x.household, y.household);
        proof {
            assert forall|a: HouseholdWithAddress, b: HouseholdWithAddress| #[trigger] le(a, b) || le(b, a) by {
                lemma_household_total(a.household, b.household);
            }
            assert forall|a: HouseholdWithAddress, b: HouseholdWithAddress, c: HouseholdWithAddress|
                #[trigger] le(a, b) && #[trigger] le(b, c) implies le(a, c) by {
                lemma_household_trans(a.household, b.household, c.household);
            }
        }
        let cmp = |a: &HouseholdWithAddress, b: &HouseholdWithAddress| -> (r: bool)
            ensures
                r == household_le(a.household, b.household),
            { household_before(&a.household, &b.household) };
        let r = sort_by(rows, Ghost(le), &cmp);
        assert(sorted_by(r@, le));
        assert(r@.to_multiset() == u.to_multiset());
        r
    }

    /// Every household, by name; a household without a name comes first.
    pub fn get_households(&self) -> (r: Vec<Household>)
        ensures
            r@.to_multiset() == self.households@.to_multiset(),
            households_in_order(r@),
    {
        let mut all: Vec<Household> = Vec::new();
        let mut i: usize = 0;
        while i < self.households.len()
            invariant
                i <= self.households@.len(),
                all@ == self.households@.subrange(0, i as int),
            decreases self.households@.len() - i,
        {
            all.push(copy_household(&self.households[i]));
            assert(all@ =~= self.households@.subrange(0, i + 1));
            i = i + 1;
        }
        assert(self.households@.subrange(0, i as int) =~= self.households@);
        let ghost le = |x: Household, y: Household| household_le(x, y);
        proof {
            assert forall|a: Household, b: Household| #[trigger] le(a, b) || le(b, a) by {
                lemma_household_total(a, b);
            }
            assert forall|a: Household, b: Household, c: Household|
                #[trigger] le(a, b) && #[trigger] le(b, c) implies le(a, c) by {
                lemma_household_trans(a, b, c);
            }
        }
        let cmp = |a: &Household, b: &Household| -> (r: bool)
            ensures
                r == household_le(*a, *b),
            { household_before(a, b) };
        let r = sort_by(all, Ghost(le), &cmp);
        assert(sorted_by(r@, le));
        r
    }

    /// Every membership fee: newest year first, then by member type.
    pub fn get_membership_fees(&self) -> (r: Vec<MembershipFee>)
        ensures
            r@.to_multiset() == self.membership_fees@.to_multiset(),
            fees_in_order(r@),
    {
        let mut all: Vec<MembershipFee> = Vec::new();
        let mut i: usize = 0;
        while i < self.membership_fees.len()
            invariant
                i <= self.membership_fees@.len(),
                all@ == self.membership_fees@.subrange(0, i as int),
            decreases self.membership_fees@.len() - i,
        {
            all.push(self.membership_fees[i]);
            assert(all@ =~= self.membership_fees@.subrange(0, i + 1));
            i = i + 1;
        }
        assert(self.membership_fees@.subrange(0, i as int) =~= self.membership_fees@);
        let ghost le = |x: MembershipFee, y: MembershipFee| fee_le(x, y);
        let cmp = |a: &MembershipFee, b: &MembershipFee| -> (r: bool)
            ensures
                r == fee_le(*a, *b),
            {
                a.vuosi > b.vuosi || (a.vuosi == b.vuosi && member_type_rank(a.jasentyyppi)
                    <= member_type_rank(b.jasentyyppi))
            };
        let r = sort_by(all, Ghost(le), &cmp);
        assert(sorted_by(r@, le));
        r
    }

    /// Every household with its first address and its number of members, in
    /// register order.
    fn household_rows(&self) -> (r: Vec<HouseholdWithAddress>)
        ensures
            r@.len() == self.households@.len(),
            forall|j: int|
                0 <= j < r@.len() ==> {
                    let x = self.households@[j];
                    &&& (#[trigger] r@[j]).household == x
                    &&& r@[j].address == address_of(self.addresses@, x.id)
                    &&& r@[j].member_count == resident_count(
                        self.members@,
                        self.addresses@,
                        x.id,
                        self.members@.len() as int,
                    )
                },
    {
        let mut r: Vec<HouseholdWithAddress> = Vec::new();
        let mut i: usize = 0;
        while i < self.households.len()
            invariant
                i <= self.households@.len(),
                r@.len() == i,
                forall|j: int|
                    0 <= j < i ==> {
                        let x = self.households@[j];
                        &&& (#[trigger] r@[j]).household == x
                        &&& r@[j].address == address_of(self.addresses@, x.id)
                        &&& r@[j].member_count == resident_count(
                            self.members@,
                            self.addresses@,
                            x.id,
                            self.members@.len() as int,
                        )
                    },
            decreases self.households@.len() - i,
        {
            let x = &self.households[i];
            let entry = HouseholdWithAddress {
                household: copy_household(x),
                address: self.address_of_household_record(x.id),
                member_count: self.get_household_member_count(x.id),
            };
            r.push(entry);
            i = i + 1;
        }
        r
    }

    /// The lines of `c` with the members they bill, by the members' names.
    fn lines_with_members(&self, c: &Invoice) -> (r: Vec<InvoiceLineWithMember>)
        ensures
            r@.to_multiset() == lines_joined(c.rivit@, self.members@, c.rivit@.len() as int).to_multiset(),
            lines_in_order(r@),
    {
        let joined = self.joined_lines(c);
        let ghost le = |x: InvoiceLineWithMember, y: InvoiceLineWithMember| name_le(x.member, y.member);
        proof {
            assert forall|a: InvoiceLineWithMember, b: InvoiceLineWithMember| #[trigger] le(a, b) || le(b, a) by {
                lemma_name_total(a.member, b.member);
            }
            assert forall|a: InvoiceLineWithMember, b: InvoiceLineWithMember, c: InvoiceLineWithMember|
                #[trigger] le(a, b) && #[trigger] le(b, c) implies le(a, c) by {
                lemma_name_trans(a.member, b.member, c.member);
            }
        }
        let cmp = |a: &InvoiceLineWithMember, b: &InvoiceLineWithMember| -> (r: bool)
            ensures
                r == name_le(a.member, b.member),
            { name_before(&a.member, &b.member) };
        let r = sort_by(joined, Ghost(le), &cmp);
        assert(sorted_by(r@, le));
        r
    }

    /// The lines of `c` with the members they bill, in the invoice's order.
    fn joined_lines(&self, c: &Invoice) -> (r: Vec<InvoiceLineWithMember>)
        ensures
            r@ == lines_joined(c.rivit@, self.members@, c.rivit@.len() as int),
    {
        let mut r: Vec<InvoiceLineWithMember> = Vec::new();
        let mut t: usize = 0;
        while t < c.rivit.len()
            invariant
                t <= c.rivit@.len(),
                r@ == lines_joined(c.rivit@, self.members@, t as int),
            decreases c.rivit@.len() - t,
        {
            if let Some(m) = self.member_by_id(c.rivit[t].jasen_id) {
                r.push(InvoiceLineWithMember { line: copy_line(&c.rivit[t]), member: m });
            }
            t = t + 1;
        }
        r
    }

    /// Every invoice whose household and its address exist, newest first,
    /// with its household, address, billed members and separate billing
    /// address.
    pub fn get_invoices(&self) -> (r: Vec<InvoiceWithDetails>)
        ensures
            exists|u: Seq<InvoiceWithDetails>|
                {
                    &&& u.len() == shown_invoices(*self, self.invoices@.len() as int).len()
                    &&& forall|j: int|
                        0 <= j < u.len() ==> shows_invoice(
                            #[trigger] u[j],
                            self.invoices@[shown_invoices(*self, self.invoices@.len() as int)[j]],
                            *self,
                        )
                    &&& r@.to_multiset() == #[trigger] u.to_multiset()
                },
            invoices_in_order(r@),
    {
        let joined = self.joined_invoices();
        let ghost u = joined@;
        let ghost le = |x: InvoiceWithDetails, y: InvoiceWithDetails|
            date_on_or_after(x.invoice.luontipaiva, y.invoice.luontipaiva);
        let cmp = |a: &InvoiceWithDetails, b: &InvoiceWithDetails| -> (r: bool)
            ensures
                r == date_on_or_after(a.invoice.luontipaiva, b.invoice.luontipaiva),
            {
                let x = a.invoice.luontipaiva;
                let y = b.invoice.luontipaiva;
                x.year > y.year || (x.year == y.year && (x.month > y.month || (x.month == y.month
                    && x.day >= y.day)))
            };
        let r = sort_by(joined, Ghost(le), &cmp);
        assert(sorted_by(r@, le));
        assert(r@.to_multiset() == u.to_multiset());
        r
    }

    /// Every invoice whose household and its address exist, in register
    /// order, with its details.
    fn joined_invoices(&self) -> (r: Vec<InvoiceWithDetails>)
        ensures
            r@.len() == shown_invoices(*self, self.invoices@.len() as int).len(),
            forall|j: int|
                0 <= j < r@.len() ==> shows_invoice(
                    #[trigger] r@[j],
                    self.invoices@[shown_invoices(*self, self.invoices@.len() as int)[j]],
                    *self,
                ),
    {
        let mut r: Vec<InvoiceWithDetails> = Vec::new();
        let mut i: usize = 0;
        while i < self.invoices.len()
            invariant
                i <= self.invoices@.len(),
                r@.len() == shown_invoices(*self, i as int).len(),
                forall|j: int|
                    0 <= j < r@.len() ==> shows_invoice(
                        #[trigger] r@[j],
                        self.invoices@[shown_invoices(*self, i as int)[j]],
                        *self,
                    ),
            decreases self.invoices@.len() - i,
        {
            let c = &self.invoices[i];
            let ghost before = r@;
            if let Some(household) = self.household_by_id(c.talous_id) {
                if let Some(address) = self.address_of_household_record(c.talous_id) {
                    let billing_address = if !household.laskutusosoite_sama {
                        match household.laskutusosoite_id {
                            Some(aid) => self.address_by_id(aid),
                            None => None,
                        }
                    } else {
                        None
                    };
                    let details = InvoiceWithDetails {
                        invoice: copy_invoice(c),
                        household,
                        address,
                        lines: self.lines_with_members(c),
                        billing_address,
                    };
                    r.push(details);
                    assert forall|j: int| 0 <= j < r@.len() implies shows_invoice(
                        #[trigger] r@[j],
                        self.invoices@[shown_invoices(*self, i + 1)[j]],
                        *self,
                    ) by {
                        if j < before.len() {
                            assert(r@[j] == before[j]);
                            assert(shown_invoices(*self, i + 1)[j] == shown_invoices(*self, i as int)[j]);
                        }
                    }
                }
            }
            i = i + 1;
        }
        r
    }
}

} // verus!
