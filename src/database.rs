//! The register as one owned value: its tables, the lookups that billing
//! needs, and the queries over them.
use crate::calendar::Date;
use crate::models::{
    Address, Household, Invoice, InvoiceLine, Member, MemberType, MembershipFee, Organization,
};
use vstd::prelude::*;

verus! {

/// The register of the organization: every table, held in memory. An
/// operation either returns `Ok` with all of its changes made, or an error
/// with the register as it was.
pub struct Database {
    pub organization: Option<Organization>,
    pub households: Vec<Household>,
    pub addresses: Vec<Address>,
    pub members: Vec<Member>,
    pub membership_fees: Vec<MembershipFee>,
    pub invoices: Vec<Invoice>,
}

/// The fee of member type `t` for `year` in the catalog `fees`. The catalog
/// holds at most one row per year and type; where it holds more, the first
/// one counts.
pub open spec fn fee_lookup(fees: Seq<MembershipFee>, year: int, t: MemberType) -> Option<i64>
    decreases fees.len(),
{
    if fees.len() == 0 {
        None
    } else if fees[0].vuosi == year && fees[0].jasentyyppi == t {
        Some(fees[0].summa)
    } else {
        fee_lookup(fees.subrange(1, fees.len() as int), year, t)
    }
}

/// The household that owns the address `address_id`, if the address exists
/// (the first row with that id).
pub open spec fn address_household(addresses: Seq<Address>, address_id: i64) -> Option<i64>
    decreases addresses.len(),
{
    if addresses.len() == 0 {
        None
    } else if addresses[0].id == address_id {
        Some(addresses[0].talous_id)
    } else {
        address_household(addresses.subrange(1, addresses.len() as int), address_id)
    }
}

/// Some invoice of household `h` was created in `year`.
pub open spec fn invoiced_in(invoices: Seq<Invoice>, h: i64, year: int) -> bool {
    exists|i: int|
        0 <= i < invoices.len() && #[trigger] invoices[i].talous_id == h
            && invoices[i].luontipaiva.year == year
}

/// The largest invoice id, or zero where there is no invoice with a positive id.
pub open spec fn max_invoice_id(invoices: Seq<Invoice>) -> int
    decreases invoices.len(),
{
    if invoices.len() == 0 {
        0
    } else {
        let rest = max_invoice_id(invoices.drop_last());
        if invoices.last().id > rest {
            invoices.last().id as int
        } else {
            rest
        }
    }
}

impl Database {
    /// An empty register.
    pub fn new() -> (r: Database)
        ensures
            r.organization is None,
            r.households@.len() == 0,
            r.addresses@.len() == 0,
            r.members@.len() == 0,
            r.membership_fees@.len() == 0,
            r.invoices@.len() == 0,
    {
        Database {
            organization: None,
            households: Vec::new(),
            addresses: Vec::new(),
            members: Vec::new(),
            membership_fees: Vec::new(),
            invoices: Vec::new(),
        }
    }

    /// Fee resolver: the fee of member type `t` for `year`, or nothing where
    /// the catalog has none. There is no fallback to another year.
    pub fn resolve_fee(&self, year: i32, t: MemberType) -> (r: Option<i64>)
        ensures
            r == fee_lookup(self.membership_fees@, year as int, t),
    {
        let fees = &self.membership_fees;
        let mut i: usize = 0;
        assert(fees@.subrange(0, fees@.len() as int) =~= fees@);
        while i < fees.len()
            invariant
                fees@ == self.membership_fees@,
                i <= fees@.len(),
                fee_lookup(fees@, year as int, t) == fee_lookup(
                    fees@.subrange(i as int, fees@.len() as int),
                    year as int,
                    t,
                ),
            decreases fees@.len() - i,
        {
            let ghost rest = fees@.subrange(i as int, fees@.len() as int);
            assert(rest[0] == fees@[i as int]);
            assert(rest.subrange(1, rest.len() as int) =~= fees@.subrange(
                i + 1,
                fees@.len() as int,
            ));
            if fees[i].vuosi == year && fees[i].jasentyyppi == t {
                assert(fee_lookup(rest, year as int, t) == Some(fees@[i as int].summa));
                return Some(fees[i].summa);
            }
            i = i + 1;
        }
        None
    }

    /// The household that owns the address `address_id`.
    pub fn household_of_address(&self, address_id: i64) -> (r: Option<i64>)
        ensures
            r == address_household(self.addresses@, address_id),
    {
        let addresses = &self.addresses;
        let mut i: usize = 0;
        assert(addresses@.subrange(0, addresses@.len() as int) =~= addresses@);
        while i < addresses.len()
            invariant
                addresses@ == self.addresses@,
                i <= addresses@.len(),
                address_household(addresses@, address_id) == address_household(
                    addresses@.subrange(i as int, addresses@.len() as int),
                    address_id,
                ),
            decreases addresses@.len() - i,
        {
            let ghost rest = addresses@.subrange(i as int, addresses@.len() as int);
            assert(rest[0] == addresses@[i as int]);
            assert(rest.subrange(1, rest.len() as int) =~= addresses@.subrange(
                i + 1,
                addresses@.len() as int,
            ));
            if addresses[i].id == address_id {
                assert(address_household(rest, address_id) == Some(addresses@[i as int].talous_id));
                return Some(addresses[i].talous_id);
            }
            i = i + 1;
        }
        None
    }

    /// Whether household `h` already has an invoice created in `year`.
    pub fn has_invoice_in_year(&self, h: i64, year: i32) -> (r: bool)
        ensures
            r == invoiced_in(self.invoices@, h, year as int),
    {
        let mut i: usize = 0;
        while i < self.invoices.len()
            invariant
                i <= self.invoices@.len(),
                forall|j: int|
                    0 <= j < i ==> !(#[trigger] self.invoices@[j].talous_id == h
                        && self.invoices@[j].luontipaiva.year == year),
            decreases self.invoices@.len() - i,
        {
            if self.invoices[i].talous_id == h && self.invoices[i].luontipaiva.year == year {
                return true;
            }
            i = i + 1;
        }
        false
    }

    /// The largest invoice id, or zero.
    pub fn max_invoice_id(&self) -> (r: i64)
        ensures
            r == max_invoice_id(self.invoices@),
            r >= 0,
    {
        let mut i: usize = 0;
        let mut m: i64 = 0;
        while i < self.invoices.len()
            invariant
                i <= self.invoices@.len(),
                m == max_invoice_id(self.invoices@.subrange(0, i as int)),
                m >= 0,
            decreases self.invoices@.len() - i,
        {
            assert(self.invoices@.subrange(0, i + 1).drop_last() =~= self.invoices@.subrange(
                0,
                i as int,
            ));
            if self.invoices[i].id > m {
                m = self.invoices[i].id;
            }
            i = i + 1;
        }
        assert(self.invoices@.subrange(0, i as int) =~= self.invoices@);
        m
    }
}

} // verus!
