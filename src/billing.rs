//! Invoice generation: which households a year's run bills, what each
//! invoice holds, and the check that runs before generation.
use crate::calendar::{add_days, first_day, last_day, today, Date};
use crate::database::{address_household, fee_lookup, invoiced_in, max_invoice_id, Database};
use crate::models::{
    copy_invoice, member_type_name, same_invoice, Address, DbError, Invoice, InvoiceLine, Member,
    MemberType, MembershipFee,
};
use crate::reference::{
    decimal, decimal_text, household_invoice_number, household_reference, int_text, int_to_text,
    invoice_number_for_household, reference_for_household,
};
use vstd::prelude::*;

verus! {

/// Member `m` is billed to household `h` for `year`: the member is active,
/// the member's type has a fee for the year, and the member's address
/// belongs to `h`.
pub open spec fn bills(
    addresses: Seq<Address>,
    fees: Seq<MembershipFee>,
    year: int,
    h: i64,
    m: Member,
) -> bool {
    &&& m.aktiivinen
    &&& fee_lookup(fees, year, m.jasentyyppi) is Some
    &&& address_household(addresses, m.osoite_id) == Some(h)
}

/// Member `m` is billed to some household for `year`.
pub open spec fn billable(addresses: Seq<Address>, fees: Seq<MembershipFee>, year: int, m: Member) -> bool {
    &&& m.aktiivinen
    &&& fee_lookup(fees, year, m.jasentyyppi) is Some
    &&& address_household(addresses, m.osoite_id) is Some
}

/// The fee of a billable member.
pub open spec fn member_fee(fees: Seq<MembershipFee>, year: int, m: Member) -> int {
    fee_lookup(fees, year, m.jasentyyppi)->Some_0 as int
}

/// The members among the first `k` of `ms` that are billed to `h`, in order.
pub open spec fn billed_members(
    ms: Seq<Member>,
    addresses: Seq<Address>,
    fees: Seq<MembershipFee>,
    year: int,
    h: i64,
    k: int,
) -> Seq<Member>
    decreases k,
{
    if k <= 0 {
        seq![]
    } else {
        let p = billed_members(ms, addresses, fees, year, h, k - 1);
        if bills(addresses, fees, year, h, ms[k - 1]) {
            p.push(ms[k - 1])
        } else {
            p
        }
    }
}

/// The sum of the fees of the members among the first `k` of `ms` that are
/// billed to `h`.
pub open spec fn fee_total(
    ms: Seq<Member>,
    addresses: Seq<Address>,
    fees: Seq<MembershipFee>,
    year: int,
    h: i64,
    k: int,
) -> int
    decreases k,
{
    if k <= 0 {
        0
    } else {
        fee_total(ms, addresses, fees, year, h, k - 1) + if bills(
            addresses,
            fees,
            year,
            h,
            ms[k - 1],
        ) {
            member_fee(fees, year, ms[k - 1])
        } else {
            0
        }
    }
}

/// What household `h` owes for `year`: the fees of all its billed members.
pub open spec fn household_total(
    ms: Seq<Member>,
    addresses: Seq<Address>,
    fees: Seq<MembershipFee>,
    year: int,
    h: i64,
) -> int {
    fee_total(ms, addresses, fees, year, h, ms.len() as int)
}

/// The households of the billable members among the first `k` of `ms` that
/// have no invoice created in `year`, each once, in the order in which their
/// first such member comes.
pub open spec fn pending_prefix(
    ms: Seq<Member>,
    addresses: Seq<Address>,
    fees: Seq<MembershipFee>,
    invoices: Seq<Invoice>,
    year: int,
    k: int,
) -> Seq<i64>
    decreases k,
{
    if k <= 0 {
        seq![]
    } else {
        let p = pending_prefix(ms, addresses, fees, invoices, year, k - 1);
        let m = ms[k - 1];
        let h = address_household(addresses, m.osoite_id)->Some_0;
        if billable(addresses, fees, year, m) && !invoiced_in(invoices, h, year) && !p.contains(
            h,
        ) {
            p.push(h)
        } else {
            p
        }
    }
}

/// Those of `hs` whose total for `year` is positive, in order.
pub open spec fn positive_households(
    hs: Seq<i64>,
    ms: Seq<Member>,
    addresses: Seq<Address>,
    fees: Seq<MembershipFee>,
    year: int,
) -> Seq<i64>
    decreases hs.len(),
{
    if hs.len() == 0 {
        seq![]
    } else {
        let p = positive_households(hs.drop_last(), ms, addresses, fees, year);
        if household_total(ms, addresses, fees, year, hs.last()) > 0 {
            p.push(hs.last())
        } else {
            p
        }
    }
}

/// The sum of the amounts of `lines`.
pub open spec fn line_total(lines: Seq<InvoiceLine>) -> int
    decreases lines.len(),
{
    if lines.len() == 0 {
        0
    } else {
        line_total(lines.drop_last()) + lines.last().summa
    }
}

/// The description of a member's invoice line for `year`.
pub open spec fn line_description(year: int, m: Member) -> Seq<char> {
    "Membership fee "@ + int_text(year, 1) + " - "@ + m.etunimi@ + " "@ + m.sukunimi@
}

/// `lines` bill `members` for `year`, one line each and in the same order.
pub open spec fn lines_bill(
    lines: Seq<InvoiceLine>,
    members: Seq<Member>,
    fees: Seq<MembershipFee>,
    year: int,
) -> bool {
    &&& lines.len() == members.len()
    &&& forall|j: int|
        0 <= j < lines.len() ==> {
            &&& #[trigger] lines[j].jasen_id == members[j].id
            &&& lines[j].summa == member_fee(fees, year, members[j])
            &&& lines[j].kuvaus@ == line_description(year, members[j])
        }
}

impl Database {
    /// The households that have billable members for `year` and no invoice
    /// created in `year`.
    pub open spec fn pending_households(self, year: int) -> Seq<i64> {
        pending_prefix(
            self.members@,
            self.addresses@,
            self.membership_fees@,
            self.invoices@,
            year,
            self.members@.len() as int,
        )
    }

    /// The households that a run for `year` invoices: the pending ones whose
    /// total is positive.
    pub open spec fn households_to_invoice(self, year: int) -> Seq<i64> {
        positive_households(
            self.pending_households(year),
            self.members@,
            self.addresses@,
            self.membership_fees@,
            year,
        )
    }

    /// What household `h` owes for `year`.
    pub open spec fn household_total(self, year: int, h: i64) -> int {
        household_total(self.members@, self.addresses@, self.membership_fees@, year, h)
    }

    /// The members billed to household `h` for `year`, in register order.
    pub open spec fn billed_members(self, year: int, h: i64) -> Seq<Member> {
        billed_members(
            self.members@,
            self.addresses@,
            self.membership_fees@,
            year,
            h,
            self.members@.len() as int,
        )
    }
}

/// Billing one more member with one more matching line keeps the lines and
/// the members in step.
proof fn lemma_lines_push(
    lines: Seq<InvoiceLine>,
    line: InvoiceLine,
    members: Seq<Member>,
    m: Member,
    fees: Seq<MembershipFee>,
    year: int,
)
    requires
        lines_bill(lines, members, fees, year),
        line.jasen_id == m.id,
        line.summa == member_fee(fees, year, m),
        line.kuvaus@ == line_description(year, m),
    ensures
        lines_bill(lines.push(line), members.push(m), fees, year),
{
    let l2 = lines.push(line);
    let m2 = members.push(m);
    assert forall|j: int| 0 <= j < l2.len() implies {
        &&& #[trigger] l2[j].jasen_id == m2[j].id
        &&& l2[j].summa == member_fee(fees, year, m2[j])
        &&& l2[j].kuvaus@ == line_description(year, m2[j])
    } by {
        if j < lines.len() {
            assert(l2[j] == lines[j]);
            assert(m2[j] == members[j]);
            assert(lines[j].jasen_id == members[j].id);
        }
    }
}

/// Whether `v` holds `x`.
fn contains_id(v: &Vec<i64>, x: i64) -> (r: bool)
    ensures
        r == v@.contains(x),
{
    let mut i: usize = 0;
    while i < v.len()
        invariant
            i <= v@.len(),
            forall|j: int| 0 <= j < i ==> v@[j] != x,
        decreases v@.len() - i,
    {
        if v[i] == x {
            assert(v@[i as int] == x);
            return true;
        }
        i = i + 1;
    }
    false
}

/// The description of a member's invoice line for `year`.
pub fn describe_line(year: i32, m: &Member) -> (r: String)
    ensures
        r@ == line_description(year as int, *m),
{
    let mut r = String::from_str("Membership fee ");
    let y = int_to_text(year as i64, 1);
    r.append(y.as_str());
    r.append(" - ");
    r.append(m.etunimi.as_str());
    r.append(" ");
    r.append(m.sukunimi.as_str());
    r
}

impl Database {
    /// The households that have billable members for `year` and no invoice
    /// created in `year`, each once.
    pub fn find_pending_households(&self, year: i32) -> (r: Vec<i64>)
        ensures
            r@ == self.pending_households(year as int),
    {
        let mut hs: Vec<i64> = Vec::new();
        let mut i: usize = 0;
        while i < self.members.len()
            invariant
                i <= self.members@.len(),
                hs@ == pending_prefix(
                    self.members@,
                    self.addresses@,
                    self.membership_fees@,
                    self.invoices@,
                    year as int,
                    i as int,
                ),
            decreases self.members@.len() - i,
        {
            let m = &self.members[i];
            if m.aktiivinen {
                if let Some(_) = self.resolve_fee(year, m.jasentyyppi) {
                    if let Some(h) = self.household_of_address(m.osoite_id) {
                        if !self.has_invoice_in_year(h, year) && !contains_id(&hs, h) {
                            hs.push(h);
                        }
                    }
                }
            }
            i = i + 1;
        }
        hs
    }

    /// The invoice lines of household `h` for `year`, one per billed member,
    /// and their total.
    pub fn household_bill(&self, year: i32, h: i64) -> (r: (Vec<InvoiceLine>, i128))
        ensures
            lines_bill(r.0@, self.billed_members(year as int, h), self.membership_fees@, year as int),
            r.1 == self.household_total(year as int, h),
            r.1 == line_total(r.0@),
    {
        let mut lines: Vec<InvoiceLine> = Vec::new();
        let mut total: i128 = 0;
        let mut i: usize = 0;
        let ghost ms = self.members@;
        let ghost addrs = self.addresses@;
        let ghost fees = self.membership_fees@;
        while i < self.members.len()
            invariant
                ms == self.members@,
                addrs == self.addresses@,
                fees == self.membership_fees@,
                i <= ms.len(),
                lines_bill(lines@, billed_members(ms, addrs, fees, year as int, h, i as int), fees, year as int),
                total == fee_total(ms, addrs, fees, year as int, h, i as int),
                total == line_total(lines@),
                -(i as int) * 0x8000_0000_0000_0000 <= total <= (i as int) * 0x8000_0000_0000_0000,
            decreases ms.len() - i,
        {
            let m = &self.members[i];
            let ghost before = lines@;
            if m.aktiivinen {
                if let Some(fee) = self.resolve_fee(year, m.jasentyyppi) {
                    if let Some(mh) = self.household_of_address(m.osoite_id) {
                        if mh == h {
                            let kuvaus = describe_line(year, m);
                            let line = InvoiceLine { jasen_id: m.id, kuvaus, summa: fee };
                            assert(*m == ms[i as int]);
                            assert(line.summa == member_fee(fees, year as int, ms[i as int]));
                            assert(line.kuvaus@ == line_description(year as int, ms[i as int]));
                            let ghost line_g = line;
                            lines.push(line);
                            assert(lines@.last() == line_g);
                            total = total + fee as i128;
                            assert(lines@.drop_last() =~= before);
                            proof {
                                let bm = billed_members(ms, addrs, fees, year as int, h, i as int);
                                lemma_lines_push(before, line_g, bm, ms[i as int], fees, year as int);
                                assert(lines@ == before.push(line_g));
                            }
                        }
                    }
                }
            }
            proof {
                if !bills(addrs, fees, year as int, h, ms[i as int]) {
                    assert(lines@ == before);
                }
            }
            i = i + 1;
        }
        (lines, total)
    }
}

/// `c` is the invoice that a run for `year` on `db`, dated `today` and due
/// on `due`, creates for household `h` under the id `id`.
pub open spec fn new_invoice(
    c: Invoice,
    db: Database,
    year: int,
    today: Date,
    due: Date,
    h: i64,
    id: int,
) -> bool {
    &&& c.id == id
    &&& c.talous_id == h
    &&& c.luontipaiva == today
    &&& c.erapaiva == due
    &&& c.summa == db.household_total(year, h)
    &&& c.summa > 0
    &&& c.summa == line_total(c.rivit@)
    &&& lines_bill(c.rivit@, db.billed_members(year, h), db.membership_fees@, year)
    &&& c.viitenumero@ == household_reference(year, h as int)
    &&& c.laskunumero matches Some(n) && n@ == household_invoice_number(year, h as int)
    &&& !c.maksettu
    &&& c.maksupaiva is None
}

/// The records other than the invoices are the same in both registers.
pub open spec fn same_records(a: Database, b: Database) -> bool {
    &&& a.organization == b.organization
    &&& a.households@ == b.households@
    &&& a.addresses@ == b.addresses@
    &&& a.members@ == b.members@
    &&& a.membership_fees@ == b.membership_fees@
}

/// A run for `year` dated `today` and due on `due` took `old` to `new` and
/// created `created`: one invoice for each household to invoice, in order,
/// with fresh ids counting up from the largest existing one, appended to the
/// invoices; nothing else changed.
pub open spec fn invoice_run(
    old: Database,
    year: int,
    today: Date,
    due: Date,
    new: Database,
    created: Seq<Invoice>,
) -> bool {
    let hs = old.households_to_invoice(year);
    &&& same_records(old, new)
    &&& created.len() == hs.len()
    &&& new.invoices@.len() == old.invoices@.len() + created.len()
    &&& forall|j: int| 0 <= j < old.invoices@.len() ==> #[trigger] new.invoices@[j] == old.invoices@[j]
    &&& forall|j: int|
        0 <= j < created.len() ==> same_invoice(
            #[trigger] new.invoices@[old.invoices@.len() + j],
            created[j],
        )
    &&& forall|j: int|
        0 <= j < created.len() ==> new_invoice(
            #[trigger] created[j],
            old,
            year,
            today,
            due,
            hs[j],
            max_invoice_id(old.invoices@) + 1 + j,
        )
}

/// A run for `year` cannot give every new invoice its amount and a fresh id
/// within the range of `i64`.
pub open spec fn run_out_of_range(db: Database, year: int) -> bool {
    let hs = db.households_to_invoice(year);
    ||| exists|j: int| 0 <= j < hs.len() && db.household_total(year, #[trigger] hs[j]) > i64::MAX
    ||| max_invoice_id(db.invoices@) + hs.len() > i64::MAX
}

/// Those of the first `k` of `hs` with a positive total come first, in the
/// same order, among those of all of `hs`.
proof fn lemma_positive_prefix(
    hs: Seq<i64>,
    ms: Seq<Member>,
    addresses: Seq<Address>,
    fees: Seq<MembershipFee>,
    year: int,
    k: int,
)
    requires
        0 <= k <= hs.len(),
    ensures
        positive_households(hs.subrange(0, k), ms, addresses, fees, year).len()
            <= positive_households(hs, ms, addresses, fees, year).len(),
        forall|j: int|
            0 <= j < positive_households(hs.subrange(0, k), ms, addresses, fees, year).len()
                ==> #[trigger] positive_households(hs.subrange(0, k), ms, addresses, fees, year)[j]
                == positive_households(hs, ms, addresses, fees, year)[j],
    decreases hs.len() - k,
{
    if k == hs.len() {
        assert(hs.subrange(0, k) =~= hs);
    } else {
        lemma_positive_prefix(hs, ms, addresses, fees, year, k + 1);
        assert(hs.subrange(0, k + 1).drop_last() =~= hs.subrange(0, k));
        let short = positive_households(hs.subrange(0, k), ms, addresses, fees, year);
        let longer = positive_households(hs.subrange(0, k + 1), ms, addresses, fees, year);
        let full = positive_households(hs, ms, addresses, fees, year);
        assert forall|j: int| 0 <= j < short.len() implies #[trigger] short[j] == full[j] by {
            assert(short[j] == longer[j]);
        }
    }
}

impl Database {
    /// Invoice generation for `year` dated `today` and due on `due`: one
    /// invoice for each household that has billable members, no invoice
    /// created in `year` and a positive total, with one line per billed
    /// member. Returns the created invoices, which are also added to the
    /// register. Fails, changing nothing, where an amount or a new id would
    /// not fit an `i64`.
    pub fn create_invoices_on(&mut self, year: i32, today: Date, due: Date) -> (r: Result<
        Vec<Invoice>,
        DbError,
    >)
        ensures
            match r {
                Ok(created) => invoice_run(*old(self), year as int, today, due, *final(self), created@),
                Err(e) => {
                    &&& e == DbError::OutOfRange
                    &&& *final(self) == *old(self)
                    &&& run_out_of_range(*old(self), year as int)
                },
            },
            !run_out_of_range(*old(self), year as int) ==> r is Ok,
            run_out_of_range(*old(self), year as int) ==> r is Err,
    {
        let hs = self.find_pending_households(year);
        let base = self.max_invoice_id();
        let ghost ms = self.members@;
        let ghost addrs = self.addresses@;
        let ghost fees = self.membership_fees@;
        let ghost all = self.households_to_invoice(year as int);
        let mut created: Vec<Invoice> = Vec::new();
        let mut k: usize = 0;
        while k < hs.len()
            invariant
                hs@ == self.pending_households(year as int),
                all == positive_households(hs@, ms, addrs, fees, year as int),
                ms == self.members@,
                addrs == self.addresses@,
                fees == self.membership_fees@,
                base == max_invoice_id(self.invoices@),
                0 <= base,
                k <= hs@.len(),
                created@.len() <= k,
                created@.len() == positive_households(hs@.subrange(0, k as int), ms, addrs, fees, year as int).len(),
                forall|j: int|
                    0 <= j < created@.len() ==> new_invoice(
                        #[trigger] created@[j],
                        *self,
                        year as int,
                        today,
                        due,
                        positive_households(hs@.subrange(0, k as int), ms, addrs, fees, year as int)[j],
                        base + 1 + j,
                    ),
            decreases hs@.len() - k,
        {
            let h = hs[k];
            let ghost prev = positive_households(hs@.subrange(0, k as int), ms, addrs, fees, year as int);
            let ghost next = positive_households(hs@.subrange(0, k + 1), ms, addrs, fees, year as int);
            assert(hs@.subrange(0, k + 1).drop_last() =~= hs@.subrange(0, k as int));
            assert(hs@.subrange(0, k + 1).last() == h);
            let (lines, total) = self.household_bill(year, h);
            if total > 0 {
                let n = created.len();
                proof {
                    lemma_positive_prefix(hs@, ms, addrs, fees, year as int, k + 1);
                    assert(next == prev.push(h));
                    assert(next[n as int] == h);
                    assert(all[n as int] == h);
                }
                if total > i64::MAX as i128 {
                    return Err(DbError::OutOfRange);
                }
                if n as i128 >= i64::MAX as i128 - base as i128 {
                    return Err(DbError::OutOfRange);
                }
                let id: i64 = base + 1 + n as i64;
                let invoice = Invoice {
                    id,
                    talous_id: h,
                    luontipaiva: today,
                    erapaiva: due,
                    summa: total as i64,
                    viitenumero: reference_for_household(year, h),
                    laskunumero: Some(invoice_number_for_household(year, h)),
                    maksettu: false,
                    maksupaiva: None,
                    rivit: lines,
                };
                created.push(invoice);
                assert forall|j: int| 0 <= j < created@.len() implies new_invoice(
                    #[trigger] created@[j],
                    *self,
                    year as int,
                    today,
                    due,
                    next[j],
                    base + 1 + j,
                ) by {
                    if j < n {
                        assert(next[j] == prev[j]);
                    }
                }
            } else {
                assert(next == prev);
            }
            k = k + 1;
        }
        assert(hs@.subrange(0, k as int) =~= hs@);
        let ghost before = self.invoices@;
        let mut c: usize = 0;
        while c < created.len()
            invariant
                c <= created@.len(),
                same_records(*old(self), *self),
                self.invoices@.len() == before.len() + c,
                before == old(self).invoices@,
                forall|j: int| 0 <= j < before.len() ==> #[trigger] self.invoices@[j] == before[j],
                forall|j: int|
                    0 <= j < c ==> same_invoice(#[trigger] self.invoices@[before.len() + j], created@[j]),
            decreases created@.len() - c,
        {
            let copy = copy_invoice(&created[c]);
            self.invoices.push(copy);
            c = c + 1;
        }
        proof {
            if run_out_of_range(*old(self), year as int) {
                let hs_all = old(self).households_to_invoice(year as int);
                if exists|j: int| 0 <= j < hs_all.len() && old(self).household_total(year as int, #[trigger] hs_all[j]) > i64::MAX {
                    let j = choose|j: int| 0 <= j < hs_all.len() && old(self).household_total(year as int, #[trigger] hs_all[j]) > i64::MAX;
                    assert(new_invoice(created@[j], *old(self), year as int, today, due, hs_all[j], base + 1 + j));
                } else {
                    let j = hs_all.len() - 1;
                    assert(new_invoice(created@[j], *old(self), year as int, today, due, hs_all[j], base + 1 + j));
                }
            }
        }
        Ok(created)
    }
}

/// How many of the first `k` of `ms` are active.
pub open spec fn active_prefix(ms: Seq<Member>, k: int) -> nat
    decreases k,
{
    if k <= 0 {
        0
    } else {
        active_prefix(ms, k - 1) + if ms[k - 1].aktiivinen {
            1nat
        } else {
            0nat
        }
    }
}

/// How many of the first `k` of `invoices` were created in `year`.
pub open spec fn year_prefix(invoices: Seq<Invoice>, year: int, k: int) -> nat
    decreases k,
{
    if k <= 0 {
        0
    } else {
        year_prefix(invoices, year, k - 1) + if invoices[k - 1].luontipaiva.year == year {
            1nat
        } else {
            0nat
        }
    }
}

/// Some active member is of type `t`, and the catalog has no fee of `t` for
/// `year`.
pub open spec fn fee_missing(db: Database, year: int, t: MemberType) -> bool {
    &&& exists|i: int| 0 <= i < db.members@.len() && #[trigger] db.members@[i].aktiivinen && db.members@[i].jasentyyppi == t
    &&& fee_lookup(db.membership_fees@, year, t) is None
}

/// The member types whose fee for `year` is missing, in the order
/// varsinainen, kannatus, kunnia.
pub open spec fn missing_fee_types(db: Database, year: int) -> Seq<MemberType> {
    let a = if fee_missing(db, year, MemberType::Varsinainen) {
        seq![MemberType::Varsinainen]
    } else {
        seq![]
    };
    let b = if fee_missing(db, year, MemberType::Kannatus) {
        seq![MemberType::Kannatus]
    } else {
        seq![]
    };
    let c = if fee_missing(db, year, MemberType::Kunnia) {
        seq![MemberType::Kunnia]
    } else {
        seq![]
    };
    a + b + c
}

/// The outcome of the check that runs before invoice generation.
#[derive(Clone, Debug, PartialEq, Eq)]
pub enum CreationCheck {
    /// Active members have these types, and the types have no fee for the year.
    MissingFees(Vec<MemberType>),
    /// No member is active.
    NoActiveMembers,
    /// Every billable household is invoiced for the year already; this many
    /// invoices of the year exist.
    AlreadyInvoiced(u64),
    /// There is nothing to bill for the year.
    NothingToInvoice,
    /// A run would create `new_invoices` invoices; `existing` invoices of the
    /// year exist, and `active_members` members are active.
    Ready { new_invoices: u64, existing: u64, active_members: u64 },
}

/// `r` is the outcome of the check before a run for `year` on `db`.
pub open spec fn creation_check(db: Database, year: int, r: CreationCheck) -> bool {
    let missing = missing_fee_types(db, year);
    let to_invoice = db.households_to_invoice(year).len();
    if missing.len() > 0 {
        r matches CreationCheck::MissingFees(ts) && ts@ == missing
    } else if db.active_count() == 0 {
        r == CreationCheck::NoActiveMembers
    } else if to_invoice == 0 {
        if db.invoices_in_year(year) > 0 {
            r matches CreationCheck::AlreadyInvoiced(n) && n == db.invoices_in_year(year)
        } else {
            r == CreationCheck::NothingToInvoice
        }
    } else {
        r matches CreationCheck::Ready { new_invoices, existing, active_members }
            && new_invoices == to_invoice && existing == db.invoices_in_year(year)
            && active_members == db.active_count()
    }
}

/// The due date of an invoice created on `created`: thirty days later, where
/// the calendar can represent it.
pub fn due_date_for(created: Date) -> (r: Option<Date>)
    ensures
        r matches Some(d) ==> d.wf() && d.day_number() == created.day_number() + 30,
        created.wf() && first_day().day_number() <= created.day_number() && created.day_number() + 30
            <= last_day().day_number() ==> r is Some,
{
    add_days(created, 30)
}

impl Database {
    /// How many members are active.
    pub open spec fn active_count(self) -> nat {
        active_prefix(self.members@, self.members@.len() as int)
    }

    /// How many invoices were created in `year`.
    pub open spec fn invoices_in_year(self, year: int) -> nat {
        year_prefix(self.invoices@, year, self.invoices@.len() as int)
    }

    /// How many members are active.
    pub fn get_total_members(&self) -> (r: u64)
        ensures
            r == self.active_count(),
    {
        let mut n: u64 = 0;
        let mut i: usize = 0;
        while i < self.members.len()
            invariant
                i <= self.members@.len(),
                n == active_prefix(self.members@, i as int),
                n <= i,
            decreases self.members@.len() - i,
        {
            if self.members[i].aktiivinen {
                n = n + 1;
            }
            i = i + 1;
        }
        n
    }

    /// How many invoices were created in `year`.
    pub fn count_invoices_in_year(&self, year: i32) -> (r: u64)
        ensures
            r == self.invoices_in_year(year as int),
    {
        let mut n: u64 = 0;
        let mut i: usize = 0;
        while i < self.invoices.len()
            invariant
                i <= self.invoices@.len(),
                n == year_prefix(self.invoices@, year as int, i as int),
                n <= i,
            decreases self.invoices@.len() - i,
        {
            if self.invoices[i].luontipaiva.year == year {
                n = n + 1;
            }
            i = i + 1;
        }
        n
    }

    /// Whether some active member is of type `t`.
    fn has_active_of_type(&self, t: MemberType) -> (r: bool)
        ensures
            r == exists|i: int| 0 <= i < self.members@.len() && #[trigger] self.members@[i].aktiivinen && self.members@[i].jasentyyppi == t,
    {
        let mut i: usize = 0;
        while i < self.members.len()
            invariant
                i <= self.members@.len(),
                forall|j: int| 0 <= j < i ==> !(#[trigger] self.members@[j].aktiivinen && self.members@[j].jasentyyppi == t),
            decreases self.members@.len() - i,
        {
            if self.members[i].aktiivinen && self.members[i].jasentyyppi == t {
                return true;
            }
            i = i + 1;
        }
        false
    }

    /// Whether the fee of `t` for `year` is missing while active members have `t`.
    fn fee_is_missing(&self, year: i32, t: MemberType) -> (r: bool)
        ensures
            r == fee_missing(*self, year as int, t),
    {
        self.has_active_of_type(t) && self.resolve_fee(year, t).is_none()
    }

    /// How many households a run for `year` would invoice.
    pub fn count_households_to_invoice(&self, year: i32) -> (r: u64)
        ensures
            r == self.households_to_invoice(year as int).len(),
    {
        let hs = self.find_pending_households(year);
        let ghost ms = self.members@;
        let ghost addrs = self.addresses@;
        let ghost fees = self.membership_fees@;
        let mut n: u64 = 0;
        let mut k: usize = 0;
        while k < hs.len()
            invariant
                hs@ == self.pending_households(year as int),
                ms == self.members@,
                addrs == self.addresses@,
                fees == self.membership_fees@,
                k <= hs@.len(),
                n <= k,
                n == positive_households(hs@.subrange(0, k as int), ms, addrs, fees, year as int).len(),
            decreases hs@.len() - k,
        {
            assert(hs@.subrange(0, k + 1).drop_last() =~= hs@.subrange(0, k as int));
            let (_, total) = self.household_bill(year, hs[k]);
            if total > 0 {
                n = n + 1;
            }
            k = k + 1;
        }
        assert(hs@.subrange(0, k as int) =~= hs@);
        n
    }

    /// The check that runs before invoice generation for `year`. In order:
    /// every type of an active member needs a fee for the year; some member
    /// must be active; some household must be left to invoice, where the
    /// outcome tells whether the year is invoiced already.
    pub fn check_invoice_creation(&self, year: i32) -> (r: CreationCheck)
        ensures
            creation_check(*self, year as int, r),
    {
        let mut missing: Vec<MemberType> = Vec::new();
        if self.fee_is_missing(year, MemberType::Varsinainen) {
            missing.push(MemberType::Varsinainen);
        }
        if self.fee_is_missing(year, MemberType::Kannatus) {
            missing.push(MemberType::Kannatus);
        }
        if self.fee_is_missing(year, MemberType::Kunnia) {
            missing.push(MemberType::Kunnia);
        }
        assert(missing@ =~= missing_fee_types(*self, year as int));
        if missing.len() > 0 {
            return CreationCheck::MissingFees(missing);
        }
        let active = self.get_total_members();
        if active == 0 {
            return CreationCheck::NoActiveMembers;
        }
        let new_invoices = self.count_households_to_invoice(year);
        let existing = self.count_invoices_in_year(year);
        if new_invoices == 0 {
            if existing > 0 {
                CreationCheck::AlreadyInvoiced(existing)
            } else {
                CreationCheck::NothingToInvoice
            }
        } else {
            CreationCheck::Ready { new_invoices, existing, active_members: active }
        }
    }

    /// Invoice generation for `year`, dated today and due thirty days later
    /// (see `create_invoices_on`). Fails, changing nothing, where the due
    /// date cannot be computed.
    pub fn create_invoice_for_year(&mut self, year: i32) -> (r: Result<Vec<Invoice>, DbError>)
        ensures
            match r {
                Ok(created) => exists|t: Date, d: Date|
                    t.wf() && d.wf() && d.day_number() == t.day_number() + 30 && invoice_run(
                        *old(self),
                        year as int,
                        t,
                        d,
                        *final(self),
                        created@,
                    ),
                Err(e) => *final(self) == *old(self) && e == DbError::OutOfRange,
            },
            run_out_of_range(*old(self), year as int) ==> r is Err,
    {
        let t = today();
        match due_date_for(t) {
            Some(d) => self.create_invoices_on(year, t, d),
            None => Err(DbError::OutOfRange),
        }
    }
}

/// A run for `year` would create invoices: no fee is missing, some member is
/// active, and some household is left to invoice.
pub open spec fn ready_to_invoice(db: Database, year: int) -> bool {
    &&& missing_fee_types(db, year).len() == 0
    &&& db.active_count() > 0
    &&& db.households_to_invoice(year).len() > 0
}

/// The message of a successful check: how many invoices a run would create,
/// and how many of the year exist already.
pub open spec fn ready_message(new_invoices: nat, existing: nat, active: nat, year: int) -> Seq<char> {
    if existing > 0 {
        "Ready to create "@ + decimal(new_invoices) + " new invoices for year "@ + int_text(year, 1)
            + ". "@ + decimal(existing)
            + " invoices already exist; invoices are created only for households that have none yet."@
    } else {
        "Ready to create "@ + decimal(new_invoices) + " invoices for "@ + decimal(active)
            + " active members for year "@ + int_text(year, 1) + "."@
    }
}

/// The stored names of `ts`, separated by commas.
pub open spec fn type_names(ts: Seq<MemberType>) -> Seq<char>
    decreases ts.len(),
{
    if ts.len() == 0 {
        seq![]
    } else if ts.len() == 1 {
        member_type_name(ts[0])
    } else {
        type_names(ts.drop_last()) + ", "@ + member_type_name(ts.last())
    }
}

/// The error message when the fees of the member types `ts` are missing.
pub open spec fn missing_fees_message(ts: Seq<MemberType>, year: int) -> Seq<char> {
    "Membership fees are missing for year "@ + int_text(year, 1) + " for member types: "@
        + type_names(ts) + ". Define the fees before creating invoices."@
}

/// The error message when no member is active.
pub open spec fn no_active_members_message() -> Seq<char> {
    "No active members to invoice."@
}

/// The error message when every billable household has an invoice of the
/// year; `existing` invoices of the year exist.
pub open spec fn already_invoiced_message(year: int, existing: nat) -> Seq<char> {
    "Invoices have already been created for year "@ + int_text(year, 1) + ". "@ + decimal(existing)
        + " invoices exist."@
}

/// The error message when there is nothing to bill for the year.
pub open spec fn nothing_to_invoice_message(year: int) -> Seq<char> {
    "No members to invoice for year "@ + int_text(year, 1) + "."@
}

/// The stored names of `ts`, separated by commas.
fn type_list(ts: &Vec<MemberType>) -> (r: String)
    ensures
        r@ == type_names(ts@),
{
    let mut r = String::new();
    let mut i: usize = 0;
    while i < ts.len()
        invariant
            i <= ts@.len(),
            r@ == type_names(ts@.subrange(0, i as int)),
        decreases ts@.len() - i,
    {
        assert(ts@.subrange(0, i + 1).drop_last() =~= ts@.subrange(0, i as int));
        if i > 0 {
            r.append(", ");
        }
        let name = ts[i].to_string();
        r.append(name.as_str());
        proof {
            let s = ts@.subrange(0, i + 1);
            assert(s.last() == ts@[i as int]);
            if i == 0 {
                assert(s[0] == ts@[0]);
                assert(r@ =~= type_names(s));
            }
        }
        i = i + 1;
    }
    assert(ts@.subrange(0, i as int) =~= ts@);
    r
}

impl Database {
    /// The check before invoice generation for `year`, as a message: `Ok`
    /// with how many invoices a run would create where it would create any,
    /// otherwise a validation error that says what to change.
    pub fn validate_invoice_creation(&self, year: i32) -> (r: Result<String, DbError>)
        ensures
            r is Ok <==> ready_to_invoice(*self, year as int),
            r matches Ok(msg) ==> msg@ == ready_message(
                self.households_to_invoice(year as int).len(),
                self.invoices_in_year(year as int),
                self.active_count(),
                year as int,
            ),
            missing_fee_types(*self, year as int).len() > 0 ==> (r matches Err(DbError::Validation(msg))
                && msg@ == missing_fees_message(missing_fee_types(*self, year as int), year as int)),
            missing_fee_types(*self, year as int).len() == 0 && self.active_count() == 0 ==> (r matches Err(
                DbError::Validation(msg),
            ) && msg@ == no_active_members_message()),
            missing_fee_types(*self, year as int).len() == 0 && self.active_count() > 0
                && self.households_to_invoice(year as int).len() == 0 && self.invoices_in_year(year as int)
                > 0 ==> (r matches Err(DbError::Validation(msg)) && msg@ == already_invoiced_message(
                year as int,
                self.invoices_in_year(year as int),
            )),
            missing_fee_types(*self, year as int).len() == 0 && self.active_count() > 0
                && self.households_to_invoice(year as int).len() == 0 && self.invoices_in_year(year as int)
                == 0 ==> (r matches Err(DbError::Validation(msg)) && msg@ == nothing_to_invoice_message(
                year as int,
            )),
    {
        let y = int_to_text(year as i64, 1);
        match self.check_invoice_creation(year) {
            CreationCheck::MissingFees(ts) => {
                let mut msg = String::from_str("Membership fees are missing for year ");
                msg.append(y.as_str());
                msg.append(" for member types: ");
                let list = type_list(&ts);
                msg.append(list.as_str());
                msg.append(". Define the fees before creating invoices.");
                Err(DbError::Validation(msg))
            },
            CreationCheck::NoActiveMembers => {
                Err(DbError::Validation(String::from_str("No active members to invoice.")))
            },
            CreationCheck::AlreadyInvoiced(existing) => {
                let mut msg = String::from_str("Invoices have already been created for year ");
                msg.append(y.as_str());
                msg.append(". ");
                let e = decimal_text(existing);
                msg.append(e.as_str());
                msg.append(" invoices exist.");
                Err(DbError::Validation(msg))
            },
            CreationCheck::NothingToInvoice => {
                let mut msg = String::from_str("No members to invoice for year ");
                msg.append(y.as_str());
                msg.append(".");
                Err(DbError::Validation(msg))
            },
            CreationCheck::Ready { new_invoices, existing, active_members } => {
                let n = decimal_text(new_invoices);
                let mut msg = String::from_str("Ready to create ");
                msg.append(n.as_str());
                if existing > 0 {
                    msg.append(" new invoices for year ");
                    msg.append(y.as_str());
                    msg.append(". ");
                    let e = decimal_text(existing);
                    msg.append(e.as_str());
                    msg.append(
                        " invoices already exist; invoices are created only for households that have none yet.",
                    );
                } else {
                    msg.append(" invoices for ");
                    let a = decimal_text(active_members);
                    msg.append(a.as_str());
                    msg.append(" active members for year ");
                    msg.append(y.as_str());
                    msg.append(".");
                }
                Ok(msg)
            },
        }
    }
}

} // verus!
