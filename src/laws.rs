//! Properties of the billing engine that relate its operations to each
//! other, proved from their contracts.
use crate::billing::{
    billable, bills, creation_check, household_total, invoice_run, new_invoice, pending_prefix,
    positive_households, run_out_of_range, CreationCheck,
};
use crate::calendar::Date;
use crate::database::{address_household, invoiced_in, max_invoice_id, Database};
use crate::models::{same_invoice, Address, Invoice, Member, MembershipFee};
use vstd::prelude::*;

verus! {

/// A household in the pending list of the first `k` members has no invoice
/// of the year and has a member billed to it.
proof fn lemma_pending_sound(
    ms: Seq<Member>,
    addresses: Seq<Address>,
    fees: Seq<MembershipFee>,
    invoices: Seq<Invoice>,
    year: int,
    k: int,
    h: i64,
)
    requires
        0 <= k <= ms.len(),
        pending_prefix(ms, addresses, fees, invoices, year, k).contains(h),
    ensures
        !invoiced_in(invoices, h, year),
        exists|i: int| 0 <= i < k && bills(addresses, fees, year, h, #[trigger] ms[i]),
    decreases k,
{
    let p = pending_prefix(ms, addresses, fees, invoices, year, k - 1);
    if p.contains(h) {
        lemma_pending_sound(ms, addresses, fees, invoices, year, k - 1, h);
        let i = choose|i: int| 0 <= i < k - 1 && bills(addresses, fees, year, h, #[trigger] ms[i]);
        assert(bills(addresses, fees, year, h, ms[i]));
    } else {
        assert(bills(addresses, fees, year, h, ms[k - 1]));
    }
}

/// A household with a member billed to it among the first `k` and no
/// invoice of the year is in the pending list of the first `k` members.
proof fn lemma_pending_complete(
    ms: Seq<Member>,
    addresses: Seq<Address>,
    fees: Seq<MembershipFee>,
    invoices: Seq<Invoice>,
    year: int,
    k: int,
    h: i64,
    i: int,
)
    requires
        0 <= i < k <= ms.len(),
        bills(addresses, fees, year, h, ms[i]),
        !invoiced_in(invoices, h, year),
    ensures
        pending_prefix(ms, addresses, fees, invoices, year, k).contains(h),
    decreases k,
{
    let p = pending_prefix(ms, addresses, fees, invoices, year, k - 1);
    if i < k - 1 {
        lemma_pending_complete(ms, addresses, fees, invoices, year, k - 1, h, i);
        let j = choose|j: int| 0 <= j < p.len() && p[j] == h;
        let m = ms[k - 1];
        let mh = address_household(addresses, m.osoite_id)->Some_0;
        if billable(addresses, fees, year, m) && !invoiced_in(invoices, mh, year) && !p.contains(mh) {
            assert(p.push(mh)[j] == h);
        }
    } else {
        assert(billable(addresses, fees, year, ms[i]));
        if !p.contains(h) {
            assert(p.push(h)[p.len() as int] == h);
        }
    }
}

/// A household of `hs` with a positive total is among the positive ones.
proof fn lemma_positive_complete(
    hs: Seq<i64>,
    ms: Seq<Member>,
    addresses: Seq<Address>,
    fees: Seq<MembershipFee>,
    year: int,
    h: i64,
)
    requires
        hs.contains(h),
        household_total(ms, addresses, fees, year, h) > 0,
    ensures
        positive_households(hs, ms, addresses, fees, year).contains(h),
    decreases hs.len(),
{
    let p = positive_households(hs.drop_last(), ms, addresses, fees, year);
    if hs.last() == h {
        assert(p.push(h)[p.len() as int] == h);
    } else {
        let j = choose|j: int| 0 <= j < hs.len() && hs[j] == h;
        assert(hs.drop_last()[j] == h);
        lemma_positive_complete(hs.drop_last(), ms, addresses, fees, year, h);
        let q = choose|q: int| 0 <= q < p.len() && p[q] == h;
        if household_total(ms, addresses, fees, year, hs.last()) > 0 {
            assert(p.push(hs.last())[q] == h);
        }
    }
}

/// Where no household of `hs` has a positive total, none is positive.
proof fn lemma_none_positive(
    hs: Seq<i64>,
    ms: Seq<Member>,
    addresses: Seq<Address>,
    fees: Seq<MembershipFee>,
    year: int,
)
    requires
        forall|j: int| 0 <= j < hs.len() ==> household_total(ms, addresses, fees, year, #[trigger] hs[j]) <= 0,
    ensures
        positive_households(hs, ms, addresses, fees, year).len() == 0,
    decreases hs.len(),
{
    if hs.len() > 0 {
        assert forall|j: int| 0 <= j < hs.drop_last().len() implies household_total(
            ms,
            addresses,
            fees,
            year,
            #[trigger] hs.drop_last()[j],
        ) <= 0 by {
            assert(hs.drop_last()[j] == hs[j]);
        }
        lemma_none_positive(hs.drop_last(), ms, addresses, fees, year);
        assert(household_total(ms, addresses, fees, year, hs[hs.len() - 1]) <= 0);
    }
}

/// No invoice id exceeds the range of `i64`.
proof fn lemma_max_id_in_range(invoices: Seq<Invoice>)
    ensures
        max_invoice_id(invoices) <= i64::MAX,
    decreases invoices.len(),
{
    if invoices.len() > 0 {
        lemma_max_id_in_range(invoices.drop_last());
    }
}

/// Every invoice that a run creates has an amount equal to the sum of its
/// lines, and so does its stored copy.
pub proof fn invoice_amount_is_sum_of_lines(
    old: Database,
    year: int,
    today: Date,
    due: Date,
    new: Database,
    created: Seq<Invoice>,
)
    requires
        invoice_run(old, year, today, due, new, created),
    ensures
        forall|j: int|
            0 <= j < created.len() ==> (#[trigger] created[j]).summa == crate::billing::line_total(
                created[j].rivit@,
            ),
        forall|j: int|
            old.invoices@.len() <= j < new.invoices@.len() ==> (#[trigger] new.invoices@[j]).summa
                == crate::billing::line_total(new.invoices@[j].rivit@),
{
    let hs = old.households_to_invoice(year);
    assert forall|j: int| 0 <= j < created.len() implies (#[trigger] created[j]).summa
        == crate::billing::line_total(created[j].rivit@) by {
        assert(new_invoice(created[j], old, year, today, due, hs[j], max_invoice_id(old.invoices@) + 1 + j));
    }
    assert forall|j: int| old.invoices@.len() <= j < new.invoices@.len() implies (
    #[trigger] new.invoices@[j]).summa == crate::billing::line_total(new.invoices@[j].rivit@) by {
        let c = j - old.invoices@.len();
        assert(same_invoice(new.invoices@[old.invoices@.len() + c], created[c]));
        assert(new_invoice(created[c], old, year, today, due, hs[c], max_invoice_id(old.invoices@) + 1 + c));
    }
}

/// A household whose billed fees sum to zero or less gets no invoice.
pub proof fn zero_fee_household_not_invoiced(
    old: Database,
    year: int,
    today: Date,
    due: Date,
    new: Database,
    created: Seq<Invoice>,
    h: i64,
)
    requires
        invoice_run(old, year, today, due, new, created),
        old.household_total(year, h) <= 0,
    ensures
        forall|j: int| 0 <= j < created.len() ==> (#[trigger] created[j]).talous_id != h,
{
    let hs = old.households_to_invoice(year);
    assert forall|j: int| 0 <= j < created.len() implies (#[trigger] created[j]).talous_id != h by {
        assert(new_invoice(created[j], old, year, today, due, hs[j], max_invoice_id(old.invoices@) + 1 + j));
    }
}

/// The number of invoices that the check before a run reports, and that
/// the message of `validate_invoice_creation` states, equals the number of
/// invoices that the run then creates.
pub proof fn check_count_matches_run(
    db: Database,
    year: int,
    check: CreationCheck,
    today: Date,
    due: Date,
    new: Database,
    created: Seq<Invoice>,
)
    requires
        creation_check(db, year, check),
        invoice_run(db, year, today, due, new, created),
    ensures
        check matches CreationCheck::Ready { new_invoices, .. } ==> new_invoices == created.len(),
        created.len() == db.households_to_invoice(year).len(),
{
}

/// A run dated in the year that it invoices leaves nothing for a second run
/// of that year: the second run cannot fail, and creates no invoice.
pub proof fn second_run_creates_nothing(
    db: Database,
    year: int,
    today: Date,
    due: Date,
    after: Database,
    created: Seq<Invoice>,
)
    requires
        invoice_run(db, year, today, due, after, created),
        today.year == year,
    ensures
        after.households_to_invoice(year).len() == 0,
        !run_out_of_range(after, year),
        forall|t: Date, d: Date, last: Database, again: Seq<Invoice>|
            #[trigger] invoice_run(after, year, t, d, last, again) ==> again.len() == 0,
{
    let ms = db.members@;
    let addrs = db.addresses@;
    let fees = db.membership_fees@;
    let hs1 = db.households_to_invoice(year);
    let pend1 = db.pending_households(year);
    let pend2 = after.pending_households(year);
    assert(after.members@ == ms && after.addresses@ == addrs && after.membership_fees@ == fees);
    assert forall|j: int| 0 <= j < pend2.len() implies household_total(
        ms,
        addrs,
        fees,
        year,
        #[trigger] pend2[j],
    ) <= 0 by {
        let h = pend2[j];
        assert(pend2.contains(h));
        lemma_pending_sound(ms, addrs, fees, after.invoices@, year, ms.len() as int, h);
        let i = choose|i: int| 0 <= i < ms.len() && bills(addrs, fees, year, h, #[trigger] ms[i]);
        if invoiced_in(db.invoices@, h, year) {
            let x = choose|x: int|
                0 <= x < db.invoices@.len() && #[trigger] db.invoices@[x].talous_id == h
                    && db.invoices@[x].luontipaiva.year == year;
            assert(after.invoices@[x] == db.invoices@[x]);
            assert(after.invoices@[x].talous_id == h);
        }
        lemma_pending_complete(ms, addrs, fees, db.invoices@, year, ms.len() as int, h, i);
        if household_total(ms, addrs, fees, year, h) > 0 {
            lemma_positive_complete(pend1, ms, addrs, fees, year, h);
            let q = choose|q: int| 0 <= q < hs1.len() && hs1[q] == h;
            let n = db.invoices@.len() + q;
            assert(same_invoice(after.invoices@[n], created[q]));
            assert(new_invoice(created[q], db, year, today, due, hs1[q], max_invoice_id(db.invoices@) + 1 + q));
            assert(after.invoices@[n].talous_id == h);
        }
    }
    lemma_none_positive(pend2, ms, addrs, fees, year);
    lemma_max_id_in_range(after.invoices@);
}

} // verus!
