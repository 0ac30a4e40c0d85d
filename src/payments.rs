//! Invoice payment and deletion, and the figures of the register's overview.
use crate::billing::same_records;
use crate::calendar::Date;
use crate::database::Database;
use crate::models::{copy_invoice, same_invoice, DbError, Invoice};
use vstd::prelude::*;

verus! {

/// The index of the first invoice of `invoices` with id `id`, if any.
pub open spec fn invoice_index(invoices: Seq<Invoice>, id: i64) -> Option<int>
    decreases invoices.len(),
{
    if invoices.len() == 0 {
        None
    } else if invoices[0].id == id {
        Some(0)
    } else {
        match invoice_index(invoices.subrange(1, invoices.len() as int), id) {
            Some(i) => Some(i + 1),
            None => None,
        }
    }
}

/// `c` marked as paid on `d`.
pub open spec fn paid_on(c: Invoice, d: Date) -> Invoice {
    Invoice { maksettu: true, maksupaiva: Some(d), ..c }
}

/// The invoices of `invoices` other than `id`.
pub open spec fn invoices_without(invoices: Seq<Invoice>, id: i64) -> Seq<Invoice> {
    invoices.filter(|c: Invoice| c.id != id)
}

/// The sum of the amounts of the first `k` of `invoices` that are unpaid.
pub open spec fn unpaid_prefix(invoices: Seq<Invoice>, k: int) -> int
    decreases k,
{
    if k <= 0 {
        0
    } else {
        unpaid_prefix(invoices, k - 1) + if !invoices[k - 1].maksettu {
            invoices[k - 1].summa as int
        } else {
            0
        }
    }
}

/// How many of the first `k` of `invoices` are unpaid.
pub open spec fn open_prefix(invoices: Seq<Invoice>, k: int) -> nat
    decreases k,
{
    if k <= 0 {
        0
    } else {
        open_prefix(invoices, k - 1) + if !invoices[k - 1].maksettu {
            1nat
        } else {
            0nat
        }
    }
}

/// The sum of the amounts of the first `k` of `invoices` paid in `year`.
pub open spec fn income_prefix(invoices: Seq<Invoice>, year: int, k: int) -> int
    decreases k,
{
    if k <= 0 {
        0
    } else {
        income_prefix(invoices, year, k - 1) + if invoices[k - 1].maksettu
            && (invoices[k - 1].maksupaiva matches Some(d) && d.year == year) {
            invoices[k - 1].summa as int
        } else {
            0
        }
    }
}

/// Figures of the register's overview; amounts in cents.
#[derive(Clone, Copy, Debug, PartialEq, Eq, Structural)]
pub struct DashboardStats {
    pub total_members: u64,
    pub open_invoices: u64,
    pub total_receivables: i128,
    pub yearly_income: i128,
}

impl Database {
    /// The index of the first invoice with id `id`.
    fn find_invoice(&self, id: i64) -> (r: Option<usize>)
        ensures
            match r {
                Some(j) => invoice_index(self.invoices@, id) == Some(j as int) && j < self.invoices@.len(),
                None => invoice_index(self.invoices@, id) is None,
            },
    {
        let mut i: usize = 0;
        assert(self.invoices@.subrange(0, self.invoices@.len() as int) =~= self.invoices@);
        while i < self.invoices.len()
            invariant
                i <= self.invoices@.len(),
                match invoice_index(self.invoices@, id) {
                    Some(x) => match invoice_index(
                        self.invoices@.subrange(i as int, self.invoices@.len() as int),
                        id,
                    ) {
                        Some(y) => x == y + i,
                        None => false,
                    },
                    None => invoice_index(
                        self.invoices@.subrange(i as int, self.invoices@.len() as int),
                        id,
                    ) is None,
                },
            decreases self.invoices@.len() - i,
        {
            let ghost rest = self.invoices@.subrange(i as int, self.invoices@.len() as int);
            assert(rest[0] == self.invoices@[i as int]);
            assert(rest.subrange(1, rest.len() as int) =~= self.invoices@.subrange(
                i + 1,
                self.invoices@.len() as int,
            ));
            if self.invoices[i].id == id {
                assert(invoice_index(rest, id) == Some(0int));
                return Some(i);
            }
            i = i + 1;
        }
        None
    }

    /// Marks the first invoice with id `id` as paid on `payment_date` and
    /// returns it as it now is; an unknown id is not found, and then nothing
    /// changes.
    pub fn mark_invoice_paid(&mut self, id: i64, payment_date: Date) -> (r: Result<Invoice, DbError>)
        ensures
            invoice_index(old(self).invoices@, id) is None ==> r == Err::<Invoice, DbError>(
                DbError::NotFound(id),
            ) && final(self).invoices@ == old(self).invoices@,
            invoice_index(old(self).invoices@, id) matches Some(i) ==> final(self).invoices@ == old(
                self,
            ).invoices@.update(i, paid_on(old(self).invoices@[i], payment_date)),
            invoice_index(old(self).invoices@, id) matches Some(i) ==> (r matches Ok(c)
                && same_invoice(c, final(self).invoices@[i])),
            same_records(*old(self), *final(self)),
    {
        match self.find_invoice(id) {
            Some(i) => {
                assert(invoice_index(old(self).invoices@, id) == Some(i as int));
                let mut c = self.invoices.remove(i);
                c.maksettu = true;
                c.maksupaiva = Some(payment_date);
                let out = copy_invoice(&c);
                self.invoices.insert(i, c);
                assert(self.invoices@ =~= old(self).invoices@.update(
                    i as int,
                    paid_on(old(self).invoices@[i as int], payment_date),
                ));
                assert(self.invoices@[i as int] == c);
                assert(same_invoice(out, self.invoices@[i as int]));
                Ok(out)
            },
            None => Err(DbError::NotFound(id)),
        }
    }

    /// Deletes the invoices with id `id` together with their lines; where
    /// there is none, the id is not found and nothing changes.
    pub fn delete_invoice(&mut self, id: i64) -> (r: Result<(), DbError>)
        ensures
            r is Ok <==> invoice_index(old(self).invoices@, id) is Some,
            r is Err ==> r == Err::<(), DbError>(DbError::NotFound(id)) && *final(self) == *old(self),
            r is Ok ==> final(self).invoices@ == invoices_without(old(self).invoices@, id),
            same_records(*old(self), *final(self)),
    {
        if self.find_invoice(id).is_none() {
            return Err(DbError::NotFound(id));
        }
        let ghost orig = self.invoices@;
        let ghost p = |c: Invoice| c.id != id;
        let ghost mut k: int = 0;
        let mut i: usize = 0;
        while i < self.invoices.len()
            invariant
                orig == old(self).invoices@,
                same_records(*old(self), *self),
                p == (|c: Invoice| c.id != id),
                0 <= i <= k <= orig.len(),
                i <= self.invoices@.len(),
                self.invoices@.subrange(0, i as int) == orig.subrange(0, k).filter(p),
                self.invoices@.subrange(i as int, self.invoices@.len() as int) == orig.subrange(
                    k,
                    orig.len() as int,
                ),
            decreases self.invoices@.len() - i,
        {
            proof {
                reveal(Seq::filter);
                let tail = self.invoices@.subrange(i as int, self.invoices@.len() as int);
                assert(tail.len() == orig.subrange(k, orig.len() as int).len());
                assert(k < orig.len());
                assert(tail[0] == self.invoices@[i as int]);
                assert(orig.subrange(0, k + 1).drop_last() =~= orig.subrange(0, k));
                assert(self.invoices@[i as int] == orig[k]);
            }
            if self.invoices[i].id == id {
                let ghost before = self.invoices@;
                self.invoices.remove(i);
                assert(self.invoices@.subrange(0, i as int) =~= before.subrange(0, i as int));
                proof {
                    let t = before.subrange(i as int, before.len() as int);
                    let u = self.invoices@.subrange(i as int, self.invoices@.len() as int);
                    assert forall|j: int| 0 <= j < u.len() implies u[j] == orig.subrange(
                        k + 1,
                        orig.len() as int,
                    )[j] by {
                        assert(u[j] == t[j + 1]);
                        assert(t[j + 1] == orig.subrange(k, orig.len() as int)[j + 1]);
                    }
                    assert(u =~= orig.subrange(k + 1, orig.len() as int));
                }
            } else {
                let ghost before = self.invoices@;
                assert(self.invoices@.subrange(0, i + 1) =~= before.subrange(0, i as int).push(
                    orig[k],
                ));
                proof {
                    let t = before.subrange(i as int, before.len() as int);
                    let u = self.invoices@.subrange(i + 1, self.invoices@.len() as int);
                    assert forall|j: int| 0 <= j < u.len() implies u[j] == orig.subrange(
                        k + 1,
                        orig.len() as int,
                    )[j] by {
                        assert(u[j] == t[j + 1]);
                        assert(t[j + 1] == orig.subrange(k, orig.len() as int)[j + 1]);
                    }
                    assert(u =~= orig.subrange(k + 1, orig.len() as int));
                }
                i = i + 1;
            }
            proof {
                k = k + 1;
            }
        }
        proof {
            assert(orig.subrange(k, orig.len() as int).len() == 0);
            assert(k == orig.len());
            assert(orig.subrange(0, k) =~= orig);
            assert(self.invoices@.subrange(0, i as int) =~= self.invoices@);
        }
        Ok(())
    }

    /// How many invoices are unpaid.
    pub fn get_open_invoices_count(&self) -> (r: u64)
        ensures
            r == open_prefix(self.invoices@, self.invoices@.len() as int),
    {
        let mut n: u64 = 0;
        let mut i: usize = 0;
        while i < self.invoices.len()
            invariant
                i <= self.invoices@.len(),
                n == open_prefix(self.invoices@, i as int),
                n <= i,
            decreases self.invoices@.len() - i,
        {
            if !self.invoices[i].maksettu {
                n = n + 1;
            }
            i = i + 1;
        }
        n
    }

    /// The sum of the amounts of the unpaid invoices, in cents.
    pub fn get_total_receivables(&self) -> (r: i128)
        ensures
            r == unpaid_prefix(self.invoices@, self.invoices@.len() as int),
    {
        let mut total: i128 = 0;
        let mut i: usize = 0;
        while i < self.invoices.len()
            invariant
                i <= self.invoices@.len(),
                total == unpaid_prefix(self.invoices@, i as int),
                -(i as int) * 0x8000_0000_0000_0000 <= total <= (i as int) * 0x8000_0000_0000_0000,
            decreases self.invoices@.len() - i,
        {
            if !self.invoices[i].maksettu {
                total = total + self.invoices[i].summa as i128;
            }
            i = i + 1;
        }
        total
    }

    /// The sum of the amounts of the invoices paid in `year`, in cents.
    pub fn get_yearly_income(&self, year: i32) -> (r: i128)
        ensures
            r == income_prefix(self.invoices@, year as int, self.invoices@.len() as int),
    {
        let mut total: i128 = 0;
        let mut i: usize = 0;
        while i < self.invoices.len()
            invariant
                i <= self.invoices@.len(),
                total == income_prefix(self.invoices@, year as int, i as int),
                -(i as int) * 0x8000_0000_0000_0000 <= total <= (i as int) * 0x8000_0000_0000_0000,
            decreases self.invoices@.len() - i,
        {
            let c = &self.invoices[i];
            if c.maksettu {
                if let Some(d) = c.maksupaiva {
                    if d.year == year {
                        total = total + c.summa as i128;
                    }
                }
            }
            i = i + 1;
        }
        total
    }

    /// The overview figures, with the income of `year`.
    pub fn get_dashboard_stats(&self, year: i32) -> (r: DashboardStats)
        ensures
            r.total_members == self.active_count(),
            r.open_invoices == open_prefix(self.invoices@, self.invoices@.len() as int),
            r.total_receivables == unpaid_prefix(self.invoices@, self.invoices@.len() as int),
            r.yearly_income == income_prefix(self.invoices@, year as int, self.invoices@.len() as int),
    {
        DashboardStats {
            total_members: self.get_total_members(),
            open_invoices: self.get_open_invoices_count(),
            total_receivables: self.get_total_receivables(),
            yearly_income: self.get_yearly_income(year),
        }
    }
}

} // verus!
