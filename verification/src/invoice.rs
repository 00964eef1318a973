//! Invoice contract: a global default grace period and per-invoice overrides,
//! both capped at `MAX_GRACE_PERIOD_DAYS`.
//!
//! The invoices are kept in a `Vec` whose ids are pairwise distinct, so the
//! vector stands for a map from ids to invoices (`InvoiceContract::view`).

use vstd::prelude::*;

use crate::invoice_model::{
    effective_grace_period, GraceErrorView, InvoiceBook, InvoiceOp, InvoiceView, MAX_GRACE_PERIOD_DAYS,
};

verus! {

/// Errors of the grace period operations.
#[derive(Debug, Clone, PartialEq)]
pub enum GracePeriodError {
    /// The requested grace period is above the maximum.
    ExceededMaximumGracePeriod { days: u32, max: u32 },
    /// No invoice has this id.
    InvoiceNotFound { id: String },
    /// The invoice id is empty.
    InvalidInvoiceId,
}

impl View for GracePeriodError {
    type V = GraceErrorView;

    open spec fn view(&self) -> GraceErrorView {
        match self {
            GracePeriodError::ExceededMaximumGracePeriod { days, max } =>
                GraceErrorView::ExceededMaximumGracePeriod { days: *days, max: *max },
            GracePeriodError::InvoiceNotFound { id } => GraceErrorView::InvoiceNotFound { id: id@ },
            GracePeriodError::InvalidInvoiceId => GraceErrorView::InvalidInvoiceId,
        }
    }
}

/// A single invoice with an optional grace period override.
#[derive(Debug, Clone)]
pub struct Invoice {
    pub id: String,
    pub amount: u64,
    pub grace_period_override: Option<u32>,
}

impl View for Invoice {
    type V = InvoiceView;

    open spec fn view(&self) -> InvoiceView {
        InvoiceView {
            id: self.id@,
            amount: self.amount,
            grace_period_override: self.grace_period_override,
        }
    }
}

/// What a unit operation's result and final state say, in model terms.
pub open spec fn outcome(r: Result<(), GracePeriodError>, after: InvoiceBook) -> Result<InvoiceBook, GraceErrorView> {
    match r {
        Ok(_) => Ok(after),
        Err(e) => Err(e@),
    }
}

/// A lookup's result in model terms.
pub open spec fn days_outcome(r: Result<u32, GracePeriodError>) -> Result<u32, GraceErrorView> {
    match r {
        Ok(d) => Ok(d),
        Err(e) => Err(e@),
    }
}

/// No two stored invoices share an id.
pub open spec fn ids_distinct(s: Seq<Invoice>) -> bool {
    forall|i: int, j: int|
        0 <= i < s.len() && 0 <= j < s.len() && i != j ==> #[trigger] s[i].id@ != #[trigger] s[j].id@
}

/// Every stored invoice has a non-empty id and an override within the cap.
pub open spec fn entries_ok(s: Seq<Invoice>) -> bool {
    forall|i: int|
        0 <= i < s.len() ==> {
            &&& (#[trigger] s[i]).id@.len() > 0
            &&& (s[i].grace_period_override matches Some(d) ==> d <= MAX_GRACE_PERIOD_DAYS)
        }
}

/// The map that a vector of invoices stands for: each invoice under its id,
/// later entries taking precedence.
pub open spec fn invoice_map(s: Seq<Invoice>) -> Map<Seq<char>, InvoiceView>
    decreases s.len(),
{
    if s.len() == 0 {
        Map::empty()
    } else {
        invoice_map(s.drop_last()).insert(s.last().id@, s.last()@)
    }
}

proof fn lemma_map_dom(s: Seq<Invoice>)
    ensures
        invoice_map(s).dom().finite(),
        forall|k: Seq<char>|
            #[trigger] invoice_map(s).contains_key(k) <==> exists|i: int| 0 <= i < s.len() && s[i].id@ == k,
    decreases s.len(),
{
    if s.len() > 0 {
        let t = s.drop_last();
        lemma_map_dom(t);
        assert forall|k: Seq<char>|
            #[trigger] invoice_map(s).contains_key(k) <==> exists|i: int| 0 <= i < s.len() && s[i].id@ == k
        by {
            if invoice_map(s).contains_key(k) {
                if k == s.last().id@ {
                    assert(s[s.len() - 1].id@ == k);
                } else {
                    let i = choose|i: int| 0 <= i < t.len() && t[i].id@ == k;
                    assert(s[i].id@ == k);
                }
            }
            if exists|i: int| 0 <= i < s.len() && s[i].id@ == k {
                let i = choose|i: int| 0 <= i < s.len() && s[i].id@ == k;
                if i < s.len() - 1 {
                    assert(t[i].id@ == k);
                }
            }
        }
    }
}

proof fn lemma_map_at(s: Seq<Invoice>, i: int)
    requires
        ids_distinct(s),
        0 <= i < s.len(),
    ensures
        invoice_map(s).contains_key(s[i].id@),
        invoice_map(s)[s[i].id@] == s[i]@,
    decreases s.len(),
{
    if i < s.len() - 1 {
        let t = s.drop_last();
        assert(ids_distinct(t)) by {
            assert forall|a: int, b: int|
                0 <= a < t.len() && 0 <= b < t.len() && a != b implies #[trigger] t[a].id@ != #[trigger] t[b].id@
            by {
                assert(t[a] == s[a] && t[b] == s[b]);
            }
        }
        lemma_map_at(t, i);
        assert(t[i] == s[i]);
        assert(s[i].id@ != s[s.len() - 1].id@);
    }
}

proof fn lemma_map_update(s: Seq<Invoice>, i: int, v: Invoice)
    requires
        ids_distinct(s),
        0 <= i < s.len(),
        v.id@ == s[i].id@,
    ensures
        invoice_map(s.update(i, v)) =~= invoice_map(s).insert(v.id@, v@),
    decreases s.len(),
{
    let u = s.update(i, v);
    let t = s.drop_last();
    if i == s.len() - 1 {
        assert(u.drop_last() =~= t);
        assert(u.last() == v);
    } else {
        assert(u.drop_last() =~= t.update(i, v));
        assert(u.last() == s.last());
        assert(ids_distinct(t)) by {
            assert forall|a: int, b: int|
                0 <= a < t.len() && 0 <= b < t.len() && a != b implies #[trigger] t[a].id@ != #[trigger] t[b].id@
            by {
                assert(t[a] == s[a] && t[b] == s[b]);
            }
        }
        lemma_map_update(t, i, v);
        assert(s[i].id@ != s[s.len() - 1].id@);
    }
}

proof fn lemma_map_same_view(s: Seq<Invoice>, t: Seq<Invoice>)
    requires
        s.len() == t.len(),
        forall|j: int| 0 <= j < s.len() ==> #[trigger] s[j]@ == t[j]@,
    ensures
        invoice_map(s) == invoice_map(t),
    decreases s.len(),
{
    if s.len() > 0 {
        lemma_map_same_view(s.drop_last(), t.drop_last());
        assert(s.last()@ == t.last()@);
    }
}

proof fn lemma_map_push(s: Seq<Invoice>, v: Invoice)
    ensures
        invoice_map(s.push(v)) == invoice_map(s).insert(v.id@, v@),
{
    assert(s.push(v).drop_last() =~= s);
}

/// The invoice contract's state: the global default grace period and the
/// invoices.
#[derive(Debug)]
pub struct InvoiceContract {
    grace_period_days: u32,
    invoices: Vec<Invoice>,
}

impl View for InvoiceContract {
    type V = InvoiceBook;

    closed spec fn view(&self) -> InvoiceBook {
        InvoiceBook { grace_period_days: self.grace_period_days, invoices: invoice_map(self.invoices@) }
    }
}

impl InvoiceContract {
    #[verifier::type_invariant]
    spec fn well_formed(self) -> bool {
        &&& self.grace_period_days <= MAX_GRACE_PERIOD_DAYS
        &&& ids_distinct(self.invoices@)
        &&& entries_ok(self.invoices@)
    }

    proof fn lemma_view_valid(self)
        requires
            self.well_formed(),
        ensures
            self@.is_valid(),
    {
        let s = self.invoices@;
        lemma_map_dom(s);
        assert forall|k: Seq<char>| #[trigger] invoice_map(s).contains_key(k) implies {
            &&& k.len() > 0
            &&& invoice_map(s)[k].id == k
            &&& (invoice_map(s)[k].grace_period_override matches Some(d) ==> d <= MAX_GRACE_PERIOD_DAYS)
        } by {
            let i = choose|i: int| 0 <= i < s.len() && s[i].id@ == k;
            lemma_map_at(s, i);
            assert(entries_ok(s));
            assert(s[i].id@.len() > 0);
        }
    }

    /// Index of the invoice whose id is `key`, if any.
    fn find_index(&self, key: &String) -> (r: Option<usize>)
        ensures
            match r {
                Some(i) => i < self.invoices@.len() && self.invoices@[i as int].id@ == key@,
                None => forall|i: int| 0 <= i < self.invoices@.len() ==> self.invoices@[i].id@ != key@,
            },
    {
        let mut i: usize = 0;
        while i < self.invoices.len()
            invariant
                i <= self.invoices@.len(),
                forall|j: int| 0 <= j < i ==> self.invoices@[j].id@ != key@,
            decreases self.invoices@.len() - i,
        {
            if self.invoices[i].id.eq(key) {
                return Some(i);
            }
            i += 1;
        }
        None
    }

    /// Creates a contract with a global grace period of 0 days and no invoices.
    pub fn new() -> (r: Self)
        ensures
            r@ == InvoiceBook::empty(),
            r@.is_valid(),
    {
        let r = InvoiceContract { grace_period_days: 0, invoices: Vec::new() };
        proof {
            assert(r@.invoices =~= Map::empty());
            r.lemma_view_valid();
        }
        r
    }

    /// Sets the global default grace period, which applies to every invoice
    /// without an override. Fails, changing nothing, when `days` is above
    /// `MAX_GRACE_PERIOD_DAYS`.
    pub fn set_grace_period_days(&mut self, days: u32) -> (r: Result<(), GracePeriodError>)
        ensures
            outcome(r, final(self)@) == old(self)@.set_grace_period_days(days),
            final(self)@ == old(self)@.apply(InvoiceOp::SetGracePeriodDays { days }),
            r is Ok <==> days <= MAX_GRACE_PERIOD_DAYS,
            r is Ok ==> final(self)@.grace_period_days == days && final(self)@.invoices == old(self)@.invoices,
            r is Err ==> final(self)@ == old(self)@,
            final(self)@.is_valid(),
    {
        proof {
            use_type_invariant(&*self);
            self.lemma_view_valid();
        }
        if days > MAX_GRACE_PERIOD_DAYS {
            return Err(GracePeriodError::ExceededMaximumGracePeriod { days, max: MAX_GRACE_PERIOD_DAYS });
        }
        self.grace_period_days = days;
        proof {
            use_type_invariant(&*self);
            self.lemma_view_valid();
        }
        Ok(())
    }

    /// The global default grace period, in days.
    pub fn get_grace_period_days(&self) -> (r: u32)
        ensures
            r == self@.grace_period_days,
            self@.is_valid(),
    {
        proof {
            use_type_invariant(self);
            self.lemma_view_valid();
        }
        self.grace_period_days
    }

    /// Gives the invoice `id` its own grace period of `days` days. Fails,
    /// changing nothing, with `InvalidInvoiceId` for an empty id, then with
    /// `ExceededMaximumGracePeriod` when `days` is above the cap, then with
    /// `InvoiceNotFound` when no invoice has this id.
    pub fn set_invoice_grace_period(&mut self, id: &str, days: u32) -> (r: Result<(), GracePeriodError>)
        ensures
            outcome(r, final(self)@) == old(self)@.set_invoice_grace_period(id@, days),
            final(self)@ == old(self)@.apply(InvoiceOp::SetInvoiceGracePeriod { id: id@, days }),
            r is Ok <==> (id@.len() > 0 && days <= MAX_GRACE_PERIOD_DAYS && old(self)@.invoices.contains_key(id@)),
            r is Ok ==> final(self)@.grace_period_days == old(self)@.grace_period_days
                && final(self)@.invoices == old(self)@.invoices.insert(
                id@,
                InvoiceView {
                    id: id@,
                    amount: old(self)@.invoices[id@].amount,
                    grace_period_override: Some(days),
                },
            ),
            r is Err ==> final(self)@ == old(self)@,
            final(self)@.is_valid(),
    {
        proof {
            use_type_invariant(&*self);
            self.lemma_view_valid();
        }
        if id.is_empty() {
            return Err(GracePeriodError::InvalidInvoiceId);
        }
        if days > MAX_GRACE_PERIOD_DAYS {
            return Err(GracePeriodError::ExceededMaximumGracePeriod { days, max: MAX_GRACE_PERIOD_DAYS });
        }
        let key = id.to_owned();
        match self.find_index(&key) {
            None => {
                proof {
                    lemma_map_dom(self.invoices@);
                }
                Err(GracePeriodError::InvoiceNotFound { id: key })
            },
            Some(i) => {
                let updated = Invoice {
                    id: self.invoices[i].id.clone(),
                    amount: self.invoices[i].amount,
                    grace_period_override: Some(days),
                };
                proof {
                    lemma_map_at(self.invoices@, i as int);
                    lemma_map_update(self.invoices@, i as int, updated);
                }
                let mut invoices: Vec<Invoice> = Vec::new();
                std::mem::swap(&mut invoices, &mut self.invoices);
                invoices.set(i, updated);
                self.invoices = invoices;
                proof {
                    use_type_invariant(&*self);
                    self.lemma_view_valid();
                    assert(self@.invoices =~= old(self)@.set_invoice_grace_period(id@, days)->Ok_0.invoices);
                }
                Ok(())
            },
        }
    }

    /// The grace period in effect for the invoice `id`: its override when it
    /// has one, otherwise the global default. Fails with `InvoiceNotFound`
    /// when no invoice has this id.
    pub fn get_invoice_grace_period(&self, id: &str) -> (r: Result<u32, GracePeriodError>)
        ensures
            days_outcome(r) == self@.get_invoice_grace_period(id@),
            !self@.invoices.contains_key(id@) ==> (r matches Err(GracePeriodError::InvoiceNotFound { id: k })
                && k@ == id@),
            self@.invoices.contains_key(id@) ==> r == Ok::<u32, GracePeriodError>(
                match self@.invoices[id@].grace_period_override {
                    Some(d) => d,
                    None => self@.grace_period_days,
                },
            ),
            self@.is_valid(),
    {
        proof {
            use_type_invariant(self);
            self.lemma_view_valid();
        }
        let key = id.to_owned();
        match self.find_index(&key) {
            None => {
                proof {
                    lemma_map_dom(self.invoices@);
                }
                Err(GracePeriodError::InvoiceNotFound { id: key })
            },
            Some(i) => {
                proof {
                    lemma_map_at(self.invoices@, i as int);
                }
                Ok(self.invoices[i].grace_period_override.unwrap_or(self.grace_period_days))
            },
        }
    }

    /// Stores a new invoice of `amount` under `id`, without override. An
    /// invoice already stored under `id` is replaced. Fails, changing
    /// nothing, with `InvalidInvoiceId` for an empty id.
    pub fn create_invoice(&mut self, id: String, amount: u64) -> (r: Result<(), GracePeriodError>)
        ensures
            outcome(r, final(self)@) == old(self)@.create_invoice(id@, amount),
            final(self)@ == old(self)@.apply(InvoiceOp::CreateInvoice { id: id@, amount }),
            r is Ok <==> id@.len() > 0,
            r is Ok ==> final(self)@.grace_period_days == old(self)@.grace_period_days
                && final(self)@.invoices == old(self)@.invoices.insert(
                id@,
                InvoiceView { id: id@, amount, grace_period_override: None },
            ),
            r is Err ==> final(self)@ == old(self)@,
            final(self)@.is_valid(),
    {
        proof {
            use_type_invariant(&*self);
            self.lemma_view_valid();
        }
        if id.as_str().is_empty() {
            return Err(GracePeriodError::InvalidInvoiceId);
        }
        let found = self.find_index(&id);
        let fresh = Invoice { id, amount, grace_period_override: None };
        let mut invoices: Vec<Invoice> = Vec::new();
        std::mem::swap(&mut invoices, &mut self.invoices);
        match found {
            Some(i) => {
                proof {
                    lemma_map_update(invoices@, i as int, fresh);
                }
                invoices.set(i, fresh);
            },
            None => {
                proof {
                    lemma_map_push(invoices@, fresh);
                }
                invoices.push(fresh);
            },
        }
        self.invoices = invoices;
        proof {
            use_type_invariant(&*self);
            self.lemma_view_valid();
            assert(self@.invoices =~= old(self)@.create_invoice(id@, amount)->Ok_0.invoices);
        }
        Ok(())
    }

    /// Removes the override of the invoice `id`, which then follows the global
    /// default again. Fails, changing nothing, with `InvalidInvoiceId` for an
    /// empty id, then with `InvoiceNotFound` when no invoice has this id.
    pub fn clear_invoice_grace_period(&mut self, id: &str) -> (r: Result<(), GracePeriodError>)
        ensures
            outcome(r, final(self)@) == old(self)@.clear_invoice_grace_period(id@),
            final(self)@ == old(self)@.apply(InvoiceOp::ClearInvoiceGracePeriod { id: id@ }),
            r is Ok <==> (id@.len() > 0 && old(self)@.invoices.contains_key(id@)),
            r is Ok ==> final(self)@.grace_period_days == old(self)@.grace_period_days
                && final(self)@.invoices == old(self)@.invoices.insert(
                id@,
                InvoiceView {
                    id: id@,
                    amount: old(self)@.invoices[id@].amount,
                    grace_period_override: None,
                },
            ),
            r is Err ==> final(self)@ == old(self)@,
            final(self)@.is_valid(),
    {
        proof {
            use_type_invariant(&*self);
            self.lemma_view_valid();
        }
        if id.is_empty() {
            return Err(GracePeriodError::InvalidInvoiceId);
        }
        let key = id.to_owned();
        match self.find_index(&key) {
            None => {
                proof {
                    lemma_map_dom(self.invoices@);
                }
                Err(GracePeriodError::InvoiceNotFound { id: key })
            },
            Some(i) => {
                let updated = Invoice {
                    id: self.invoices[i].id.clone(),
                    amount: self.invoices[i].amount,
                    grace_period_override: None,
                };
                proof {
                    lemma_map_at(self.invoices@, i as int);
                    lemma_map_update(self.invoices@, i as int, updated);
                }
                let mut invoices: Vec<Invoice> = Vec::new();
                std::mem::swap(&mut invoices, &mut self.invoices);
                invoices.set(i, updated);
                self.invoices = invoices;
                proof {
                    use_type_invariant(&*self);
                    self.lemma_view_valid();
                    assert(self@.invoices =~= old(self)@.clear_invoice_grace_period(id@)->Ok_0.invoices);
                }
                Ok(())
            },
        }
    }
}

impl Clone for InvoiceContract {
    /// A copy holding the same grace periods and invoices.
    fn clone(&self) -> (r: Self)
        ensures
            r@ == self@,
    {
        proof {
            use_type_invariant(self);
        }
        let mut invoices: Vec<Invoice> = Vec::new();
        let mut i: usize = 0;
        while i < self.invoices.len()
            invariant
                i <= self.invoices@.len(),
                invoices@.len() == i,
                forall|j: int| 0 <= j < i ==> #[trigger] invoices@[j]@ == self.invoices@[j]@,
                ids_distinct(self.invoices@),
                entries_ok(self.invoices@),
            decreases self.invoices@.len() - i,
        {
            let copy = Invoice {
                id: self.invoices[i].id.clone(),
                amount: self.invoices[i].amount,
                grace_period_override: self.invoices[i].grace_period_override,
            };
            invoices.push(copy);
            i += 1;
        }
        proof {
            assert(invoice_map(invoices@) == invoice_map(self.invoices@)) by {
                lemma_map_same_view(invoices@, self.invoices@);
            }
            assert(ids_distinct(invoices@)) by {
                assert forall|a: int, b: int|
                    0 <= a < invoices@.len() && 0 <= b < invoices@.len() && a != b
                    implies #[trigger] invoices@[a].id@ != #[trigger] invoices@[b].id@ by {
                    assert(invoices@[a]@ == self.invoices@[a]@);
                    assert(invoices@[b]@ == self.invoices@[b]@);
                }
            }
            assert(entries_ok(invoices@)) by {
                assert forall|a: int| 0 <= a < invoices@.len() implies {
                    &&& (#[trigger] invoices@[a]).id@.len() > 0
                    &&& (invoices@[a].grace_period_override matches Some(d) ==> d <= MAX_GRACE_PERIOD_DAYS)
                } by {
                    assert(invoices@[a]@ == self.invoices@[a]@);
                }
            }
        }
        InvoiceContract { grace_period_days: self.grace_period_days, invoices }
    }
}

impl Default for InvoiceContract {
    fn default() -> (r: Self)
        ensures
            r@ == InvoiceBook::empty(),
    {
        Self::new()
    }
}

} // verus!
