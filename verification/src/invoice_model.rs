//! The mathematical model of the invoice contract: a global grace period and
//! a map from invoice ids to invoices, with one transition function per
//! operation. The executable contract in `invoice` is proved to follow it.

use vstd::prelude::*;

verus! {

/// Longest grace period, in days, that either setter accepts: the global
/// default and a per-invoice override share this one cap.
pub const MAX_GRACE_PERIOD_DAYS: u32 = 90;

/// An invoice as the model sees it.
pub struct InvoiceView {
    pub id: Seq<char>,
    pub amount: u64,
    pub grace_period_override: Option<u32>,
}

/// The whole state of an invoice contract: the global default grace period
/// and the invoices, keyed by their ids.
pub struct InvoiceBook {
    pub grace_period_days: u32,
    pub invoices: Map<Seq<char>, InvoiceView>,
}

/// An error of a grace period operation, as the model sees it.
pub enum GraceErrorView {
    ExceededMaximumGracePeriod { days: u32, max: u32 },
    InvoiceNotFound { id: Seq<char> },
    InvalidInvoiceId,
}

/// One state-changing call of the invoice contract, with its arguments.
pub enum InvoiceOp {
    SetGracePeriodDays { days: u32 },
    SetInvoiceGracePeriod { id: Seq<char>, days: u32 },
    CreateInvoice { id: Seq<char>, amount: u64 },
    ClearInvoiceGracePeriod { id: Seq<char> },
}

/// The global default after the calls `ops`, starting from `initial`: the
/// argument of the latest `set_grace_period_days` call within the cap.
pub open spec fn latest_global_days(ops: Seq<InvoiceOp>, initial: u32) -> u32
    decreases ops.len(),
{
    if ops.len() == 0 {
        initial
    } else {
        match ops.last() {
            InvoiceOp::SetGracePeriodDays { days } => if days <= MAX_GRACE_PERIOD_DAYS {
                days
            } else {
                latest_global_days(ops.drop_last(), initial)
            },
            _ => latest_global_days(ops.drop_last(), initial),
        }
    }
}

/// The grace period that applies to an invoice: its override when it has one,
/// otherwise the global default.
pub open spec fn effective_grace_period(inv: InvoiceView, global_days: u32) -> u32 {
    match inv.grace_period_override {
        Some(days) => days,
        None => global_days,
    }
}

impl InvoiceBook {
    /// What every reachable state satisfies: no grace period above the cap,
    /// no invoice with an empty id, and each invoice stored under its own id.
    pub open spec fn is_valid(self) -> bool {
        &&& self.grace_period_days <= MAX_GRACE_PERIOD_DAYS
        &&& self.invoices.dom().finite()
        &&& forall|k: Seq<char>| #[trigger] self.invoices.contains_key(k) ==> {
            &&& k.len() > 0
            &&& self.invoices[k].id == k
            &&& (self.invoices[k].grace_period_override matches Some(d) ==> d <= MAX_GRACE_PERIOD_DAYS)
        }
    }

    /// The state of a freshly created contract.
    pub open spec fn empty() -> InvoiceBook {
        InvoiceBook { grace_period_days: 0, invoices: Map::empty() }
    }

    /// `set_grace_period_days`: the global default becomes `days`, if it is
    /// within the cap.
    pub open spec fn set_grace_period_days(self, days: u32) -> Result<InvoiceBook, GraceErrorView> {
        if days > MAX_GRACE_PERIOD_DAYS {
            Err(GraceErrorView::ExceededMaximumGracePeriod { days, max: MAX_GRACE_PERIOD_DAYS })
        } else {
            Ok(InvoiceBook { grace_period_days: days, invoices: self.invoices })
        }
    }

    /// `set_invoice_grace_period`: the invoice `id` gets the override `days`.
    /// The checks come in this order: empty id, cap, existence.
    pub open spec fn set_invoice_grace_period(self, id: Seq<char>, days: u32) -> Result<InvoiceBook, GraceErrorView> {
        if id.len() == 0 {
            Err(GraceErrorView::InvalidInvoiceId)
        } else if days > MAX_GRACE_PERIOD_DAYS {
            Err(GraceErrorView::ExceededMaximumGracePeriod { days, max: MAX_GRACE_PERIOD_DAYS })
        } else if !self.invoices.contains_key(id) {
            Err(GraceErrorView::InvoiceNotFound { id })
        } else {
            let inv = self.invoices[id];
            Ok(InvoiceBook {
                grace_period_days: self.grace_period_days,
                invoices: self.invoices.insert(
                    id,
                    InvoiceView { id: inv.id, amount: inv.amount, grace_period_override: Some(days) },
                ),
            })
        }
    }

    /// `get_invoice_grace_period`: the grace period in effect for `id`.
    pub open spec fn get_invoice_grace_period(self, id: Seq<char>) -> Result<u32, GraceErrorView> {
        if !self.invoices.contains_key(id) {
            Err(GraceErrorView::InvoiceNotFound { id })
        } else {
            Ok(effective_grace_period(self.invoices[id], self.grace_period_days))
        }
    }

    /// `create_invoice`: stores a new invoice without override under `id`,
    /// replacing any invoice stored there before.
    pub open spec fn create_invoice(self, id: Seq<char>, amount: u64) -> Result<InvoiceBook, GraceErrorView> {
        if id.len() == 0 {
            Err(GraceErrorView::InvalidInvoiceId)
        } else {
            Ok(InvoiceBook {
                grace_period_days: self.grace_period_days,
                invoices: self.invoices.insert(
                    id,
                    InvoiceView { id, amount, grace_period_override: None },
                ),
            })
        }
    }

    /// `clear_invoice_grace_period`: removes the override of `id`.
    pub open spec fn clear_invoice_grace_period(self, id: Seq<char>) -> Result<InvoiceBook, GraceErrorView> {
        if id.len() == 0 {
            Err(GraceErrorView::InvalidInvoiceId)
        } else if !self.invoices.contains_key(id) {
            Err(GraceErrorView::InvoiceNotFound { id })
        } else {
            let inv = self.invoices[id];
            Ok(InvoiceBook {
                grace_period_days: self.grace_period_days,
                invoices: self.invoices.insert(
                    id,
                    InvoiceView { id: inv.id, amount: inv.amount, grace_period_override: None },
                ),
            })
        }
    }

    /// The result of the call `op` in this state, as a transition.
    pub open spec fn op_result(self, op: InvoiceOp) -> Result<InvoiceBook, GraceErrorView> {
        match op {
            InvoiceOp::SetGracePeriodDays { days } => self.set_grace_period_days(days),
            InvoiceOp::SetInvoiceGracePeriod { id, days } => self.set_invoice_grace_period(id, days),
            InvoiceOp::CreateInvoice { id, amount } => self.create_invoice(id, amount),
            InvoiceOp::ClearInvoiceGracePeriod { id } => self.clear_invoice_grace_period(id),
        }
    }

    /// The state after the call `op`: the new state when it succeeds, this
    /// one when it fails.
    pub open spec fn apply(self, op: InvoiceOp) -> InvoiceBook {
        match self.op_result(op) {
            Ok(b) => b,
            Err(_) => self,
        }
    }

    /// The state after the calls `ops`, in order.
    pub open spec fn run(self, ops: Seq<InvoiceOp>) -> InvoiceBook
        decreases ops.len(),
    {
        if ops.len() == 0 {
            self
        } else {
            self.run(ops.drop_last()).apply(ops.last())
        }
    }
}

} // verus!
