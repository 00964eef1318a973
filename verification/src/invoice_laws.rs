//! Properties of the invoice contract that span its operations, proved over
//! the model that the executable operations follow.

use vstd::prelude::*;

use crate::invoice_model::{
    latest_global_days, GraceErrorView, InvoiceBook, InvoiceOp, InvoiceView, MAX_GRACE_PERIOD_DAYS,
};

verus! {

/// Every operation keeps a valid state valid: no grace period ever exceeds
/// the cap, and no invoice has an empty id.
pub proof fn law_operations_keep_validity(b: InvoiceBook, id: Seq<char>, days: u32, amount: u64)
    requires
        b.is_valid(),
    ensures
        InvoiceBook::empty().is_valid(),
        b.set_grace_period_days(days) matches Ok(a) ==> a.is_valid(),
        b.set_invoice_grace_period(id, days) matches Ok(a) ==> a.is_valid(),
        b.create_invoice(id, amount) matches Ok(a) ==> a.is_valid(),
        b.clear_invoice_grace_period(id) matches Ok(a) ==> a.is_valid(),
{
    assert(InvoiceBook::empty().invoices.dom() =~= Set::empty());
    if let Ok(a) = b.set_invoice_grace_period(id, days) {
        assert(a.invoices.dom() =~= b.invoices.dom().insert(id));
    }
    if let Ok(a) = b.create_invoice(id, amount) {
        assert(a.invoices.dom() =~= b.invoices.dom().insert(id));
    }
    if let Ok(a) = b.clear_invoice_grace_period(id) {
        assert(a.invoices.dom() =~= b.invoices.dom().insert(id));
    }
}

/// The grace period in effect for any invoice is within the cap.
pub proof fn law_effective_grace_period_within_cap(b: InvoiceBook, id: Seq<char>)
    requires
        b.is_valid(),
    ensures
        b.get_invoice_grace_period(id) matches Ok(d) ==> d <= MAX_GRACE_PERIOD_DAYS,
{
}

/// No invoice can be found under the empty id.
pub proof fn law_empty_id_never_found(b: InvoiceBook)
    requires
        b.is_valid(),
    ensures
        b.get_invoice_grace_period(Seq::empty()) == Err::<u32, GraceErrorView>(
            GraceErrorView::InvoiceNotFound { id: Seq::empty() },
        ),
{
}

/// Both setters share one cap: each accepts `days` exactly when it is at most
/// `MAX_GRACE_PERIOD_DAYS`, and above it both refuse with the same error,
/// which names the same maximum.
pub proof fn law_cap_consistency(b: InvoiceBook, id: Seq<char>, days: u32)
    requires
        b.is_valid(),
        b.invoices.contains_key(id),
    ensures
        b.set_grace_period_days(days) is Ok <==> days <= MAX_GRACE_PERIOD_DAYS,
        b.set_invoice_grace_period(id, days) is Ok <==> days <= MAX_GRACE_PERIOD_DAYS,
        days > MAX_GRACE_PERIOD_DAYS ==> {
            &&& b.set_grace_period_days(days) == Err::<InvoiceBook, GraceErrorView>(
                GraceErrorView::ExceededMaximumGracePeriod { days, max: MAX_GRACE_PERIOD_DAYS },
            )
            &&& b.set_invoice_grace_period(id, days) == b.set_grace_period_days(days)
        },
{
}

/// An override, once set, is the grace period in effect for that invoice.
pub proof fn law_override_takes_effect(b: InvoiceBook, id: Seq<char>, days: u32)
    requires
        b.is_valid(),
    ensures
        b.set_invoice_grace_period(id, days) is Ok <==> (id.len() > 0 && days <= MAX_GRACE_PERIOD_DAYS
            && b.invoices.contains_key(id)),
        b.set_invoice_grace_period(id, days) matches Ok(a) ==> a.get_invoice_grace_period(id) == Ok::<
            u32,
            GraceErrorView,
        >(days),
{
}

/// Changing the global default changes the grace period of exactly the
/// invoices without an override; an override keeps applying.
pub proof fn law_global_change_respects_overrides(b: InvoiceBook, days: u32, id: Seq<char>)
    requires
        b.is_valid(),
        b.invoices.contains_key(id),
        days <= MAX_GRACE_PERIOD_DAYS,
    ensures
        b.set_grace_period_days(days) matches Ok(a) && a.get_invoice_grace_period(id) == Ok::<
            u32,
            GraceErrorView,
        >(
            match b.invoices[id].grace_period_override {
                Some(d) => d,
                None => days,
            },
        ),
{
}

/// Clearing an override makes the invoice follow the global default again.
pub proof fn law_clear_reverts_to_global(b: InvoiceBook, id: Seq<char>)
    requires
        b.is_valid(),
    ensures
        b.clear_invoice_grace_period(id) is Ok <==> (id.len() > 0 && b.invoices.contains_key(id)),
        b.clear_invoice_grace_period(id) matches Ok(a) ==> a.get_invoice_grace_period(id) == Ok::<
            u32,
            GraceErrorView,
        >(b.grace_period_days),
{
}

/// A freshly created invoice follows the global default.
pub proof fn law_new_invoice_follows_global(b: InvoiceBook, id: Seq<char>, amount: u64)
    requires
        b.is_valid(),
    ensures
        b.create_invoice(id, amount) is Ok <==> id.len() > 0,
        b.create_invoice(id, amount) matches Ok(a) ==> a.get_invoice_grace_period(id) == Ok::<
            u32,
            GraceErrorView,
        >(b.grace_period_days),
{
}

/// An operation on one invoice leaves every other invoice's grace period as
/// it was.
pub proof fn law_operations_are_per_invoice(
    b: InvoiceBook,
    id: Seq<char>,
    other: Seq<char>,
    days: u32,
    amount: u64,
)
    requires
        b.is_valid(),
        id != other,
    ensures
        b.set_invoice_grace_period(id, days) matches Ok(a) ==> a.get_invoice_grace_period(other)
            == b.get_invoice_grace_period(other),
        b.clear_invoice_grace_period(id) matches Ok(a) ==> a.get_invoice_grace_period(other)
            == b.get_invoice_grace_period(other),
        b.create_invoice(id, amount) matches Ok(a) ==> a.get_invoice_grace_period(other)
            == b.get_invoice_grace_period(other),
{
}

/// After any sequence of calls, the global default is the argument of the
/// latest `set_grace_period_days` call that succeeded, or its value before
/// the calls when there was none: failed calls and invoice operations never
/// change it. From a new contract, that fallback is 0.
pub proof fn law_global_is_latest_successful_setting(b: InvoiceBook, ops: Seq<InvoiceOp>)
    ensures
        b.run(ops).grace_period_days == latest_global_days(ops, b.grace_period_days),
        InvoiceBook::empty().run(ops).grace_period_days == latest_global_days(ops, 0),
    decreases ops.len(),
{
    if ops.len() > 0 {
        law_global_is_latest_successful_setting(b, ops.drop_last());
    }
    if ops.len() > 0 {
        law_global_is_latest_successful_setting(InvoiceBook::empty(), ops.drop_last());
    }
}

/// A state reached from a new contract by any sequence of calls is valid.
pub proof fn law_reachable_states_are_valid(ops: Seq<InvoiceOp>)
    ensures
        InvoiceBook::empty().run(ops).is_valid(),
    decreases ops.len(),
{
    if ops.len() == 0 {
        law_operations_keep_validity(InvoiceBook::empty(), Seq::empty(), 0, 0);
    } else {
        law_reachable_states_are_valid(ops.drop_last());
        let m = InvoiceBook::empty().run(ops.drop_last());
        match ops.last() {
            InvoiceOp::SetGracePeriodDays { days } => law_operations_keep_validity(m, Seq::empty(), days, 0),
            InvoiceOp::SetInvoiceGracePeriod { id, days } => law_operations_keep_validity(m, id, days, 0),
            InvoiceOp::CreateInvoice { id, amount } => law_operations_keep_validity(m, id, 0, amount),
            InvoiceOp::ClearInvoiceGracePeriod { id } => law_operations_keep_validity(m, id, 0, 0),
        }
    }
}

/// Setting the global default changes the global default and nothing else:
/// every invoice, override or not, is stored exactly as before. So an
/// invoice without an override follows the new global value.
pub proof fn law_global_setting_touches_no_invoice(b: InvoiceBook, days: u32, id: Seq<char>)
    requires
        b.is_valid(),
    ensures
        b.set_grace_period_days(days) is Ok <==> days <= MAX_GRACE_PERIOD_DAYS,
        b.set_grace_period_days(days) matches Ok(a) ==> {
            &&& a.grace_period_days == days
            &&& a.invoices == b.invoices
            &&& (b.invoices.contains_key(id) && b.invoices[id].grace_period_override is None)
                ==> a.get_invoice_grace_period(id) == Ok::<u32, GraceErrorView>(days)
        },
{
}

/// Across any sequence of global changes the invoices stay exactly as they
/// were, and an invoice without an override always has the latest accepted
/// global value as its grace period.
pub proof fn law_global_changes_keep_invoices(b: InvoiceBook, ops: Seq<InvoiceOp>, id: Seq<char>)
    requires
        b.is_valid(),
        forall|i: int| 0 <= i < ops.len() ==> #[trigger] ops[i] is SetGracePeriodDays,
    ensures
        b.run(ops).invoices == b.invoices,
        b.run(ops).grace_period_days == latest_global_days(ops, b.grace_period_days),
        b.invoices.contains_key(id) && b.invoices[id].grace_period_override is None ==> b.run(ops).get_invoice_grace_period(id)
            == Ok::<u32, GraceErrorView>(latest_global_days(ops, b.grace_period_days)),
    decreases ops.len(),
{
    if ops.len() > 0 {
        let prev = ops.drop_last();
        assert forall|i: int| 0 <= i < prev.len() implies #[trigger] prev[i] is SetGracePeriodDays by {
            assert(prev[i] == ops[i]);
        }
        law_global_changes_keep_invoices(b, prev, id);
        law_global_is_latest_successful_setting(b, ops);
        assert(ops[ops.len() - 1] is SetGracePeriodDays);
    }
}

/// Setting an override records exactly `days` for that invoice, whatever the
/// global default is; the invoice keeps its id and amount, every other
/// invoice and the global default stay as they were, and the override keeps
/// applying after any later global change.
pub proof fn law_override_is_recorded(b: InvoiceBook, id: Seq<char>, days: u32, g: u32)
    requires
        b.is_valid(),
    ensures
        b.set_invoice_grace_period(id, days) matches Ok(a) ==> {
            &&& a.invoices.contains_key(id)
            &&& a.invoices[id].grace_period_override == Some(days)
            &&& a.invoices[id].id == id
            &&& a.invoices[id].amount == b.invoices[id].amount
            &&& a.grace_period_days == b.grace_period_days
            &&& a.invoices.dom() == b.invoices.dom()
            &&& (forall|k: Seq<char>| k != id && #[trigger] b.invoices.contains_key(k) ==> a.invoices[k] == b.invoices[k])
            &&& (a.set_grace_period_days(g) matches Ok(a2) ==> a2.get_invoice_grace_period(id) == Ok::<
                u32,
                GraceErrorView,
            >(days))
        },
{
    if let Ok(a) = b.set_invoice_grace_period(id, days) {
        assert(a.invoices.dom() =~= b.invoices.dom());
    }
}

/// Clearing an override leaves the invoice with no override at all (not an
/// override equal to the current global value): it keeps its id and amount,
/// every other invoice and the global default stay as they were, and it
/// follows every later global change.
pub proof fn law_clear_removes_override(b: InvoiceBook, id: Seq<char>, g: u32)
    requires
        b.is_valid(),
    ensures
        b.clear_invoice_grace_period(id) matches Ok(a) ==> {
            &&& a.invoices.contains_key(id)
            &&& a.invoices[id].grace_period_override is None
            &&& a.invoices[id].id == id
            &&& a.invoices[id].amount == b.invoices[id].amount
            &&& a.grace_period_days == b.grace_period_days
            &&& a.invoices.dom() == b.invoices.dom()
            &&& (forall|k: Seq<char>| k != id && #[trigger] b.invoices.contains_key(k) ==> a.invoices[k] == b.invoices[k])
            &&& (a.set_grace_period_days(g) matches Ok(a2) ==> a2.get_invoice_grace_period(id) == Ok::<
                u32,
                GraceErrorView,
            >(g))
        },
{
    if let Ok(a) = b.clear_invoice_grace_period(id) {
        assert(a.invoices.dom() =~= b.invoices.dom());
    }
}

/// A lookup finds exactly the stored invoices: for an id with no invoice it
/// fails with `InvoiceNotFound` naming that id, whatever the global default;
/// for a stored invoice it gives its override, or the global default when it
/// has none.
pub proof fn law_lookup_finds_only_stored_invoices(b: InvoiceBook, id: Seq<char>)
    ensures
        !b.invoices.contains_key(id) ==> b.get_invoice_grace_period(id) == Err::<u32, GraceErrorView>(
            GraceErrorView::InvoiceNotFound { id },
        ),
        b.invoices.contains_key(id) ==> b.get_invoice_grace_period(id) == Ok::<u32, GraceErrorView>(
            match b.invoices[id].grace_period_override {
                Some(d) => d,
                None => b.grace_period_days,
            },
        ),
{
}

/// A created invoice is stored under its id with the given amount and no
/// override, whatever the global default is, replacing any invoice stored
/// there; every other invoice and the global default stay as they were, and
/// the new invoice follows every later global change.
pub proof fn law_created_invoice_has_no_override(b: InvoiceBook, id: Seq<char>, amount: u64, g: u32)
    requires
        b.is_valid(),
    ensures
        b.create_invoice(id, amount) matches Ok(a) ==> {
            &&& a.invoices.contains_key(id)
            &&& a.invoices[id] == (InvoiceView { id, amount, grace_period_override: None })
            &&& a.grace_period_days == b.grace_period_days
            &&& a.invoices.dom() == b.invoices.dom().insert(id)
            &&& (forall|k: Seq<char>| k != id && #[trigger] b.invoices.contains_key(k) ==> a.invoices[k] == b.invoices[k])
            &&& (a.set_grace_period_days(g) matches Ok(a2) ==> a2.get_invoice_grace_period(id) == Ok::<
                u32,
                GraceErrorView,
            >(g))
        },
{
    if let Ok(a) = b.create_invoice(id, amount) {
        assert(a.invoices.dom() =~= b.invoices.dom().insert(id));
    }
}

} // verus!
