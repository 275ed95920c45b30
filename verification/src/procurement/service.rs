//! Procurement rules: the purchase-order status machine (draft, sent,
//! partially received, received, cancelled), what may change while an
//! order is a draft, receipts and the status they lead to, supplier edits
//! and deletion, and order numbering.

use vstd::prelude::*;
use crate::number::{digits_of, push_padded, zero_pad};
use crate::platform::errors::{
    business_rule_view, db_failure_view, entries_view, from_db_failure, plain_view, DbFailure, ApiError, ApiErrorView, Detail, DetailView,
    ErrorKind,
};
use crate::procurement::models::{LineFields, PatchLineRequest, PatchSupplierRequest, SupplierFields};
use crate::text::{list_contains, push_char, str_eq, str_views};

verus! {

/// The statuses an order may move to from `from`; none from a received or
/// cancelled order.
pub open spec fn transitions_spec(from: Seq<char>) -> Seq<Seq<char>> {
    if from == "draft"@ {
        seq!["sent"@, "cancelled"@]
    } else if from == "sent"@ {
        seq!["cancelled"@, "partially_received"@, "received"@]
    } else if from == "partially_received"@ {
        seq!["received"@]
    } else {
        seq![]
    }
}

/// Allowed status transitions from `from`.
pub fn allowed_transitions(from: &str) -> (v: Vec<&'static str>)
    ensures
        str_views(v@) == transitions_spec(from@),
{
    let v: Vec<&'static str> = if str_eq(from, "draft") {
        vec!["sent", "cancelled"]
    } else if str_eq(from, "sent") {
        vec!["cancelled", "partially_received", "received"]
    } else if str_eq(from, "partially_received") {
        vec!["received"]
    } else {
        Vec::new()
    };
    assert(str_views(v@) =~= transitions_spec(from@));
    v
}

/// The refusal of a move the status machine does not allow.
pub open spec fn bad_transition(from: Seq<char>, to: Seq<char>) -> ApiErrorView {
    business_rule_view(
        "invalid_status_transition"@,
        "cannot transition purchase order from \""@ + from + "\" to \""@ + to + "\""@,
        seq![
            ("from_status"@, DetailView::Text(from)),
            ("to_status"@, DetailView::Text(to)),
            ("allowed_next"@, DetailView::List(transitions_spec(from))),
        ],
    )
}

/// The refusal to send an order without lines.
pub open spec fn no_lines() -> ApiErrorView {
    business_rule_view("no_lines"@, "cannot mark a purchase order as sent with no lines"@, seq![])
}

/// Whether an order in `from` may move to `to`: the move must be allowed,
/// and an order is sent only with lines.
pub open spec fn transition_outcome(from: Seq<char>, has_lines: bool, to: Seq<char>) -> Result<(), ApiErrorView> {
    if !transitions_spec(from).contains(to) {
        Err(bad_transition(from, to))
    } else if to == "sent"@ && !has_lines {
        Err(no_lines())
    } else {
        Ok(())
    }
}

/// Checks a status change of an order in `from` to `to`.
pub fn validate_transition(from: &str, has_lines: bool, to: &str) -> (r: Result<(), ApiError>)
    ensures
        match r {
            Ok(()) => transition_outcome(from@, has_lines, to@) is Ok,
            Err(e) => transition_outcome(from@, has_lines, to@) == Err::<(), ApiErrorView>(e@),
        },
{
    let targets = allowed_transitions(from);
    if !list_contains(&targets, to) {
        let message = String::from_str("cannot transition purchase order from \"").concat(from).concat("\" to \"").concat(to).concat("\"");
        let mut names: Vec<String> = Vec::new();
        let mut k: usize = 0;
        while k < targets.len()
            invariant
                k <= targets@.len(),
                names@.len() == k,
                forall|i: int| 0 <= i < k ==> #[trigger] names@[i]@ == targets@[i]@,
            decreases targets.len() - k,
        {
            names.push(String::from_str(targets[k]));
            k += 1;
        }
        let ghost listed = names.deep_view();
        assert(listed =~= str_views(targets@));
        let mut details: Vec<(String, Detail)> = Vec::new();
        details.push((String::from_str("from_status"), Detail::Text(String::from_str(from))));
        details.push((String::from_str("to_status"), Detail::Text(String::from_str(to))));
        details.push((String::from_str("allowed_next"), Detail::List(names)));
        assert(entries_view(details@) =~= seq![
            ("from_status"@, DetailView::Text(from@)),
            ("to_status"@, DetailView::Text(to@)),
            ("allowed_next"@, DetailView::List(transitions_spec(from@))),
        ]);
        return Err(ApiError::business_rule("invalid_status_transition", message.as_str(), details));
    }
    if str_eq(to, "sent") && !has_lines {
        return Err(ApiError::business_rule(
            "no_lines",
            "cannot mark a purchase order as sent with no lines",
            Vec::new(),
        ));
    }
    Ok(())
}

/// An order's editable header after a patch.
pub struct OrderUpdate {
    pub status: String,
    pub expected_delivery: Option<String>,
    pub notes: Option<String>,
}

/// Plans an order patch: a given status must be a move the machine allows;
/// given dates and notes replace (or clear) the current ones.
pub fn plan_po_patch(
    status: String,
    has_lines: bool,
    expected_delivery: Option<String>,
    notes: Option<String>,
    req_status: Option<String>,
    req_expected_delivery: Option<Option<String>>,
    req_notes: Option<Option<String>>,
) -> (r: Result<OrderUpdate, ApiError>)
    ensures
        match req_status {
            Some(to) => match transition_outcome(status@, has_lines, to@) {
                Err(ev) => r matches Err(e) && e@ == ev,
                Ok(()) => r matches Ok(u) && u.status@ == to@,
            },
            None => r matches Ok(u) && u.status@ == status@,
        },
        r matches Ok(u) ==> u.expected_delivery == (match req_expected_delivery { Some(v) => v, None => expected_delivery })
            && u.notes == (match req_notes { Some(v) => v, None => notes }),
{
    let mut status = status;
    if let Some(to) = req_status {
        validate_transition(status.as_str(), has_lines, to.as_str())?;
        status = to;
    }
    let expected_delivery = match req_expected_delivery {
        Some(v) => v,
        None => expected_delivery,
    };
    let notes = match req_notes {
        Some(v) => v,
        None => notes,
    };
    Ok(OrderUpdate { status, expected_delivery, notes })
}

/// The refusal to delete an order that is not a draft.
pub open spec fn po_not_draft(message: Seq<char>) -> ApiErrorView {
    business_rule_view("po_not_draft"@, message, seq![])
}

/// Checks that an order may be deleted: only a draft may.
pub fn check_po_deletable(status: &str) -> (r: Result<(), ApiError>)
    ensures
        r is Ok <==> status@ == "draft"@,
        r matches Err(e) ==> e@ == po_not_draft("purchase order can only be deleted while in draft status"@),
{
    if !str_eq(status, "draft") {
        return Err(ApiError::business_rule(
            "po_not_draft",
            "purchase order can only be deleted while in draft status",
            Vec::new(),
        ));
    }
    Ok(())
}

/// A change to an order's lines.
#[derive(PartialEq, Eq, Structural, Clone, Copy, Debug)]
pub enum LineChange {
    Add,
    Update,
    Delete,
}

/// The refusal message for a line change on an order that is not a draft.
pub open spec fn line_change_message(c: LineChange) -> Seq<char> {
    match c {
        LineChange::Add => "lines can only be added to draft purchase orders"@,
        LineChange::Update => "lines can only be updated on draft purchase orders"@,
        LineChange::Delete => "lines can only be deleted from draft purchase orders"@,
    }
}

/// Checks that an order's lines may change: only while it is a draft.
pub fn check_lines_editable(status: &str, change: LineChange) -> (r: Result<(), ApiError>)
    ensures
        r is Ok <==> status@ == "draft"@,
        r matches Err(e) ==> e@ == po_not_draft(line_change_message(change)),
{
    if !str_eq(status, "draft") {
        let message = match change {
            LineChange::Add => "lines can only be added to draft purchase orders",
            LineChange::Update => "lines can only be updated on draft purchase orders",
            LineChange::Delete => "lines can only be deleted from draft purchase orders",
        };
        return Err(ApiError::business_rule("po_not_draft", message, Vec::new()));
    }
    Ok(())
}

/// The currency a new line is priced in: the given one, else `GBP`.
pub fn line_currency(given: &str) -> (c: String)
    ensures
        c@ == (if given@.len() == 0 { "GBP"@ } else { given@ }),
{
    if given.is_empty() {
        String::from_str("GBP")
    } else {
        String::from_str(given)
    }
}

/// A line after a patch: each given field replaces the current one.
pub open spec fn line_patched<N>(cur: LineFields<N>, p: PatchLineRequest<N>) -> LineFields<N> {
    LineFields {
        ingredient_type: match p.ingredient_type { Some(v) => v, None => cur.ingredient_type },
        ingredient_name: match p.ingredient_name { Some(v) => v, None => cur.ingredient_name },
        quantity: match p.quantity { Some(v) => v, None => cur.quantity },
        unit: match p.unit { Some(v) => v, None => cur.unit },
        unit_cost_pence: match p.unit_cost_pence { Some(v) => v, None => cur.unit_cost_pence },
        unit_cost_currency: match p.unit_cost_currency { Some(v) => v, None => cur.unit_cost_currency },
    }
}

/// Applies a patch to a line of a draft order.
pub fn patch_line<N>(cur: LineFields<N>, p: PatchLineRequest<N>) -> (r: LineFields<N>)
    ensures
        r == line_patched(cur, p),
{
    let LineFields { ingredient_type, ingredient_name, quantity, unit, unit_cost_pence, unit_cost_currency } = cur;
    LineFields {
        ingredient_type: match p.ingredient_type { Some(v) => v, None => ingredient_type },
        ingredient_name: match p.ingredient_name { Some(v) => v, None => ingredient_name },
        quantity: match p.quantity { Some(v) => v, None => quantity },
        unit: match p.unit { Some(v) => v, None => unit },
        unit_cost_pence: match p.unit_cost_pence { Some(v) => v, None => unit_cost_pence },
        unit_cost_currency: match p.unit_cost_currency { Some(v) => v, None => unit_cost_currency },
    }
}

/// A supplier after a patch: a given name replaces it, a present nullable
/// field replaces (or clears) it.
pub open spec fn supplier_patched(cur: SupplierFields, p: PatchSupplierRequest) -> SupplierFields {
    SupplierFields {
        name: match p.name { Some(v) => v, None => cur.name },
        contact_name: match p.contact_name { Some(v) => v, None => cur.contact_name },
        email: match p.email { Some(v) => v, None => cur.email },
        phone: match p.phone { Some(v) => v, None => cur.phone },
        website: match p.website { Some(v) => v, None => cur.website },
        notes: match p.notes { Some(v) => v, None => cur.notes },
    }
}

/// Applies a patch to a supplier.
pub fn patch_supplier(cur: SupplierFields, p: PatchSupplierRequest) -> (r: SupplierFields)
    ensures
        r == supplier_patched(cur, p),
{
    let SupplierFields { name, contact_name, email, phone, website, notes } = cur;
    SupplierFields {
        name: match p.name { Some(v) => v, None => name },
        contact_name: match p.contact_name { Some(v) => v, None => contact_name },
        email: match p.email { Some(v) => v, None => email },
        phone: match p.phone { Some(v) => v, None => phone },
        website: match p.website { Some(v) => v, None => website },
        notes: match p.notes { Some(v) => v, None => notes },
    }
}

/// The refusal of a second supplier with the same name.
pub fn duplicate_supplier() -> (e: ApiError)
    ensures
        e@ == plain_view(ErrorKind::Conflict, "supplier"@ + ": "@ + "a supplier with this name already exists"@),
{
    ApiError::conflict("supplier", "a supplier with this name already exists")
}

/// Checks that a supplier may be deleted: not while it has orders.
pub fn check_supplier_deletable(has_orders: bool) -> (r: Result<(), ApiError>)
    ensures
        r is Ok <==> !has_orders,
        r matches Err(e) ==> e@ == business_rule_view(
            "supplier_has_orders"@,
            "cannot delete a supplier that has purchase orders"@,
            seq![],
        ),
{
    if has_orders {
        return Err(ApiError::business_rule(
            "supplier_has_orders",
            "cannot delete a supplier that has purchase orders",
            Vec::new(),
        ));
    }
    Ok(())
}

/// Checks that an order can take a receipt: it must be sent or partially
/// received.
pub fn check_receivable(status: &str) -> (r: Result<(), ApiError>)
    ensures
        r is Ok <==> (status@ == "sent"@ || status@ == "partially_received"@),
        r matches Err(e) ==> e@ == business_rule_view(
            "invalid_status_transition"@,
            "purchase order must be in sent or partially_received status to receive"@,
            seq![],
        ),
{
    if !str_eq(status, "sent") && !str_eq(status, "partially_received") {
        return Err(ApiError::business_rule(
            "invalid_status_transition",
            "purchase order must be in sent or partially_received status to receive",
            Vec::new(),
        ));
    }
    Ok(())
}

/// The position of the order's line `id`, or not found.
pub fn find_line(line_ids: &[u128], id: u128) -> (r: Result<usize, ApiError>)
    ensures
        match r {
            Ok(i) => i < line_ids@.len() && line_ids@[i as int] == id
                && forall|j: int| 0 <= j < i ==> line_ids@[j] != id,
            Err(e) => !line_ids@.contains(id) && e@ == plain_view(ErrorKind::NotFound, "purchase_order_line"@ + " not found"@),
        },
{
    let mut k: usize = 0;
    while k < line_ids.len()
        invariant
            k <= line_ids@.len(),
            forall|j: int| 0 <= j < k ==> line_ids@[j] != id,
        decreases line_ids.len() - k,
    {
        if line_ids[k] == id {
            return Ok(k);
        }
        k += 1;
    }
    Err(ApiError::not_found("purchase_order_line"))
}

/// What a receipt shows of one line: whether some of it has arrived, and
/// whether all of it has (received quantity not below ordered).
#[derive(Clone, Copy, Debug)]
pub struct LineReceipt {
    pub any_received: bool,
    pub fully_received: bool,
}

/// The status after a receipt: received when every line is fully received
/// and something arrived, partially received when something arrived, else
/// unchanged.
pub open spec fn receipt_status_spec(current: Seq<char>, lines: Seq<LineReceipt>) -> Seq<char> {
    let all = forall|i: int| 0 <= i < lines.len() ==> #[trigger] lines[i].fully_received;
    let any = exists|i: int| 0 <= i < lines.len() && #[trigger] lines[i].any_received;
    if all && any {
        "received"@
    } else if any {
        "partially_received"@
    } else {
        current
    }
}

/// The order's status after a receipt.
pub fn receipt_status(current: &str, lines: &[LineReceipt]) -> (s: String)
    ensures
        s@ == receipt_status_spec(current@, lines@),
{
    let mut all = true;
    let mut any = false;
    let mut k: usize = 0;
    while k < lines.len()
        invariant
            k <= lines@.len(),
            all == (forall|i: int| 0 <= i < k ==> #[trigger] lines@[i].fully_received),
            any == (exists|i: int| 0 <= i < k && #[trigger] lines@[i].any_received),
        decreases lines.len() - k,
    {
        if lines[k].any_received {
            any = true;
        }
        if !lines[k].fully_received {
            all = false;
        }
        k += 1;
    }
    if all && any {
        String::from_str("received")
    } else if any {
        String::from_str("partially_received")
    } else {
        String::from_str(current)
    }
}

/// An order number: `PO-` and the counter, zero-padded to five places (the
/// sign, if any, counting as one).
pub open spec fn po_number_spec(n: i32) -> Seq<char> {
    "PO-"@ + (if n < 0 {
        seq!['-'] + zero_pad(digits_of((-n) as nat), 4)
    } else {
        zero_pad(digits_of(n as nat), 5)
    })
}

/// The order number for counter value `n`: `PO-` and five zero-padded places.
pub fn po_number(n: i32) -> (s: String)
    ensures
        s@ == po_number_spec(n),
{
    let mut s = String::from_str("PO-");
    if n < 0 {
        push_char(&mut s, '-');
        let m: u64 = (-(n as i64)) as u64;
        push_padded(&mut s, m, 4);
        assert(s@ =~= po_number_spec(n));
    } else {
        push_padded(&mut s, n as u64, 5);
    }
    s
}

/// A received or cancelled order, or one in an unknown status, moves nowhere.
pub proof fn law_finished_orders_stay_put(from: Seq<char>)
    requires
        from != "draft"@ && from != "sent"@ && from != "partially_received"@,
    ensures
        transitions_spec(from).len() == 0,
{
}

/// The rank of a status along the order's life.
pub open spec fn status_rank(s: Seq<char>) -> int {
    if s == "draft"@ {
        0
    } else if s == "sent"@ {
        1
    } else if s == "partially_received"@ {
        2
    } else if s == "received"@ {
        3
    } else {
        4
    }
}

/// Every allowed move goes forward, never back: a later rank, or cancelled.
pub proof fn law_transitions_move_forward(from: Seq<char>, to: Seq<char>)
    requires
        transitions_spec(from).contains(to),
    ensures
        to == "cancelled"@ || status_rank(to) > status_rank(from),
{
    reveal_strlit("draft");
    reveal_strlit("sent");
    reveal_strlit("partially_received");
    reveal_strlit("received");
    reveal_strlit("cancelled");
}

/// A receipt on a sent or partially received order leaves its status as
/// it was, or moves it along an allowed transition.
pub proof fn law_receipt_follows_the_machine(current: Seq<char>, lines: Seq<LineReceipt>)
    requires
        current == "sent"@ || current == "partially_received"@,
    ensures
        receipt_status_spec(current, lines) == current || transitions_spec(current).contains(
            receipt_status_spec(current, lines),
        ),
{
    reveal_strlit("sent");
    reveal_strlit("partially_received");
    reveal_strlit("received");
    reveal_strlit("draft");
    let r = receipt_status_spec(current, lines);
    assert("sent"@.len() == 4);
    assert("draft"@.len() == 5);
    assert("partially_received"@.len() == 18);
    assert("received"@.len() == 8);
    if r != current {
        if current == "sent"@ {
            assert(transitions_spec(current) == seq!["cancelled"@, "partially_received"@, "received"@]);
            if r == "received"@ {
                assert(transitions_spec(current)[2] == r);
            } else {
                assert(transitions_spec(current)[1] == r);
            }
        } else {
            assert(transitions_spec(current) == seq!["received"@]);
            assert(r == "received"@);
            assert(transitions_spec(current)[0] == r);
        }
    }
}

/// The error a failed supplier write becomes, given whether the database reported
/// a unique violation and what the failure was: a violation is a conflict,
/// any other failure the database error.
pub fn supplier_write_failure(unique: bool, f: DbFailure) -> (r: ApiError)
    ensures
        unique ==> r@ == plain_view(ErrorKind::Conflict, "supplier"@ + ": "@ + "a supplier with this name already exists"@),
        !unique ==> r@ == db_failure_view(f),
{
    if unique {
        duplicate_supplier()
    } else {
        from_db_failure(f)
    }
}

/// The error a failed supplier write becomes: a unique violation reported by the
/// database is a conflict, any other failure the database error.
pub fn supplier_write_error(e: &sqlx::Error) -> (r: ApiError)
    ensures
        r@ == plain_view(ErrorKind::Conflict, "supplier"@ + ": "@ + "a supplier with this name already exists"@)
            || r@ == plain_view(ErrorKind::NotFound, "resource"@ + " not found"@)
            || exists|t: Seq<char>| r@ == crate::platform::errors::internal_view(t),
{
    let unique = crate::platform::errors::is_unique_violation(e);
    supplier_write_failure(unique, crate::platform::errors::classify_db_error(e))
}



/// A receipt in which some line received anything moves the order on: to
/// `received` exactly when every line is fully received, otherwise to
/// `partially_received`; never left at its current status.
pub proof fn law_any_arrival_moves_the_order(current: Seq<char>, lines: Seq<LineReceipt>, i: int)
    requires
        0 <= i < lines.len(),
        lines[i].any_received,
    ensures
        receipt_status_spec(current, lines) == "received"@ || receipt_status_spec(current, lines)
            == "partially_received"@,
        receipt_status_spec(current, lines) == "received"@ <==> (forall|j: int|
            0 <= j < lines.len() ==> #[trigger] lines[j].fully_received),
{
    reveal_strlit("received");
    reveal_strlit("partially_received");
    assert("received"@.len() != "partially_received"@.len());
}

/// A receipt in which no line received anything leaves the status as it was.
pub proof fn law_nothing_arrived_changes_nothing(current: Seq<char>, lines: Seq<LineReceipt>)
    requires
        forall|j: int| 0 <= j < lines.len() ==> !(#[trigger] lines[j].any_received),
    ensures
        receipt_status_spec(current, lines) == current,
{
}

} // verus!
