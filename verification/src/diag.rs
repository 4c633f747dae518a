//! Diagnostics: the error kinds validation can raise, the locations they
//! point at, and the accumulator that merges every violation found across
//! the whole declaration into one aggregated report.
//!
//! Validation never fails fast: each pass appends what it finds, and the
//! pipeline turns the accumulated list into a single failure value only at
//! its boundary.

use vstd::prelude::*;

use crate::ast::{
    data_count, data_indices, is_data_item, is_tagged_impl, lemma_data_indices, lemma_take_all,
    lemma_take_step, HandlerModel, Item, ItemModel,
};

verus! {

/// The structural error kinds.
#[derive(Clone, Copy, Debug, PartialEq, Eq, Structural)]
pub enum DiagKind {
    /// The declaration holds no data item at all.
    MissingDataItem,
    /// The declaration holds more than one data item; raised once per data
    /// item involved.
    DuplicateDataItem,
    /// A handler does not receive the state by mutable reference.
    InvalidReceiver,
    /// A tagged capability-implementation block names no capability path.
    MissingCapabilityPath,
}

/// Where a diagnostic points.
#[derive(Clone, Copy, Debug, PartialEq, Eq, Structural)]
pub enum DiagLoc {
    /// The declaration as a whole.
    Declaration,
    /// The item at this position.
    Item { index: usize },
    /// One handler of the item at this position.
    Handler { item: usize, handler: usize },
}

/// One reported violation.
#[derive(Clone, Copy, Debug, PartialEq, Eq, Structural)]
pub struct Diag {
    pub kind: DiagKind,
    pub loc: DiagLoc,
}

/// The monoid-like error accumulator: empty identity, associative merge.
/// Every validation pass appends into one of these; the pipeline converts a
/// non-empty accumulator into its single failure value.
#[derive(Debug)]
pub struct ErrorAcc {
    pub errors: Vec<Diag>,
}

impl ErrorAcc {
    /// The empty report.
    pub fn new() -> (r: ErrorAcc)
        ensures
            r.errors@ =~= Seq::<Diag>::empty(),
    {
        ErrorAcc { errors: Vec::new() }
    }

    /// Record one violation.
    pub fn push(&mut self, d: Diag)
        ensures
            final(self).errors@ == old(self).errors@.push(d),
    {
        self.errors.push(d);
    }

    /// Whether nothing has been recorded.
    pub fn is_empty(&self) -> (r: bool)
        ensures
            r == (self.errors@.len() == 0),
    {
        self.errors.len() == 0
    }
}

/// Merges two reports, keeping every violation of both, in order.
pub fn merge_errors(e: ErrorAcc, f: ErrorAcc) -> (r: ErrorAcc)
    ensures
        r.errors@ == e.errors@ + f.errors@,
{
    let ghost es = e.errors@;
    let ghost fs = f.errors@;
    let mut r = e;
    let mut i: usize = 0;
    while i < f.errors.len()
        invariant
            i <= fs.len(),
            f.errors@ == fs,
            r.errors@ =~= es + fs.take(i as int),
        decreases fs.len() - i,
    {
        r.errors.push(f.errors[i]);
        i = i + 1;
    }
    proof {
        assert(r.errors@ =~= es + fs);
    }
    r
}

/// Merging is associative and the empty report is its identity: violations
/// may be collected pass by pass in any grouping without changing the final
/// aggregated report.
pub proof fn lemma_merge_monoid(a: Seq<Diag>, b: Seq<Diag>, c: Seq<Diag>)
    ensures
        (a + b) + c == a + (b + c),
        Seq::<Diag>::empty() + a == a,
        a + Seq::<Diag>::empty() == a,
{
    assert((a + b) + c =~= a + (b + c));
    assert(Seq::<Diag>::empty() + a =~= a);
    assert(a + Seq::<Diag>::empty() =~= a);
}

/// The diagnostics raised when more than one data item is present: one per
/// data item, each pointing at that item.
pub open spec fn extra_data_diags(items: Seq<ItemModel>) -> Seq<Diag>
    decreases items.len(),
{
    if items.len() == 0 {
        Seq::empty()
    } else {
        extra_data_diags(items.drop_last()) + if is_data_item(items.last()) {
            seq![
                Diag {
                    kind: DiagKind::DuplicateDataItem,
                    loc: DiagLoc::Item { index: (items.len() - 1) as usize },
                },
            ]
        } else {
            Seq::empty()
        }
    }
}

/// The diagnostics of the data-item count pass: none when exactly one data
/// item exists; one synthetic diagnostic at the declaration when none does;
/// one per data item when several do.
pub open spec fn data_diags(items: Seq<ItemModel>) -> Seq<Diag> {
    if data_count(items) == 1 {
        Seq::empty()
    } else if data_count(items) == 0 {
        seq![Diag { kind: DiagKind::MissingDataItem, loc: DiagLoc::Declaration }]
    } else {
        extra_data_diags(items)
    }
}

/// The receiver-shape diagnostics of one performance's handler list: one
/// per handler that does not take the state by mutable reference.
pub open spec fn handler_diags(item: int, handlers: Seq<HandlerModel>) -> Seq<Diag>
    decreases handlers.len(),
{
    if handlers.len() == 0 {
        Seq::empty()
    } else {
        handler_diags(item, handlers.drop_last()) + if !handlers.last().receiver.spec_is_valid() {
            seq![
                Diag {
                    kind: DiagKind::InvalidReceiver,
                    loc: DiagLoc::Handler {
                        item: item as usize,
                        handler: (handlers.len() - 1) as usize,
                    },
                },
            ]
        } else {
            Seq::empty()
        }
    }
}

/// The diagnostics one item contributes beyond the data-item count: a
/// tagged capability-implementation block must name a capability path, and
/// each of its handlers must receive the state by mutable reference.
pub open spec fn impl_diags(index: int, it: ItemModel) -> Seq<Diag> {
    if is_tagged_impl(it) {
        (if it->trait_path is None {
            seq![Diag { kind: DiagKind::MissingCapabilityPath, loc: DiagLoc::Item { index: index as usize } }]
        } else {
            Seq::empty()
        }) + handler_diags(index, it->handlers)
    } else {
        Seq::empty()
    }
}

/// The per-item diagnostics of the whole declaration, in item order.
pub open spec fn item_diags(items: Seq<ItemModel>) -> Seq<Diag>
    decreases items.len(),
{
    if items.len() == 0 {
        Seq::empty()
    } else {
        item_diags(items.drop_last()) + impl_diags(items.len() - 1, items.last())
    }
}

/// Every diagnostic of the declaration, in the order validation finds them.
pub open spec fn all_diags(items: Seq<ItemModel>) -> Seq<Diag> {
    data_diags(items) + item_diags(items)
}

/// The direct statement of structural validity: exactly one data item,
/// every tagged capability-implementation block names a capability path,
/// and every handler of such a block takes the state by mutable reference.
pub open spec fn well_formed_decl(items: Seq<ItemModel>) -> bool {
    &&& data_count(items) == 1
    &&& forall|i: int|
        0 <= i < items.len() && is_tagged_impl(#[trigger] items[i]) ==> items[i]->trait_path
            is Some
    &&& forall|i: int, j: int|
        0 <= i < items.len() && is_tagged_impl(#[trigger] items[i]) && 0 <= j
            < items[i]->handlers.len() ==> (#[trigger] items[i]->handlers[j]).receiver is Mutable
}

/// Validation raises nothing exactly on well-formed declarations.
pub proof fn lemma_all_diags_empty(items: Seq<ItemModel>)
    ensures
        all_diags(items).len() == 0 <==> well_formed_decl(items),
{
    lemma_extra_data_diags_len(items);
    lemma_item_diags_empty(items);
}

/// There are as many duplicate-data diagnostics as data items.
pub proof fn lemma_extra_data_diags_len(items: Seq<ItemModel>)
    ensures
        extra_data_diags(items).len() == data_count(items),
        forall|k: int|
            0 <= k < extra_data_diags(items).len() ==> #[trigger] extra_data_diags(items)[k]
                == (Diag {
                kind: DiagKind::DuplicateDataItem,
                loc: DiagLoc::Item { index: data_indices(items)[k] as usize },
            }),
    decreases items.len(),
{
    lemma_data_indices(items);
    if items.len() > 0 {
        lemma_extra_data_diags_len(items.drop_last());
        lemma_data_indices(items.drop_last());
    }
}

/// The per-item diagnostics vanish exactly when every tagged block names a
/// capability and every handler receiver is a mutable reference.
proof fn lemma_item_diags_empty(items: Seq<ItemModel>)
    ensures
        item_diags(items).len() == 0 <==> {
            &&& forall|i: int|
                0 <= i < items.len() && is_tagged_impl(#[trigger] items[i])
                    ==> items[i]->trait_path is Some
            &&& forall|i: int, j: int|
                0 <= i < items.len() && is_tagged_impl(#[trigger] items[i])
                    && 0 <= j < items[i]->handlers.len()
                    ==> (#[trigger] items[i]->handlers[j]).receiver is Mutable
        },
    decreases items.len(),
{
    if items.len() > 0 {
        lemma_item_diags_empty(items.drop_last());
        let n = items.len() - 1;
        lemma_handler_diags_empty(n, items.last()->handlers);
        assert(forall|i: int| 0 <= i < n ==> items.drop_last()[i] == items[i]);
    }
}

/// The receiver diagnostics of one handler list vanish exactly when every
/// receiver is a mutable reference.
proof fn lemma_handler_diags_empty(item: int, handlers: Seq<HandlerModel>)
    ensures
        handler_diags(item, handlers).len() == 0 <==> forall|j: int|
            0 <= j < handlers.len() ==> (#[trigger] handlers[j]).receiver is Mutable,
    decreases handlers.len(),
{
    if handlers.len() > 0 {
        lemma_handler_diags_empty(item, handlers.drop_last());
        assert(forall|j: int| 0 <= j < handlers.len() - 1 ==> handlers.drop_last()[j] == handlers[j]);
    }
}

/// An element is in a concatenation exactly when it is in one of the
/// parts.
proof fn lemma_concat_contains<A>(a: Seq<A>, b: Seq<A>, x: A)
    ensures
        (a + b).contains(x) <==> a.contains(x) || b.contains(x),
{
    if (a + b).contains(x) {
        let k = choose|k: int| 0 <= k < (a + b).len() && (a + b)[k] == x;
        if k < a.len() {
            assert(a[k] == x);
        } else {
            assert(b[k - a.len()] == x);
        }
    }
    if a.contains(x) {
        let k = choose|k: int| 0 <= k < a.len() && a[k] == x;
        assert((a + b)[k] == x);
    }
    if b.contains(x) {
        let k = choose|k: int| 0 <= k < b.len() && b[k] == x;
        assert((a + b)[a.len() + k] == x);
    }
}

/// A declaration with no data item, or with several, is rejected; the
/// aggregated report carries one synthetic entry at the declaration when
/// no data item exists, and exactly one entry per data item involved when
/// several do.
pub proof fn lemma_wrong_data_count(items: Seq<ItemModel>)
    requires
        data_count(items) != 1,
    ensures
        all_diags(items).len() > 0,
        data_count(items) == 0 ==> data_diags(items) == seq![
            Diag { kind: DiagKind::MissingDataItem, loc: DiagLoc::Declaration },
        ],
        data_count(items) >= 2 ==> data_diags(items).len() == data_count(items),
        data_count(items) >= 2 ==> forall|k: int|
            0 <= k < data_diags(items).len() ==> #[trigger] data_diags(items)[k] == (Diag {
                kind: DiagKind::DuplicateDataItem,
                loc: DiagLoc::Item { index: data_indices(items)[k] as usize },
            }),
{
    lemma_extra_data_diags_len(items);
}

/// One receiver-shape diagnostic stands in a handler list's report for
/// each handler whose receiver is not a mutable reference, and for nothing
/// else.
proof fn lemma_handler_diags_chars(item: int, handlers: Seq<HandlerModel>)
    requires
        0 <= item <= usize::MAX,
        handlers.len() <= usize::MAX,
    ensures
        forall|j: int|
            0 <= j < handlers.len() && !(#[trigger] handlers[j]).receiver.spec_is_valid()
                ==> handler_diags(item, handlers).contains(
                Diag {
                    kind: DiagKind::InvalidReceiver,
                    loc: DiagLoc::Handler { item: item as usize, handler: j as usize },
                },
            ),
        forall|d: Diag|
            #[trigger] handler_diags(item, handlers).contains(d) ==> {
                &&& d.kind is InvalidReceiver
                &&& d.loc matches DiagLoc::Handler { item: it, handler: h } && it == item as usize
                    && (h as int) < handlers.len() && !handlers[h as int].receiver.spec_is_valid()
            },
    decreases handlers.len(),
{
    if handlers.len() > 0 {
        let prefix = handlers.drop_last();
        let last = handlers.last();
        lemma_handler_diags_chars(item, prefix);
        let tail: Seq<Diag> = if !last.receiver.spec_is_valid() {
            seq![
                Diag {
                    kind: DiagKind::InvalidReceiver,
                    loc: DiagLoc::Handler {
                        item: item as usize,
                        handler: (handlers.len() - 1) as usize,
                    },
                },
            ]
        } else {
            Seq::empty()
        };
        assert(handler_diags(item, handlers) == handler_diags(item, prefix) + tail);
        assert forall|j: int|
            0 <= j < handlers.len() && !(#[trigger] handlers[j]).receiver.spec_is_valid() implies handler_diags(
            item,
            handlers,
        ).contains(
            Diag {
                kind: DiagKind::InvalidReceiver,
                loc: DiagLoc::Handler { item: item as usize, handler: j as usize },
            },
        ) by {
            let d = Diag {
                kind: DiagKind::InvalidReceiver,
                loc: DiagLoc::Handler { item: item as usize, handler: j as usize },
            };
            if j < handlers.len() - 1 {
                assert(prefix[j] == handlers[j]);
                assert(handler_diags(item, prefix).contains(d));
            } else {
                assert(tail[0] == d);
                assert(tail.contains(d));
            }
            lemma_concat_contains(handler_diags(item, prefix), tail, d);
        }
        assert forall|d: Diag| #[trigger] handler_diags(item, handlers).contains(d) implies {
            &&& d.kind is InvalidReceiver
            &&& d.loc matches DiagLoc::Handler { item: it, handler: h } && it == item as usize && (
            h as int) < handlers.len() && !handlers[h as int].receiver.spec_is_valid()
        } by {
            lemma_concat_contains(handler_diags(item, prefix), tail, d);
            if handler_diags(item, prefix).contains(d) {
                let h = d.loc->handler;
                assert(prefix[h as int] == handlers[h as int]);
            } else {
                assert(tail.contains(d));
                assert(tail[0] == d);
            }
        }
    }
}

/// The receiver-shape law: generation's aggregated report holds one entry
/// for every handler, of every performance across the whole declaration,
/// whose receiver is not a mutable reference — and no receiver entry that
/// does not name such a handler.  Any such handler makes the report
/// non-empty, so generation fails.
pub proof fn lemma_receiver_violations(items: Seq<ItemModel>)
    requires
        items.len() <= usize::MAX,
        forall|i: int|
            0 <= i < items.len() && is_tagged_impl(#[trigger] items[i]) ==> items[i]->handlers.len()
                <= usize::MAX,
    ensures
        forall|i: int, j: int|
            0 <= i < items.len() && is_tagged_impl(#[trigger] items[i]) && 0 <= j
                < items[i]->handlers.len() && !(#[trigger] items[i]->handlers[j]).receiver.spec_is_valid()
                ==> all_diags(items).contains(
                Diag {
                    kind: DiagKind::InvalidReceiver,
                    loc: DiagLoc::Handler { item: i as usize, handler: j as usize },
                },
            ),
        forall|d: Diag|
            #[trigger] all_diags(items).contains(d) && d.kind is InvalidReceiver ==> {
                &&& d.loc matches DiagLoc::Handler { item: it, handler: h }
                &&& (it as int) < items.len()
                &&& is_tagged_impl(items[it as int])
                &&& (h as int) < items[it as int]->handlers.len()
                &&& !items[it as int]->handlers[h as int].receiver.spec_is_valid()
            },
        (exists|i: int, j: int|
            0 <= i < items.len() && is_tagged_impl(#[trigger] items[i]) && 0 <= j
                < items[i]->handlers.len() && !(#[trigger] items[i]->handlers[j]).receiver.spec_is_valid())
            ==> all_diags(items).len() > 0,
{
    lemma_item_diags_receiver_chars(items);
    assert forall|d: Diag| data_diags(items).contains(d) implies !(d.kind is InvalidReceiver) by {
        lemma_extra_data_diags_len(items);
    }
    assert forall|i: int, j: int|
        0 <= i < items.len() && is_tagged_impl(#[trigger] items[i]) && 0 <= j
            < items[i]->handlers.len() && !(#[trigger] items[i]->handlers[j]).receiver.spec_is_valid() implies all_diags(
        items,
    ).contains(
        Diag {
            kind: DiagKind::InvalidReceiver,
            loc: DiagLoc::Handler { item: i as usize, handler: j as usize },
        },
    ) by {
        let d = Diag {
            kind: DiagKind::InvalidReceiver,
            loc: DiagLoc::Handler { item: i as usize, handler: j as usize },
        };
        lemma_concat_contains(data_diags(items), item_diags(items), d);
    }
    assert forall|d: Diag|
        #[trigger] all_diags(items).contains(d) && d.kind is InvalidReceiver implies {
        &&& d.loc matches DiagLoc::Handler { item: it, handler: h }
        &&& (it as int) < items.len()
        &&& is_tagged_impl(items[it as int])
        &&& (h as int) < items[it as int]->handlers.len()
        &&& !items[it as int]->handlers[h as int].receiver.spec_is_valid()
    } by {
        lemma_concat_contains(data_diags(items), item_diags(items), d);
    }
    if exists|i: int, j: int|
        0 <= i < items.len() && is_tagged_impl(#[trigger] items[i]) && 0 <= j
            < items[i]->handlers.len() && !(#[trigger] items[i]->handlers[j]).receiver.spec_is_valid() {
        let (i, j) = choose|i: int, j: int|
            0 <= i < items.len() && is_tagged_impl(#[trigger] items[i]) && 0 <= j
                < items[i]->handlers.len()
                && !(#[trigger] items[i]->handlers[j]).receiver.spec_is_valid();
        let d = Diag {
            kind: DiagKind::InvalidReceiver,
            loc: DiagLoc::Handler { item: i as usize, handler: j as usize },
        };
        assert(all_diags(items).contains(d));
    }
}

/// The per-item report holds one receiver entry per violating handler and
/// no receiver entry that does not name one.
proof fn lemma_item_diags_receiver_chars(items: Seq<ItemModel>)
    requires
        items.len() <= usize::MAX,
        forall|i: int|
            0 <= i < items.len() && is_tagged_impl(#[trigger] items[i]) ==> items[i]->handlers.len()
                <= usize::MAX,
    ensures
        forall|i: int, j: int|
            0 <= i < items.len() && is_tagged_impl(#[trigger] items[i]) && 0 <= j
                < items[i]->handlers.len() && !(#[trigger] items[i]->handlers[j]).receiver.spec_is_valid()
                ==> item_diags(items).contains(
                Diag {
                    kind: DiagKind::InvalidReceiver,
                    loc: DiagLoc::Handler { item: i as usize, handler: j as usize },
                },
            ),
        forall|d: Diag|
            #[trigger] item_diags(items).contains(d) && d.kind is InvalidReceiver ==> {
                &&& d.loc matches DiagLoc::Handler { item: it, handler: h }
                &&& (it as int) < items.len()
                &&& is_tagged_impl(items[it as int])
                &&& (h as int) < items[it as int]->handlers.len()
                &&& !items[it as int]->handlers[h as int].receiver.spec_is_valid()
            },
    decreases items.len(),
{
    if items.len() > 0 {
        let prefix = items.drop_last();
        let last = items.last();
        let n = items.len() - 1;
        lemma_item_diags_receiver_chars(prefix);
        assert(forall|i: int| 0 <= i < n ==> prefix[i] == items[i]);
        if is_tagged_impl(last) {
            lemma_handler_diags_chars(n, last->handlers);
        }
        assert(item_diags(items) == item_diags(prefix) + impl_diags(n, last));
        assert forall|i: int, j: int|
            0 <= i < items.len() && is_tagged_impl(#[trigger] items[i]) && 0 <= j
                < items[i]->handlers.len()
                && !(#[trigger] items[i]->handlers[j]).receiver.spec_is_valid() implies item_diags(
            items,
        ).contains(
            Diag {
                kind: DiagKind::InvalidReceiver,
                loc: DiagLoc::Handler { item: i as usize, handler: j as usize },
            },
        ) by {
            let d = Diag {
                kind: DiagKind::InvalidReceiver,
                loc: DiagLoc::Handler { item: i as usize, handler: j as usize },
            };
            if i < n {
                assert(item_diags(prefix).contains(d));
            } else {
                assert(handler_diags(n, last->handlers).contains(d));
                let cap: Seq<Diag> = if last->trait_path is None {
                    seq![
                        Diag {
                            kind: DiagKind::MissingCapabilityPath,
                            loc: DiagLoc::Item { index: n as usize },
                        },
                    ]
                } else {
                    Seq::empty()
                };
                assert(impl_diags(n, last) == cap + handler_diags(n, last->handlers));
                lemma_concat_contains(cap, handler_diags(n, last->handlers), d);
            }
            lemma_concat_contains(item_diags(prefix), impl_diags(n, last), d);
        }
        assert forall|d: Diag|
            #[trigger] item_diags(items).contains(d) && d.kind is InvalidReceiver implies {
            &&& d.loc matches DiagLoc::Handler { item: it, handler: h }
            &&& (it as int) < items.len()
            &&& is_tagged_impl(items[it as int])
            &&& (h as int) < items[it as int]->handlers.len()
            &&& !items[it as int]->handlers[h as int].receiver.spec_is_valid()
        } by {
            lemma_concat_contains(item_diags(prefix), impl_diags(n, last), d);
            if item_diags(prefix).contains(d) {
            } else {
                assert(impl_diags(n, last).contains(d));
                if is_tagged_impl(last) {
                    let cap: Seq<Diag> = if last->trait_path is None {
                        seq![
                            Diag {
                                kind: DiagKind::MissingCapabilityPath,
                                loc: DiagLoc::Item { index: n as usize },
                            },
                        ]
                    } else {
                        Seq::empty()
                    };
                    assert(impl_diags(n, last) == cap + handler_diags(n, last->handlers));
                    lemma_concat_contains(cap, handler_diags(n, last->handlers), d);
                    if cap.contains(d) {
                        assert(cap[0] == d);
                    }
                }
            }
        }
    }
}

/// Runs every validation pass over the declaration and returns the
/// aggregated report: the data-item count pass first, then, item by item,
/// the capability-path and receiver-shape passes.
pub fn validate(items: &Vec<Item>) -> (r: ErrorAcc)
    ensures
        r.errors@ == all_diags(items.deep_view()),
{
    let ghost dv = items.deep_view();
    let mut acc = ErrorAcc::new();

    let mut count: usize = 0;
    let mut i: usize = 0;
    while i < items.len()
        invariant
            i <= items@.len(),
            dv == items.deep_view(),
            dv.len() == items@.len(),
            count as nat == data_count(dv.take(i as int)),
            count <= i,
        decreases items@.len() - i,
    {
        proof {
            lemma_take_step(dv, i as int);
            assert(dv[i as int] == items@[i as int].deep_view());
        }
        if items[i].is_data() {
            count = count + 1;
        }
        i = i + 1;
    }
    proof {
        lemma_take_all(dv);
    }

    if count == 0 {
        acc.push(Diag { kind: DiagKind::MissingDataItem, loc: DiagLoc::Declaration });
    } else if count > 1 {
        let mut i: usize = 0;
        while i < items.len()
            invariant
                i <= items@.len(),
                dv == items.deep_view(),
                dv.len() == items@.len(),
                acc.errors@ == extra_data_diags(dv.take(i as int)),
            decreases items@.len() - i,
        {
            proof {
                lemma_take_step(dv, i as int);
                assert(dv[i as int] == items@[i as int].deep_view());
            }
            if items[i].is_data() {
                acc.push(Diag { kind: DiagKind::DuplicateDataItem, loc: DiagLoc::Item { index: i } });
                proof {
                    assert(acc.errors@ =~= extra_data_diags(dv.take(i as int + 1)));
                }
            }
            i = i + 1;
        }
        proof {
            lemma_take_all(dv);
        }
    }
    proof {
        assert(acc.errors@ =~= data_diags(dv));
    }

    let ghost base = acc.errors@;
    let mut i: usize = 0;
    while i < items.len()
        invariant
            i <= items@.len(),
            dv == items.deep_view(),
            dv.len() == items@.len(),
            base == data_diags(dv),
            acc.errors@ == base + item_diags(dv.take(i as int)),
        decreases items@.len() - i,
    {
        proof {
            lemma_take_step(dv, i as int);
            assert(dv[i as int] == items@[i as int].deep_view());
        }
        match &items[i] {
            Item::CapabilityImpl { trait_path, tag: Some(_), handlers } => {
                let ghost hdv = handlers.deep_view();
                if trait_path.is_none() {
                    acc.push(
                        Diag { kind: DiagKind::MissingCapabilityPath, loc: DiagLoc::Item { index: i } },
                    );
                }
                let ghost mid = acc.errors@;
                let mut j: usize = 0;
                while j < handlers.len()
                    invariant
                        j <= handlers@.len(),
                        hdv == handlers.deep_view(),
                        hdv.len() == handlers@.len(),
                        acc.errors@ == mid + handler_diags(i as int, hdv.take(j as int)),
                    decreases handlers@.len() - j,
                {
                    proof {
                        lemma_take_step(hdv, j as int);
                        assert(hdv[j as int] == handlers@[j as int].deep_view());
                    }
                    if !handlers[j].receiver.is_valid() {
                        acc.push(
                            Diag {
                                kind: DiagKind::InvalidReceiver,
                                loc: DiagLoc::Handler { item: i, handler: j },
                            },
                        );
                        proof {
                            assert(acc.errors@ =~= mid + handler_diags(
                                i as int,
                                hdv.take(j as int + 1),
                            ));
                        }
                    }
                    j = j + 1;
                }
                proof {
                    lemma_take_all(hdv);
                    assert(acc.errors@ =~= base + item_diags(dv.take(i as int + 1)));
                }
            },
            _ => {
                proof {
                    assert(impl_diags(i as int, dv[i as int]).len() == 0);
                    assert(acc.errors@ =~= base + item_diags(dv.take(i as int + 1)));
                }
            },
        }
        i = i + 1;
    }
    proof {
        lemma_take_all(dv);
    }
    acc
}

} // verus!
