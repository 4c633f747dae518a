//! The input model of an actor declaration: the items of the annotated
//! module, reduced to the plain values that validation and synthesis read.
//!
//! A declaration is a list of [`Item`]s.  Exactly one of them must be a data
//! item (the state type); capability-implementation blocks carrying a
//! performance tag become performances; everything else passes through into
//! the generated output unchanged.

use vstd::prelude::*;

verus! {

/// Identifies which shape of receiver a handler method was written with.
/// Only a mutable reference to the state is a valid receiver for a handler.
#[derive(Clone, Copy, Debug, PartialEq, Eq, Structural)]
pub enum ReceiverShape {
    /// The method has no receiver at all.
    Missing,
    /// The method takes the state by value (`self`).
    Owned,
    /// The method takes the state by shared reference (`&self`).
    Shared,
    /// The method takes the state by mutable reference (`&mut self`).
    Mutable,
}

impl ReceiverShape {
    /// A handler must receive the state by mutable reference.
    pub open spec fn spec_is_valid(&self) -> bool {
        *self is Mutable
    }

    /// Returns whether this receiver shape is acceptable for a handler.
    pub fn is_valid(&self) -> (r: bool)
        ensures
            r == self.spec_is_valid(),
    {
        match self {
            ReceiverShape::Mutable => true,
            _ => false,
        }
    }
}

/// A (possibly qualified) capability name, as a non-empty list of path
/// segments; the last segment is the leaf the derived identifiers come from.
#[derive(Debug)]
pub struct PathName {
    pub segments: Vec<String>,
}

impl DeepView for PathName {
    type V = Seq<Seq<char>>;

    open spec fn deep_view(&self) -> Seq<Seq<char>> {
        self.segments.deep_view()
    }
}

/// The leaf (last segment) of a path, from its mathematical model.
pub open spec fn leaf_of(path: Seq<Seq<char>>) -> Seq<char> {
    path.last()
}

impl PathName {
    /// A usable path has at least one segment.
    pub open spec fn wf(&self) -> bool {
        self.segments@.len() > 0
    }

    /// The last segment, which names the capability itself.
    pub fn leaf(&self) -> (r: &String)
        requires
            self.wf(),
        ensures
            r@ == leaf_of(self.deep_view()),
    {
        let r = &self.segments[self.segments.len() - 1];
        proof {
            assert(r.deep_view() == self.deep_view().last());
        }
        r
    }

    /// A fresh path with the same segments.
    pub fn duplicate(&self) -> (r: PathName)
        ensures
            r.deep_view() == self.deep_view(),
            r.wf() == self.wf(),
    {
        let mut segments: Vec<String> = Vec::new();
        let mut i: usize = 0;
        while i < self.segments.len()
            invariant
                i <= self.segments@.len(),
                segments@.len() == i as int,
                forall|j: int| 0 <= j < i ==> segments@[j]@ == self.segments@[j]@,
            decreases self.segments@.len() - i,
        {
            segments.push(self.segments[i].clone());
            i = i + 1;
        }
        proof {
            assert forall|j: int| 0 <= j < segments.deep_view().len() implies segments.deep_view()[j]
                == self.deep_view()[j] by {
                assert(segments.deep_view()[j] == segments@[j]@);
                assert(self.deep_view()[j] == self.segments@[j]@);
            }
            assert(segments.deep_view() =~= self.deep_view());
        }
        PathName { segments }
    }
}

/// The mathematical model of one non-receiver handler parameter.
pub struct ParamModel {
    pub pat: Seq<char>,
    pub ty: Seq<char>,
}

/// One non-receiver parameter of a handler: the pattern it binds and the
/// type it carries, both as source text.
#[derive(Debug)]
pub struct Param {
    pub pat: String,
    pub ty: String,
}

impl DeepView for Param {
    type V = ParamModel;

    open spec fn deep_view(&self) -> ParamModel {
        ParamModel { pat: self.pat@, ty: self.ty@ }
    }
}

impl Param {
    /// A fresh parameter with the same pattern and type.
    pub fn duplicate(&self) -> (r: Param)
        ensures
            r.deep_view() == self.deep_view(),
    {
        Param { pat: self.pat.clone(), ty: self.ty.clone() }
    }
}

/// The mathematical model of one handler method.
pub struct HandlerModel {
    pub name: Seq<char>,
    pub receiver: ReceiverShape,
    pub params: Seq<ParamModel>,
    pub ret: Option<Seq<char>>,
    pub asynchronous: bool,
    pub body: Seq<char>,
}

/// One method of a capability-implementation block: its name, receiver
/// shape, non-receiver parameters, optional return type, synchrony, and the
/// body carried verbatim as source text.
#[derive(Debug)]
pub struct Handler {
    pub name: String,
    pub receiver: ReceiverShape,
    pub params: Vec<Param>,
    pub ret: Option<String>,
    pub asynchronous: bool,
    pub body: String,
}

impl DeepView for Handler {
    type V = HandlerModel;

    open spec fn deep_view(&self) -> HandlerModel {
        HandlerModel {
            name: self.name@,
            receiver: self.receiver,
            params: self.params.deep_view(),
            ret: self.ret.deep_view(),
            asynchronous: self.asynchronous,
            body: self.body@,
        }
    }
}

impl Handler {
    /// A fresh handler with the same fields.
    pub fn duplicate(&self) -> (r: Handler)
        ensures
            r.deep_view() == self.deep_view(),
    {
        let mut params: Vec<Param> = Vec::new();
        let mut i: usize = 0;
        while i < self.params.len()
            invariant
                i <= self.params@.len(),
                params@.len() == i as int,
                forall|j: int| 0 <= j < i ==> #[trigger] params@[j].deep_view()
                    == self.params@[j].deep_view(),
            decreases self.params@.len() - i,
        {
            params.push(self.params[i].duplicate());
            i = i + 1;
        }
        proof {
            assert forall|j: int| 0 <= j < params.deep_view().len() implies params.deep_view()[j]
                == self.params.deep_view()[j] by {
                assert(params.deep_view()[j] == params@[j].deep_view());
                assert(self.params.deep_view()[j] == self.params@[j].deep_view());
            }
            assert(params.deep_view() =~= self.params.deep_view());
        }
        let ret = match &self.ret {
            Some(t) => Some(t.clone()),
            None => None,
        };
        Handler {
            name: self.name.clone(),
            receiver: self.receiver,
            params,
            ret,
            asynchronous: self.asynchronous,
            body: self.body.clone(),
        }
    }
}

/// The options carried by a performance tag.
#[derive(Clone, Copy, Debug, PartialEq, Eq, Structural)]
pub struct PerformanceAttribute {
    /// Whether this performance defines the capability's interface and
    /// message type, rather than implementing one defined elsewhere.
    pub canonical: bool,
}

/// The mathematical model of one top-level item of the declaration.
pub enum ItemModel {
    Data { name: Seq<char> },
    CapabilityImpl {
        trait_path: Option<Seq<Seq<char>>>,
        tag: Option<PerformanceAttribute>,
        handlers: Seq<HandlerModel>,
    },
    Other,
}

/// One top-level item of the declaration, reduced to what validation and
/// synthesis read.  Pass-through items keep only their classification here;
/// the caller retains the original and re-emits it by position.
#[derive(Debug)]
pub enum Item {
    /// A struct, enum or union: a candidate state type.
    Data { name: String },
    /// A capability-implementation block, with the capability path it
    /// implements (if it names one), its performance tag (if any), and its
    /// methods.
    CapabilityImpl {
        trait_path: Option<PathName>,
        tag: Option<PerformanceAttribute>,
        handlers: Vec<Handler>,
    },
    /// Any other item; it passes through unchanged.
    Other,
}

impl DeepView for Item {
    type V = ItemModel;

    open spec fn deep_view(&self) -> ItemModel {
        match self {
            Item::Data { name } => ItemModel::Data { name: name@ },
            Item::CapabilityImpl { trait_path, tag, handlers } => ItemModel::CapabilityImpl {
                trait_path: trait_path.deep_view(),
                tag: *tag,
                handlers: handlers.deep_view(),
            },
            Item::Other => ItemModel::Other,
        }
    }
}

impl Item {
    /// Structural validity: a capability path, where present, is non-empty.
    pub open spec fn wf(&self) -> bool {
        match self {
            Item::CapabilityImpl { trait_path: Some(p), .. } => p.wf(),
            _ => true,
        }
    }

    /// Whether this item is a data item (a candidate state type).
    pub fn is_data(&self) -> (r: bool)
        ensures
            r == is_data_item(self.deep_view()),
    {
        match self {
            Item::Data { .. } => true,
            _ => false,
        }
    }

    /// Whether this item is a capability-implementation block carrying a
    /// performance tag.
    pub fn is_tagged(&self) -> (r: bool)
        ensures
            r == is_tagged_impl(self.deep_view()),
    {
        match self {
            Item::CapabilityImpl { tag: Some(_), .. } => true,
            _ => false,
        }
    }
}

/// Stepping a prefix by one: the one-longer prefix is the shorter one with
/// the next element appended.
pub proof fn lemma_take_step<A>(s: Seq<A>, i: int)
    requires
        0 <= i < s.len(),
    ensures
        s.take(i + 1).drop_last() == s.take(i),
        s.take(i + 1).last() == s[i],
{
    assert(s.take(i + 1).drop_last() =~= s.take(i));
}

/// The whole sequence is its own full prefix.
pub proof fn lemma_take_all<A>(s: Seq<A>)
    ensures
        s.take(s.len() as int) == s,
{
    assert(s.take(s.len() as int) =~= s);
}

/// Whether an item is a data item (a candidate state type).
pub open spec fn is_data_item(it: ItemModel) -> bool {
    it is Data
}

/// Whether an item is a capability-implementation block carrying a
/// performance tag, and so becomes a performance.
pub open spec fn is_tagged_impl(it: ItemModel) -> bool {
    it matches ItemModel::CapabilityImpl { tag: Some(_), .. }
}

/// How many data items a declaration holds.
pub open spec fn data_count(items: Seq<ItemModel>) -> nat
    decreases items.len(),
{
    if items.len() == 0 {
        0
    } else {
        data_count(items.drop_last()) + if is_data_item(items.last()) {
            1nat
        } else {
            0nat
        }
    }
}

/// The indices of the data items, in declaration order.
pub open spec fn data_indices(items: Seq<ItemModel>) -> Seq<int>
    decreases items.len(),
{
    if items.len() == 0 {
        Seq::empty()
    } else {
        data_indices(items.drop_last()) + if is_data_item(items.last()) {
            seq![items.len() - 1]
        } else {
            Seq::empty()
        }
    }
}

/// The indices of the items that pass through into the output unchanged:
/// everything that is not a tagged capability-implementation block.
pub open spec fn other_indices(items: Seq<ItemModel>) -> Seq<int>
    decreases items.len(),
{
    if items.len() == 0 {
        Seq::empty()
    } else {
        other_indices(items.drop_last()) + if !is_tagged_impl(items.last()) {
            seq![items.len() - 1]
        } else {
            Seq::empty()
        }
    }
}

/// There is exactly one state type, and its name is the first (only) data
/// item's name.
pub open spec fn state_name(items: Seq<ItemModel>) -> Seq<char>
    recommends
        data_count(items) == 1,
    decreases items.len(),
{
    if items.len() == 0 {
        Seq::empty()
    } else if is_data_item(items.first()) {
        items.first()->name
    } else {
        state_name(items.drop_first())
    }
}

/// Every index listed by `data_indices` points at a data item, the list is
/// strictly increasing, in range, and counts every data item.
pub proof fn lemma_data_indices(items: Seq<ItemModel>)
    ensures
        data_indices(items).len() == data_count(items),
        forall|k: int|
            0 <= k < data_indices(items).len() ==> {
                let i = #[trigger] data_indices(items)[k];
                0 <= i < items.len() && is_data_item(items[i])
            },
        forall|i: int|
            0 <= i < items.len() && is_data_item(items[i]) ==> data_indices(items).contains(i),
    decreases items.len(),
{
    if items.len() > 0 {
        lemma_data_indices(items.drop_last());
        assert forall|i: int|
            0 <= i < items.len() && is_data_item(items[i]) implies data_indices(items).contains(
            i,
        ) by {
            if i < items.len() - 1 {
                assert(items.drop_last()[i] == items[i]);
                assert(data_indices(items.drop_last()).contains(i));
                let k = choose|k: int|
                    0 <= k < data_indices(items.drop_last()).len() && data_indices(
                        items.drop_last(),
                    )[k] == i;
                assert(data_indices(items)[k] == i);
            } else {
                assert(data_indices(items).last() == i);
            }
        }
    }
}

} // verus!

