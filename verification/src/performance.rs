//! Performances: one capability implementation of the state type, and the
//! two impl blocks synthesized from it.
//!
//! From one performance the generator derives two referentially consistent
//! pieces: the performer impl on the state type (one match arm per handler,
//! destructuring the message variant into the original parameter bindings
//! and running the original body), and the sending impl on the proxy type
//! (one rewritten method per handler, building the positional tuple and
//! sending it as the matching message variant).

use vstd::prelude::*;

use crate::ast::{leaf_of, Handler, HandlerModel, PathName, PerformanceAttribute};
use crate::names::{
    field_name_for, method_name_for, payload_name_for, spec_field_name, spec_method_name,
    spec_payload_name, spec_variant_name, variant_name_for,
};
use crate::namerewriter::{
    spec_param_patterns, spec_rewrite_signature, MethodRewriter, RewrittenSig, RewrittenSigModel,
};

verus! {

/// The mathematical model of one performance.
pub struct PerformanceDeclModel {
    pub role_name: Seq<Seq<char>>,
    pub canonical: bool,
    pub handlers: Seq<HandlerModel>,
}

/// One capability implementation: the capability it performs, the options
/// of its tag, and its handlers in declaration order.
#[derive(Debug)]
pub struct PerformanceDeclaration {
    pub role_name: PathName,
    pub attribute: PerformanceAttribute,
    pub handlers: Vec<Handler>,
}

impl DeepView for PerformanceDeclaration {
    type V = PerformanceDeclModel;

    open spec fn deep_view(&self) -> PerformanceDeclModel {
        PerformanceDeclModel {
            role_name: self.role_name.deep_view(),
            canonical: self.attribute.canonical,
            handlers: self.handlers.deep_view(),
        }
    }
}

/// A fresh list of the same handlers.
pub fn duplicate_handlers(handlers: &Vec<Handler>) -> (r: Vec<Handler>)
    ensures
        r.deep_view() == handlers.deep_view(),
{
    let mut out: Vec<Handler> = Vec::new();
    let mut i: usize = 0;
    while i < handlers.len()
        invariant
            i <= handlers@.len(),
            out@.len() == i as int,
            forall|j: int| 0 <= j < i ==> #[trigger] out@[j].deep_view() == handlers@[j].deep_view(),
        decreases handlers@.len() - i,
    {
        out.push(handlers[i].duplicate());
        i = i + 1;
    }
    proof {
        assert forall|j: int| 0 <= j < out.deep_view().len() implies out.deep_view()[j]
            == handlers.deep_view()[j] by {
            assert(out.deep_view()[j] == out@[j].deep_view());
            assert(handlers.deep_view()[j] == handlers@[j].deep_view());
        }
        assert(out.deep_view() =~= handlers.deep_view());
    }
    out
}

impl PerformanceDeclaration {
    /// The capability path is usable.
    pub open spec fn wf(&self) -> bool {
        self.role_name.wf()
    }

    /// The capability leaf this performance's identifiers derive from.
    pub open spec fn spec_leaf(&self) -> Seq<char> {
        leaf_of(self.role_name.deep_view())
    }

    /// A performance of the named capability with these handlers and
    /// options.
    pub fn new(role_name: &PathName, handlers: &Vec<Handler>, attribute: PerformanceAttribute) -> (r:
        PerformanceDeclaration)
        requires
            role_name.wf(),
        ensures
            r.deep_view() == (PerformanceDeclModel {
                role_name: role_name.deep_view(),
                canonical: attribute.canonical,
                handlers: handlers.deep_view(),
            }),
            r.wf(),
    {
        PerformanceDeclaration {
            role_name: role_name.duplicate(),
            attribute,
            handlers: duplicate_handlers(handlers),
        }
    }

    /// The options of this performance's tag.
    pub fn attribute(&self) -> (r: &PerformanceAttribute)
        ensures
            *r == self.attribute,
    {
        &self.attribute
    }

    /// The handlers, in declaration order.
    pub fn handlers(&self) -> (r: &Vec<Handler>)
        ensures
            r.deep_view() == self.handlers.deep_view(),
    {
        &self.handlers
    }

    /// The capability path this performance implements.
    pub fn role_name(&self) -> (r: PathName)
        ensures
            r.deep_view() == self.role_name.deep_view(),
            r.wf() == self.wf(),
    {
        self.role_name.duplicate()
    }

    /// The capability leaf, as text.
    fn leaf_ident(&self) -> (r: &String)
        requires
            self.wf(),
        ensures
            r@ == self.spec_leaf(),
    {
        self.role_name.leaf()
    }

    /// The name of this capability's message tagged-union.
    pub fn payload_name(&self) -> (r: String)
        requires
            self.wf(),
        ensures
            r@ == spec_payload_name(self.spec_leaf()),
    {
        payload_name_for(self.leaf_ident().as_str())
    }

    /// The name of this capability's performer method on the state type.
    pub fn method_name(&self) -> (r: String)
        requires
            self.wf(),
        ensures
            r@ == spec_method_name(self.spec_leaf()),
    {
        method_name_for(self.leaf_ident().as_str())
    }

    /// The name of this capability's field in the proxy struct.
    pub fn field_name(&self) -> (r: String)
        requires
            self.wf(),
        ensures
            r@ == spec_field_name(self.spec_leaf()),
    {
        field_name_for(self.leaf_ident().as_str())
    }
}

/// The mathematical model of one performer match arm.
pub struct ArmModel {
    pub variant_name: Seq<char>,
    pub patterns: Seq<Seq<char>>,
    pub body: Seq<char>,
}

/// One arm of the performer's dispatch match: it matches the handler's
/// message variant, destructures the positional tuple into the original
/// parameter bindings, and runs the original body verbatim.
#[derive(Debug)]
pub struct Arm {
    pub variant_name: String,
    pub patterns: Vec<String>,
    pub body: String,
}

impl DeepView for Arm {
    type V = ArmModel;

    open spec fn deep_view(&self) -> ArmModel {
        ArmModel {
            variant_name: self.variant_name@,
            patterns: self.patterns.deep_view(),
            body: self.body@,
        }
    }
}

/// What one handler contributes to the performer's dispatch match.
pub open spec fn spec_arm(h: HandlerModel) -> ArmModel {
    ArmModel {
        variant_name: spec_variant_name(h.name),
        patterns: spec_param_patterns(h.params),
        body: h.body,
    }
}

/// The name of the message variant a handler becomes.
pub fn make_variant_name(function: &Handler) -> (r: String)
    ensures
        r@ == spec_variant_name(function.deep_view().name),
{
    variant_name_for(function.name.as_str())
}

/// One performer match arm, derived from one handler.
fn make_arm(fun: &Handler) -> (r: Arm)
    ensures
        r.deep_view() == spec_arm(fun.deep_view()),
{
    let mut patterns: Vec<String> = Vec::new();
    let mut i: usize = 0;
    while i < fun.params.len()
        invariant
            i <= fun.params@.len(),
            patterns@.len() == i as int,
            forall|j: int| 0 <= j < i ==> patterns@[j]@ == fun.params@[j].pat@,
        decreases fun.params@.len() - i,
    {
        patterns.push(fun.params[i].pat.clone());
        i = i + 1;
    }
    proof {
        assert forall|j: int| 0 <= j < patterns.deep_view().len() implies patterns.deep_view()[j]
            == spec_param_patterns(fun.deep_view().params)[j] by {
            assert(patterns.deep_view()[j] == patterns@[j]@);
            assert(fun.params.deep_view()[j] == fun.params@[j].deep_view());
        }
        assert(patterns.deep_view() =~= spec_param_patterns(fun.deep_view().params));
    }
    Arm { variant_name: make_variant_name(fun), patterns, body: fun.body.clone() }
}

/// The mathematical model of the performer impl block.
pub struct DataPerformanceModel {
    pub data_name: Seq<char>,
    pub payload_name: Seq<char>,
    pub method_name: Seq<char>,
    pub arms: Seq<ArmModel>,
}

/// The performer impl block on the state type: one method per capability,
/// taking the whole message tagged-union and dispatching on it with an
/// exhaustive match, one arm per handler; it reports handler completion.
#[derive(Debug)]
pub struct DataPerformance {
    pub data_name: String,
    pub payload_name: String,
    pub method_name: String,
    pub arms: Vec<Arm>,
}

impl DeepView for DataPerformance {
    type V = DataPerformanceModel;

    open spec fn deep_view(&self) -> DataPerformanceModel {
        DataPerformanceModel {
            data_name: self.data_name@,
            payload_name: self.payload_name@,
            method_name: self.method_name@,
            arms: self.arms.deep_view(),
        }
    }
}

/// What the performer impl block of one performance must be.
pub open spec fn spec_data_performance(
    data_name: Seq<char>,
    perf: PerformanceDeclModel,
) -> DataPerformanceModel {
    DataPerformanceModel {
        data_name: data_name,
        payload_name: spec_payload_name(leaf_of(perf.role_name)),
        method_name: spec_method_name(leaf_of(perf.role_name)),
        arms: perf.handlers.map_values(|h: HandlerModel| spec_arm(h)),
    }
}

/// Builds the performer impl block for one performance.
pub fn make_data_performance(data_name: &str, perf: &PerformanceDeclaration) -> (r: DataPerformance)
    requires
        perf.wf(),
    ensures
        r.deep_view() == spec_data_performance(data_name@, perf.deep_view()),
{
    let mut arms: Vec<Arm> = Vec::new();
    let mut i: usize = 0;
    while i < perf.handlers.len()
        invariant
            i <= perf.handlers@.len(),
            arms@.len() == i as int,
            forall|j: int| 0 <= j < i ==> #[trigger] arms@[j].deep_view() == spec_arm(
                perf.handlers@[j].deep_view(),
            ),
        decreases perf.handlers@.len() - i,
    {
        arms.push(make_arm(&perf.handlers[i]));
        i = i + 1;
    }
    proof {
        assert forall|j: int| 0 <= j < arms.deep_view().len() implies arms.deep_view()[j]
            == spec_data_performance(data_name@, perf.deep_view()).arms[j] by {
            assert(arms.deep_view()[j] == arms@[j].deep_view());
            assert(perf.handlers.deep_view()[j] == perf.handlers@[j].deep_view());
        }
        assert(arms.deep_view() =~= spec_data_performance(data_name@, perf.deep_view()).arms);
    }
    DataPerformance {
        data_name: data_name.to_owned(),
        payload_name: perf.payload_name(),
        method_name: perf.method_name(),
        arms,
    }
}

/// The mathematical model of one sending method.
pub struct SendingMethodModel {
    pub sig: RewrittenSigModel,
    pub payload_name: Seq<char>,
    pub variant_name: Seq<char>,
    pub field_name: Seq<char>,
}

/// One sending method of the proxy: its rewritten signature, and the body's
/// fixed shape — build the positional tuple of the anonymous parameters,
/// wrap it in the named variant of the named message tagged-union, and send
/// it on the proxy's named field, propagating the send outcome verbatim.
#[derive(Debug)]
pub struct SendingMethod {
    pub sig: RewrittenSig,
    pub payload_name: String,
    pub variant_name: String,
    pub field_name: String,
}

impl DeepView for SendingMethod {
    type V = SendingMethodModel;

    open spec fn deep_view(&self) -> SendingMethodModel {
        SendingMethodModel {
            sig: self.sig.deep_view(),
            payload_name: self.payload_name@,
            variant_name: self.variant_name@,
            field_name: self.field_name@,
        }
    }
}

/// What the sending method of one handler must be.
pub open spec fn spec_sending_method(role: Seq<Seq<char>>, h: HandlerModel) -> SendingMethodModel {
    SendingMethodModel {
        sig: spec_rewrite_signature(role, h),
        payload_name: spec_payload_name(leaf_of(role)),
        variant_name: spec_variant_name(h.name),
        field_name: spec_field_name(leaf_of(role)),
    }
}

/// Builds the sending method for one handler of a performance.
pub fn sending_method(perf: &PerformanceDeclaration, fun: &Handler) -> (r: SendingMethod)
    requires
        perf.wf(),
    ensures
        r.deep_view() == spec_sending_method(perf.deep_view().role_name, fun.deep_view()),
{
    let rewriter = MethodRewriter::new(perf.role_name());
    SendingMethod {
        sig: rewriter.fold_signature(fun),
        payload_name: perf.payload_name(),
        variant_name: make_variant_name(fun),
        field_name: perf.field_name(),
    }
}

/// The mathematical model of the sending impl block.
pub struct ActorPerformanceModel {
    pub trait_path: Seq<Seq<char>>,
    pub actor_name: Seq<char>,
    pub methods: Seq<SendingMethodModel>,
}

/// The sending impl block: the capability interface implemented for the
/// proxy type, one sending method per handler.
#[derive(Debug)]
pub struct ActorPerformance {
    pub trait_path: PathName,
    pub actor_name: String,
    pub methods: Vec<SendingMethod>,
}

impl DeepView for ActorPerformance {
    type V = ActorPerformanceModel;

    open spec fn deep_view(&self) -> ActorPerformanceModel {
        ActorPerformanceModel {
            trait_path: self.trait_path.deep_view(),
            actor_name: self.actor_name@,
            methods: self.methods.deep_view(),
        }
    }
}

/// What the sending impl block of one performance must be.
pub open spec fn spec_actor_performance(
    actor_name: Seq<char>,
    perf: PerformanceDeclModel,
) -> ActorPerformanceModel {
    ActorPerformanceModel {
        trait_path: perf.role_name,
        actor_name: actor_name,
        methods: perf.handlers.map_values(|h: HandlerModel| spec_sending_method(perf.role_name, h)),
    }
}

/// Builds the sending impl block for one performance.
pub fn make_actor_performance(actor_name: &str, perf: &PerformanceDeclaration) -> (r:
    ActorPerformance)
    requires
        perf.wf(),
    ensures
        r.deep_view() == spec_actor_performance(actor_name@, perf.deep_view()),
{
    let mut methods: Vec<SendingMethod> = Vec::new();
    let mut i: usize = 0;
    while i < perf.handlers.len()
        invariant
            i <= perf.handlers@.len(),
            methods@.len() == i as int,
            perf.wf(),
            forall|j: int| 0 <= j < i ==> #[trigger] methods@[j].deep_view() == spec_sending_method(
                perf.deep_view().role_name,
                perf.handlers@[j].deep_view(),
            ),
        decreases perf.handlers@.len() - i,
    {
        methods.push(sending_method(perf, &perf.handlers[i]));
        i = i + 1;
    }
    proof {
        assert forall|j: int| 0 <= j < methods.deep_view().len() implies methods.deep_view()[j]
            == spec_actor_performance(actor_name@, perf.deep_view()).methods[j] by {
            assert(methods.deep_view()[j] == methods@[j].deep_view());
            assert(perf.handlers.deep_view()[j] == perf.handlers@[j].deep_view());
        }
        assert(methods.deep_view() =~= spec_actor_performance(actor_name@, perf.deep_view()).methods);
    }
    ActorPerformance { trait_path: perf.role_name(), actor_name: actor_name.to_owned(), methods }
}

/// The mathematical model of one synthesized performance.
pub struct PerformanceModel {
    pub data_impl: DataPerformanceModel,
    pub actor_impl: ActorPerformanceModel,
}

/// The two impl blocks synthesized from one performance: the performer on
/// the state type and the sending interface on the proxy type.
#[derive(Debug)]
pub struct Performance {
    pub data_impl: DataPerformance,
    pub actor_impl: ActorPerformance,
}

impl DeepView for Performance {
    type V = PerformanceModel;

    open spec fn deep_view(&self) -> PerformanceModel {
        PerformanceModel {
            data_impl: self.data_impl.deep_view(),
            actor_impl: self.actor_impl.deep_view(),
        }
    }
}

/// What the synthesized pair of one performance must be.
pub open spec fn spec_performance(
    actor_name: Seq<char>,
    data_name: Seq<char>,
    perf: PerformanceDeclModel,
) -> PerformanceModel {
    PerformanceModel {
        data_impl: spec_data_performance(data_name, perf),
        actor_impl: spec_actor_performance(actor_name, perf),
    }
}

impl Performance {
    /// Synthesizes both impl blocks of one performance.
    pub fn new(actor_name: &str, data_name: &str, perf: &PerformanceDeclaration) -> (r: Performance)
        requires
            perf.wf(),
        ensures
            r.deep_view() == spec_performance(actor_name@, data_name@, perf.deep_view()),
    {
        Performance {
            data_impl: make_data_performance(data_name, perf),
            actor_impl: make_actor_performance(actor_name, perf),
        }
    }
}

} // verus!
