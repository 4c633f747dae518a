//! Role synthesis.
//!
//! A capability marked canonical originates the capability's externally
//! visible surface: the capability interface (one rewritten, bodyless
//! method signature per handler), the message tagged-union (one variant per
//! handler, carrying the handler's non-receiver parameter types as a
//! positional tuple), and the association binding the capability name to
//! the message type.  Non-canonical performances of the same capability
//! re-emit none of these; they resolve against the canonical declaration by
//! name.

use vstd::prelude::*;

use crate::ast::{leaf_of, Handler, HandlerModel, PathName};
use crate::infotype::{spec_info_type, InfoType, InfoTypeModel};
use crate::names::{spec_payload_name, spec_variant_name};
use crate::namerewriter::{
    spec_param_types, spec_rewrite_signature, MethodRewriter, RewrittenSig, RewrittenSigModel,
};
use crate::performance::{
    make_variant_name, spec_actor_performance, spec_arm, spec_data_performance,
    spec_sending_method, PerformanceDeclModel, PerformanceDeclaration,
};

verus! {

/// The mathematical model of one message variant.
pub struct VariantModel {
    pub name: Seq<char>,
    pub field_types: Seq<Seq<char>>,
}

/// One variant of a capability's message tagged-union: named after its
/// handler, carrying the handler's non-receiver parameter types as a
/// positional tuple.
#[derive(Debug)]
pub struct Variant {
    pub name: String,
    pub field_types: Vec<String>,
}

impl DeepView for Variant {
    type V = VariantModel;

    open spec fn deep_view(&self) -> VariantModel {
        VariantModel { name: self.name@, field_types: self.field_types.deep_view() }
    }
}

/// What the message variant of one handler must be.
pub open spec fn spec_variant(h: HandlerModel) -> VariantModel {
    VariantModel { name: spec_variant_name(h.name), field_types: spec_param_types(h.params) }
}

/// The mathematical model of a message tagged-union.
pub struct PayloadEnumModel {
    pub name: Seq<char>,
    pub variants: Seq<VariantModel>,
}

/// A capability's message tagged-union: the closed set of message shapes,
/// one variant per handler, in handler order.
#[derive(Debug)]
pub struct PayloadEnum {
    pub name: String,
    pub variants: Vec<Variant>,
}

impl DeepView for PayloadEnum {
    type V = PayloadEnumModel;

    open spec fn deep_view(&self) -> PayloadEnumModel {
        PayloadEnumModel { name: self.name@, variants: self.variants.deep_view() }
    }
}

/// What the message tagged-union over these handlers must be.
pub open spec fn spec_payload_enum(name: Seq<char>, handlers: Seq<HandlerModel>) -> PayloadEnumModel {
    PayloadEnumModel {
        name: name,
        variants: handlers.map_values(|h: HandlerModel| spec_variant(h)),
    }
}

/// Builds one variant of the message tagged-union.
fn make_variant(sig: &Handler) -> (r: Variant)
    ensures
        r.deep_view() == spec_variant(sig.deep_view()),
{
    let mut field_types: Vec<String> = Vec::new();
    let mut i: usize = 0;
    while i < sig.params.len()
        invariant
            i <= sig.params@.len(),
            field_types@.len() == i as int,
            forall|j: int| 0 <= j < i ==> field_types@[j]@ == sig.params@[j].ty@,
        decreases sig.params@.len() - i,
    {
        field_types.push(sig.params[i].ty.clone());
        i = i + 1;
    }
    proof {
        assert forall|j: int| 0 <= j < field_types.deep_view().len() implies field_types.deep_view()[j]
            == spec_param_types(sig.deep_view().params)[j] by {
            assert(field_types.deep_view()[j] == field_types@[j]@);
            assert(sig.params.deep_view()[j] == sig.params@[j].deep_view());
        }
        assert(field_types.deep_view() =~= spec_param_types(sig.deep_view().params));
    }
    Variant { name: make_variant_name(sig), field_types }
}

/// Builds the message tagged-union for one capability's handler list.
pub fn create_payload_from_impl(payload_name: &str, methods: &Vec<Handler>) -> (r: PayloadEnum)
    ensures
        r.deep_view() == spec_payload_enum(payload_name@, methods.deep_view()),
{
    let mut variants: Vec<Variant> = Vec::new();
    let mut i: usize = 0;
    while i < methods.len()
        invariant
            i <= methods@.len(),
            variants@.len() == i as int,
            forall|j: int| 0 <= j < i ==> #[trigger] variants@[j].deep_view() == spec_variant(
                methods@[j].deep_view(),
            ),
        decreases methods@.len() - i,
    {
        variants.push(make_variant(&methods[i]));
        i = i + 1;
    }
    proof {
        assert forall|j: int| 0 <= j < variants.deep_view().len() implies variants.deep_view()[j]
            == spec_payload_enum(payload_name@, methods.deep_view()).variants[j] by {
            assert(variants.deep_view()[j] == variants@[j].deep_view());
            assert(methods.deep_view()[j] == methods@[j].deep_view());
        }
        assert(variants.deep_view() =~= spec_payload_enum(
            payload_name@,
            methods.deep_view(),
        ).variants);
    }
    PayloadEnum { name: payload_name.to_owned(), variants }
}

/// The mathematical model of the capability interface.
pub struct TraitDefModel {
    pub name: Seq<Seq<char>>,
    pub methods: Seq<RewrittenSigModel>,
}

/// The capability interface: the async-callable client surface, one
/// rewritten method signature per handler, declarations only.
#[derive(Debug)]
pub struct TraitDef {
    pub name: PathName,
    pub methods: Vec<RewrittenSig>,
}

impl DeepView for TraitDef {
    type V = TraitDefModel;

    open spec fn deep_view(&self) -> TraitDefModel {
        TraitDefModel { name: self.name.deep_view(), methods: self.methods.deep_view() }
    }
}

/// What the capability interface of one performance must be.
pub open spec fn spec_trait_def(perf: PerformanceDeclModel) -> TraitDefModel {
    TraitDefModel {
        name: perf.role_name,
        methods: perf.handlers.map_values(
            |h: HandlerModel| spec_rewrite_signature(perf.role_name, h),
        ),
    }
}

/// The mathematical model of one role declaration.
pub struct RoleModel {
    pub trait_def: TraitDefModel,
    pub trait_impl: InfoTypeModel,
    pub payload: PayloadEnumModel,
}

/// Everything a canonical performance originates: the capability interface,
/// the association binding it to its message type, and the message
/// tagged-union itself.
#[derive(Debug)]
pub struct Role {
    pub trait_def: TraitDef,
    pub trait_impl: InfoType,
    pub payload: PayloadEnum,
}

impl DeepView for Role {
    type V = RoleModel;

    open spec fn deep_view(&self) -> RoleModel {
        RoleModel {
            trait_def: self.trait_def.deep_view(),
            trait_impl: self.trait_impl.deep_view(),
            payload: self.payload.deep_view(),
        }
    }
}

/// What the role declaration of one canonical performance must be.
pub open spec fn spec_role(perf: PerformanceDeclModel) -> RoleModel {
    RoleModel {
        trait_def: spec_trait_def(perf),
        trait_impl: spec_info_type(perf),
        payload: spec_payload_enum(spec_payload_name(leaf_of(perf.role_name)), perf.handlers),
    }
}

impl Role {
    /// Synthesizes the role declaration of one canonical performance.
    pub fn new(perf: &PerformanceDeclaration) -> (r: Role)
        requires
            perf.wf(),
        ensures
            r.deep_view() == spec_role(perf.deep_view()),
    {
        let payload_name = perf.payload_name();
        let payload = create_payload_from_impl(payload_name.as_str(), perf.handlers());

        let rewriter = MethodRewriter::new(perf.role_name());
        let mut methods: Vec<RewrittenSig> = Vec::new();
        let mut i: usize = 0;
        while i < perf.handlers.len()
            invariant
                i <= perf.handlers@.len(),
                methods@.len() == i as int,
                rewriter.role_name.deep_view() == perf.deep_view().role_name,
                forall|j: int| 0 <= j < i ==> #[trigger] methods@[j].deep_view()
                    == spec_rewrite_signature(
                    perf.deep_view().role_name,
                    perf.handlers@[j].deep_view(),
                ),
            decreases perf.handlers@.len() - i,
        {
            methods.push(rewriter.fold_signature(&perf.handlers[i]));
            i = i + 1;
        }
        proof {
            assert forall|j: int| 0 <= j < methods.deep_view().len() implies methods.deep_view()[j]
                == spec_trait_def(perf.deep_view()).methods[j] by {
                assert(methods.deep_view()[j] == methods@[j].deep_view());
                assert(perf.handlers.deep_view()[j] == perf.handlers@[j].deep_view());
            }
            assert(methods.deep_view() =~= spec_trait_def(perf.deep_view()).methods);
        }
        let trait_def = TraitDef { name: perf.role_name(), methods };

        let trait_impl = InfoType::new(perf);

        proof {
            assert(payload.deep_view() =~= spec_role(perf.deep_view()).payload);
        }
        Role { trait_def, trait_impl, payload }
    }
}

/// The round-trip law.  The two derivations of one handler stay
/// referentially consistent: the sending method builds exactly the message
/// variant the performer arm matches — same variant name, and the variant
/// carries exactly the sending method's parameter types, in order — and
/// the performer arm destructures exactly one binding per carried value,
/// in order.  A tuple of argument values accepted by the sending method is
/// therefore carried and recovered unchanged by the performer arm.
pub proof fn lemma_round_trip_consistency(role: Seq<Seq<char>>, h: HandlerModel)
    ensures
        spec_sending_method(role, h).variant_name == spec_variant(h).name,
        spec_sending_method(role, h).payload_name == spec_payload_name(leaf_of(role)),
        spec_sending_method(role, h).sig.param_types == spec_variant(h).field_types,
        spec_arm(h).variant_name == spec_variant(h).name,
        spec_arm(h).patterns.len() == spec_variant(h).field_types.len(),
        spec_sending_method(role, h).sig.name == h.name,
{
}

/// A handler with zero non-receiver parameters still yields a valid
/// zero-field variant, a zero-argument sending method, and a performer arm
/// destructuring nothing.
pub proof fn lemma_zero_parameter_handler(role: Seq<Seq<char>>, h: HandlerModel)
    requires
        h.params.len() == 0,
    ensures
        spec_variant(h).field_types.len() == 0,
        spec_sending_method(role, h).sig.param_types.len() == 0,
        spec_arm(h).patterns.len() == 0,
{
}

/// Cross-declaration role sharing.  Two performances of the same
/// capability whose handlers have the same signatures derive the same role
/// declaration — interface, association and message tagged-union — and
/// sending methods of the same shape, whichever declarations they stand in
/// and whichever of them is canonical.  An actor performing a capability
/// declared canonical elsewhere therefore accepts the same call shape and
/// message type without redeclaring either.
pub proof fn lemma_role_sharing(
    a: PerformanceDeclModel,
    b: PerformanceDeclModel,
    actor_a: Seq<char>,
    actor_b: Seq<char>,
    data_a: Seq<char>,
    data_b: Seq<char>,
)
    requires
        a.role_name == b.role_name,
        a.handlers == b.handlers,
    ensures
        spec_role(a) == spec_role(b),
        spec_actor_performance(actor_a, a).methods == spec_actor_performance(actor_b, b).methods,
        spec_data_performance(data_a, a).payload_name == spec_data_performance(data_b, b).payload_name,
        spec_data_performance(data_a, a).method_name == spec_data_performance(data_b, b).method_name,
{
}

} // verus!
