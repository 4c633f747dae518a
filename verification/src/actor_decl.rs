//! The actor declaration model: the orchestrator of the pipeline.
//!
//! `ActorDecl::new` validates the declaration as a whole — every structural
//! violation across every pass is aggregated into one report before any
//! synthesis is attempted — then partitions the items into performances and
//! pass-through items, derives the proxy type name from the state type
//! name, and synthesizes the proxy struct, the construction function, the
//! role declarations of the canonical performances, and the performer and
//! sending impl blocks of every performance.

use vstd::prelude::*;
use vstd::pervasive::unreached;

use crate::ast::{
    data_count, is_tagged_impl, leaf_of, lemma_take_all, lemma_take_step, other_indices,
    state_name, Item, ItemModel, PathName, PerformanceAttribute,
};
use crate::diag::{
    all_diags, data_diags, extra_data_diags, lemma_all_diags_empty, validate, well_formed_decl,
    Diag, DiagKind, DiagLoc, ErrorAcc,
};
use crate::names::{actor_name_for, spec_actor_name, spec_field_name};
use crate::performance::{
    spec_performance, Performance, PerformanceDeclModel, PerformanceDeclaration, PerformanceModel,
};
use crate::role::{spec_role, Role, RoleModel};
use crate::spawning_function::{spec_spawning_function, SpawningFunction, SpawningFunctionModel};

verus! {

/// The mathematical model of one proxy field.
pub struct ProxyFieldModel {
    pub name: Seq<char>,
    pub role_name: Seq<Seq<char>>,
}

/// One field of the proxy struct: it holds the send endpoint of the named
/// capability's channel.
#[derive(Debug)]
pub struct ProxyField {
    pub name: String,
    pub role_name: PathName,
}

impl DeepView for ProxyField {
    type V = ProxyFieldModel;

    open spec fn deep_view(&self) -> ProxyFieldModel {
        ProxyFieldModel { name: self.name@, role_name: self.role_name.deep_view() }
    }
}

/// What the proxy field of one performance must be.
pub open spec fn spec_proxy_field(perf: PerformanceDeclModel) -> ProxyFieldModel {
    ProxyFieldModel {
        name: spec_field_name(leaf_of(perf.role_name)),
        role_name: perf.role_name,
    }
}

/// The mathematical model of the proxy struct.
pub struct ActorStructModel {
    pub name: Seq<char>,
    pub fields: Seq<ProxyFieldModel>,
}

/// The proxy struct: generated once per declaration, with exactly one
/// field per performance, each holding a send endpoint for that
/// performance's channel.
#[derive(Debug)]
pub struct ActorStruct {
    pub name: String,
    pub fields: Vec<ProxyField>,
}

impl DeepView for ActorStruct {
    type V = ActorStructModel;

    open spec fn deep_view(&self) -> ActorStructModel {
        ActorStructModel { name: self.name@, fields: self.fields.deep_view() }
    }
}

/// What the proxy struct of one declaration must be.
pub open spec fn spec_actor_struct(
    actor_name: Seq<char>,
    perfs: Seq<PerformanceDeclModel>,
) -> ActorStructModel {
    ActorStructModel {
        name: actor_name,
        fields: perfs.map_values(|p: PerformanceDeclModel| spec_proxy_field(p)),
    }
}

/// Builds the proxy field of one performance.
pub fn make_field_from_name(performance: &PerformanceDeclaration) -> (r: ProxyField)
    requires
        performance.wf(),
    ensures
        r.deep_view() == spec_proxy_field(performance.deep_view()),
{
    ProxyField { name: performance.field_name(), role_name: performance.role_name() }
}

/// Builds the proxy struct of one declaration.
pub fn make_actor_struct(actor_name: &str, performances: &Vec<PerformanceDeclaration>) -> (r:
    ActorStruct)
    requires
        forall|k: int| 0 <= k < performances@.len() ==> (#[trigger] performances@[k]).wf(),
    ensures
        r.deep_view() == spec_actor_struct(actor_name@, performances.deep_view()),
{
    let mut fields: Vec<ProxyField> = Vec::new();
    let mut i: usize = 0;
    while i < performances.len()
        invariant
            i <= performances@.len(),
            fields@.len() == i as int,
            forall|k: int| 0 <= k < performances@.len() ==> (#[trigger] performances@[k]).wf(),
            forall|j: int| 0 <= j < i ==> #[trigger] fields@[j].deep_view() == spec_proxy_field(
                performances@[j].deep_view(),
            ),
        decreases performances@.len() - i,
    {
        fields.push(make_field_from_name(&performances[i]));
        i = i + 1;
    }
    proof {
        assert forall|j: int| 0 <= j < fields.deep_view().len() implies fields.deep_view()[j]
            == spec_actor_struct(actor_name@, performances.deep_view()).fields[j] by {
            assert(fields.deep_view()[j] == fields@[j].deep_view());
            assert(performances.deep_view()[j] == performances@[j].deep_view());
        }
        assert(fields.deep_view() =~= spec_actor_struct(
            actor_name@,
            performances.deep_view(),
        ).fields);
    }
    ActorStruct { name: actor_name.to_owned(), fields }
}

/// The performance tag of a capability-implementation block, if it carries
/// one.
pub fn get_performance_tag(imp: &Item) -> (r: Option<&PerformanceAttribute>)
    ensures
        r is Some <==> is_tagged_impl(imp.deep_view()),
        r matches Some(attr) ==> imp.deep_view()->tag == Some(*attr),
{
    match imp {
        Item::CapabilityImpl { tag: Some(attr), .. } => Some(attr),
        _ => None,
    }
}

/// Finds the single state type's name: the name of the one data item when
/// exactly one exists, and the aggregated data-count report otherwise.
pub fn get_data_item_name(items: &Vec<Item>) -> (r: Result<String, ErrorAcc>)
    ensures
        match r {
            Ok(name) => data_count(items.deep_view()) == 1 && name@ == state_name(
                items.deep_view(),
            ),
            Err(e) => data_count(items.deep_view()) != 1 && e.errors@ == data_diags(
                items.deep_view(),
            ),
        },
{
    let ghost dv = items.deep_view();
    let mut count: usize = 0;
    let mut i: usize = 0;
    while i < items.len()
        invariant
            i <= items@.len(),
            dv == items.deep_view(),
            dv.len() == items@.len(),
            count as nat == data_count(dv.take(i as int)),
            count <= i,
        decreases items@.len() - i,
    {
        proof {
            lemma_take_step(dv, i as int);
            assert(dv[i as int] == items@[i as int].deep_view());
        }
        if items[i].is_data() {
            count = count + 1;
        }
        i = i + 1;
    }
    proof {
        lemma_take_all(dv);
    }

    if count == 1 {
        let mut i: usize = 0;
        while i < items.len()
            invariant
                i <= items@.len(),
                dv == items.deep_view(),
                dv.len() == items@.len(),
                data_count(dv) == 1,
                data_count(dv.take(i as int)) == 0,
                state_name(dv) == state_name(dv.skip(i as int)),
            decreases items@.len() - i,
        {
            proof {
                lemma_take_step(dv, i as int);
                assert(dv[i as int] == items@[i as int].deep_view());
                assert(dv.skip(i as int).first() == dv[i as int]);
                assert(dv.skip(i as int).drop_first() =~= dv.skip(i as int + 1));
            }
            match &items[i] {
                Item::Data { name } => {
                    return Ok(name.clone());
                },
                _ => {},
            }
            i = i + 1;
        }
        proof {
            lemma_take_all(dv);
            assert(false);
        }
        unreached()
    } else {
        let mut acc = ErrorAcc::new();
        if count == 0 {
            acc.push(
                Diag {
                    kind: DiagKind::MissingDataItem,
                    loc: DiagLoc::Declaration,
                },
            );
        } else {
            let mut i: usize = 0;
            while i < items.len()
                invariant
                    i <= items@.len(),
                    dv == items.deep_view(),
                    dv.len() == items@.len(),
                    acc.errors@ == extra_data_diags(dv.take(i as int)),
                decreases items@.len() - i,
            {
                proof {
                    lemma_take_step(dv, i as int);
                    assert(dv[i as int] == items@[i as int].deep_view());
                }
                if items[i].is_data() {
                    acc.push(
                        Diag {
                            kind: DiagKind::DuplicateDataItem,
                            loc: DiagLoc::Item { index: i },
                        },
                    );
                    proof {
                        assert(acc.errors@ =~= extra_data_diags(
                            dv.take(i as int + 1),
                        ));
                    }
                }
                i = i + 1;
            }
            proof {
                lemma_take_all(dv);
            }
        }
        proof {
            assert(acc.errors@ =~= data_diags(dv));
        }
        Err(acc)
    }
}

/// The performance a tagged capability-implementation block declares.
pub open spec fn perf_model_of(it: ItemModel) -> PerformanceDeclModel
    recommends
        is_tagged_impl(it),
        it->trait_path is Some,
{
    PerformanceDeclModel {
        role_name: it->trait_path->0,
        canonical: it->tag->0.canonical,
        handlers: it->handlers,
    }
}

/// The performances of a declaration, in item order.
pub open spec fn spec_perf_decls(items: Seq<ItemModel>) -> Seq<PerformanceDeclModel>
    decreases items.len(),
{
    if items.len() == 0 {
        Seq::empty()
    } else {
        spec_perf_decls(items.drop_last()) + if is_tagged_impl(items.last()) {
            seq![perf_model_of(items.last())]
        } else {
            Seq::empty()
        }
    }
}

/// The canonical subset of a performance list, in order.
pub open spec fn canonical_perfs(perfs: Seq<PerformanceDeclModel>) -> Seq<PerformanceDeclModel>
    decreases perfs.len(),
{
    if perfs.len() == 0 {
        Seq::empty()
    } else {
        canonical_perfs(perfs.drop_last()) + if perfs.last().canonical {
            seq![perfs.last()]
        } else {
            Seq::empty()
        }
    }
}

/// The role declaration of a canonical performance; nothing for the
/// others, which resolve against the canonical declaration by name.
pub fn make_canonical_role(perf_decl: &PerformanceDeclaration) -> (r: Option<Role>)
    requires
        perf_decl.wf(),
    ensures
        match r {
            Some(role) => perf_decl.deep_view().canonical && role.deep_view() == spec_role(
                perf_decl.deep_view(),
            ),
            None => !perf_decl.deep_view().canonical,
        },
{
    if perf_decl.attribute().canonical {
        Some(Role::new(perf_decl))
    } else {
        None
    }
}

/// The mathematical model of the synthesized declaration set.
pub struct ActorDeclModel {
    pub actor_struct: ActorStructModel,
    pub other_items: Seq<int>,
    pub spawner: SpawningFunctionModel,
    pub roles: Seq<RoleModel>,
    pub performance_implementations: Seq<PerformanceModel>,
}

/// What the whole synthesized declaration set of a well-formed declaration
/// must be.
pub open spec fn spec_actor_decl(items: Seq<ItemModel>) -> ActorDeclModel {
    let data_name = state_name(items);
    let actor_name = spec_actor_name(data_name);
    let perfs = spec_perf_decls(items);
    ActorDeclModel {
        actor_struct: spec_actor_struct(actor_name, perfs),
        other_items: other_indices(items),
        spawner: spec_spawning_function(actor_name, data_name, perfs),
        roles: canonical_perfs(perfs).map_values(|p: PerformanceDeclModel| spec_role(p)),
        performance_implementations: perfs.map_values(
            |p: PerformanceDeclModel| spec_performance(actor_name, data_name, p),
        ),
    }
}

/// The synthesized declaration set: the proxy struct, the positions of the
/// pass-through items (which the caller re-emits unchanged, the state type
/// among them), the construction function, the role declarations of the
/// canonical performances, and the two impl blocks of every performance.
#[derive(Debug)]
pub struct ActorDecl {
    pub actor_struct: ActorStruct,
    pub other_items: Vec<usize>,
    pub spawner: SpawningFunction,
    pub roles: Vec<Role>,
    pub performance_implementations: Vec<Performance>,
}

impl DeepView for ActorDecl {
    type V = ActorDeclModel;

    open spec fn deep_view(&self) -> ActorDeclModel {
        ActorDeclModel {
            actor_struct: self.actor_struct.deep_view(),
            other_items: self.other_items@.map_values(|u: usize| u as int),
            spawner: self.spawner.deep_view(),
            roles: self.roles.deep_view(),
            performance_implementations: self.performance_implementations.deep_view(),
        }
    }
}

impl ActorDecl {
    /// Validates the declaration and synthesizes the full declaration set,
    /// or returns the one aggregated report of every violation found.
    pub fn new(items: &Vec<Item>) -> (r: Result<ActorDecl, ErrorAcc>)
        requires
            forall|i: int| 0 <= i < items@.len() ==> (#[trigger] items@[i]).wf(),
        ensures
            match r {
                Ok(d) => all_diags(items.deep_view()).len() == 0 && d.deep_view()
                    == spec_actor_decl(items.deep_view()),
                Err(e) => all_diags(items.deep_view()).len() > 0 && e.errors@ == all_diags(
                    items.deep_view(),
                ),
            },
{
        let ghost dv = items.deep_view();
        let acc = validate(items);
        if !acc.is_empty() {
            return Err(acc);
        }
        proof {
            lemma_all_diags_empty(dv);
        }

        let data_name = match get_data_item_name(items) {
            Ok(name) => name,
            Err(_) => unreached(),
        };
        let actor_name = actor_name_for(data_name.as_str());

        let mut performances: Vec<PerformanceDeclaration> = Vec::new();
        let mut i: usize = 0;
        while i < items.len()
            invariant
                i <= items@.len(),
                dv == items.deep_view(),
                dv.len() == items@.len(),
                well_formed_decl(dv),
                forall|k: int| 0 <= k < items@.len() ==> (#[trigger] items@[k]).wf(),
                performances@.len() == spec_perf_decls(dv.take(i as int)).len(),
                forall|k: int| 0 <= k < performances@.len() ==> #[trigger] performances@[k].deep_view()
                    == spec_perf_decls(dv.take(i as int))[k],
                forall|k: int| 0 <= k < performances@.len() ==> (#[trigger] performances@[k]).wf(),
            decreases items@.len() - i,
        {
            proof {
                lemma_take_step(dv, i as int);
                assert(dv[i as int] == items@[i as int].deep_view());
            }
            let ghost plen = performances@.len() as int;
            match &items[i] {
                Item::CapabilityImpl { trait_path: Some(path), tag: Some(attr), handlers } => {
                    performances.push(PerformanceDeclaration::new(path, handlers, *attr));
                    proof {
                        assert(spec_perf_decls(dv.take(i as int + 1)) == spec_perf_decls(
                            dv.take(i as int),
                        ) + seq![perf_model_of(dv[i as int])]);
                        assert(performances@[plen].deep_view() == perf_model_of(dv[i as int]));
                    }
                },
                _ => {
                    proof {
                        assert(!is_tagged_impl(dv[i as int]));
                    }
                },
            }
            i = i + 1;
        }
        proof {
            lemma_take_all(dv);
        }
        let ghost perfs = spec_perf_decls(dv);
        proof {
            assert(performances.deep_view() =~= perfs);
        }

        let spawner = SpawningFunction::new(actor_name.as_str(), data_name.as_str(), &performances);

        let actor_struct = make_actor_struct(actor_name.as_str(), &performances);

        let mut performance_implementations: Vec<Performance> = Vec::new();
        let mut i: usize = 0;
        while i < performances.len()
            invariant
                i <= performances@.len(),
                performances.deep_view() == perfs,
                performances@.len() == perfs.len(),
                forall|k: int| 0 <= k < performances@.len() ==> (#[trigger] performances@[k]).wf(),
                actor_name@ == spec_actor_name(state_name(dv)),
                data_name@ == state_name(dv),
                performance_implementations@.len() == i as int,
                forall|k: int| 0 <= k < i ==> #[trigger] performance_implementations@[k].deep_view()
                    == spec_performance(actor_name@, data_name@, perfs[k]),
            decreases performances@.len() - i,
        {
            performance_implementations.push(
                Performance::new(actor_name.as_str(), data_name.as_str(), &performances[i]),
            );
            proof {
                assert(performances@[i as int].deep_view() == perfs[i as int]);
            }
            i = i + 1;
        }

        let mut roles: Vec<Role> = Vec::new();
        let mut i: usize = 0;
        while i < performances.len()
            invariant
                i <= performances@.len(),
                performances.deep_view() == perfs,
                performances@.len() == perfs.len(),
                forall|k: int| 0 <= k < performances@.len() ==> (#[trigger] performances@[k]).wf(),
                roles@.len() == canonical_perfs(perfs.take(i as int)).len(),
                forall|k: int| 0 <= k < roles@.len() ==> #[trigger] roles@[k].deep_view()
                    == spec_role(canonical_perfs(perfs.take(i as int))[k]),
            decreases performances@.len() - i,
        {
            proof {
                lemma_take_step(perfs, i as int);
                assert(performances@[i as int].deep_view() == perfs[i as int]);
            }
            let ghost rlen = roles@.len() as int;
            match make_canonical_role(&performances[i]) {
                Some(role) => {
                    roles.push(role);
                    proof {
                        assert(canonical_perfs(perfs.take(i as int + 1)) == canonical_perfs(
                            perfs.take(i as int),
                        ) + seq![perfs[i as int]]);
                        assert(roles@[rlen].deep_view() == spec_role(perfs[i as int]));
                    }
                },
                None => {},
            }
            i = i + 1;
        }
        proof {
            lemma_take_all(perfs);
        }

        let mut other_items: Vec<usize> = Vec::new();
        let mut i: usize = 0;
        while i < items.len()
            invariant
                i <= items@.len(),
                dv == items.deep_view(),
                dv.len() == items@.len(),
                other_items@.len() == other_indices(dv.take(i as int)).len(),
                forall|k: int| 0 <= k < other_items@.len() ==> #[trigger] other_items@[k] as int
                    == other_indices(dv.take(i as int))[k],
            decreases items@.len() - i,
        {
            proof {
                lemma_take_step(dv, i as int);
                assert(dv[i as int] == items@[i as int].deep_view());
            }
            let ghost olen = other_items@.len() as int;
            if !items[i].is_tagged() {
                other_items.push(i);
                proof {
                    assert(other_indices(dv.take(i as int + 1)) == other_indices(
                        dv.take(i as int),
                    ) + seq![i as int]);
                }
            }
            i = i + 1;
        }
        proof {
            lemma_take_all(dv);
        }

        let decl = ActorDecl {
            actor_struct,
            other_items,
            spawner,
            roles,
            performance_implementations,
        };
        proof {
            let m = spec_actor_decl(dv);
            assert(decl.deep_view().other_items =~= m.other_items);
            assert forall|k: int|
                0 <= k < decl.deep_view().roles.len() implies decl.deep_view().roles[k]
                == m.roles[k] by {
                assert(decl.roles.deep_view()[k] == decl.roles@[k].deep_view());
            }
            assert(decl.deep_view().roles =~= m.roles);
            assert forall|k: int|
                0 <= k < decl.deep_view().performance_implementations.len() implies decl.deep_view().performance_implementations[k]
                == m.performance_implementations[k] by {
                assert(decl.performance_implementations.deep_view()[k]
                    == decl.performance_implementations@[k].deep_view());
            }
            assert(decl.deep_view().performance_implementations
                =~= m.performance_implementations);
        }
        Ok(decl)
    }
}

/// The valid-generation law.  A well-formed declaration is accepted, and
/// the synthesized set holds exactly one proxy field, one channel pair and
/// one dispatch arm per performance; one performer arm and one sending
/// method per handler of every performance; and, for each canonical
/// performance, one role declaration whose message tagged-union holds one
/// variant per handler.
pub proof fn lemma_generation_shape(items: Seq<ItemModel>)
    requires
        well_formed_decl(items),
    ensures
        all_diags(items).len() == 0,
        spec_actor_decl(items).actor_struct.fields.len() == spec_perf_decls(items).len(),
        spec_actor_decl(items).spawner.channels.len() == spec_perf_decls(items).len(),
        spec_actor_decl(items).spawner.dispatch_arms.len() == spec_perf_decls(items).len(),
        spec_actor_decl(items).performance_implementations.len() == spec_perf_decls(items).len(),
        forall|k: int|
            0 <= k < spec_perf_decls(items).len()
                ==> (#[trigger] spec_actor_decl(items).performance_implementations[k]).data_impl.arms.len()
                == spec_perf_decls(items)[k].handlers.len(),
        forall|k: int|
            0 <= k < spec_perf_decls(items).len()
                ==> (#[trigger] spec_actor_decl(items).performance_implementations[k]).actor_impl.methods.len()
                == spec_perf_decls(items)[k].handlers.len(),
        spec_actor_decl(items).roles.len() == canonical_perfs(spec_perf_decls(items)).len(),
        forall|k: int|
            0 <= k < spec_actor_decl(items).roles.len()
                ==> (#[trigger] spec_actor_decl(items).roles[k]).payload.variants.len()
                == canonical_perfs(spec_perf_decls(items))[k].handlers.len(),
{
    lemma_all_diags_empty(items);
}

/// One entry of the emission order of a synthesized declaration set.
#[derive(Clone, Copy, Debug, PartialEq, Eq, Structural)]
pub enum EmittedRef {
    /// The proxy struct.
    ActorStruct,
    /// The pass-through item at this position of the input.
    PassThrough { index: usize },
    /// The construction function.
    Spawner,
    /// The role declaration at this position of the role list.
    RoleDecl { index: usize },
    /// The impl pair at this position of the performance list.
    PerformanceImpl { index: usize },
}

/// The order in which the synthesized declaration set is emitted: the
/// proxy struct, every pass-through item in input order (the state type
/// among them), the construction function, the role declarations, and the
/// performer and sending impl blocks.  The order only serves readability
/// of the generated output.
pub open spec fn spec_emission_order(m: ActorDeclModel) -> Seq<EmittedRef> {
    seq![EmittedRef::ActorStruct] + Seq::new(
        m.other_items.len(),
        |k: int| EmittedRef::PassThrough { index: m.other_items[k] as usize },
    ) + seq![EmittedRef::Spawner] + Seq::new(
        m.roles.len(),
        |k: int| EmittedRef::RoleDecl { index: k as usize },
    ) + Seq::new(
        m.performance_implementations.len(),
        |k: int| EmittedRef::PerformanceImpl { index: k as usize },
    )
}

impl ActorDecl {
    /// Lists the synthesized declarations in emission order.
    pub fn emission_order(&self) -> (r: Vec<EmittedRef>)
        ensures
            r@ == spec_emission_order(self.deep_view()),
    {
        let ghost m = self.deep_view();
        let ghost goal = spec_emission_order(m);
        let ghost n_other = self.other_items@.len() as int;
        let ghost n_roles = self.roles@.len() as int;
        let ghost n_perfs = self.performance_implementations@.len() as int;
        proof {
            assert(goal.len() == 2 + n_other + n_roles + n_perfs);
        }
        let mut out: Vec<EmittedRef> = Vec::new();
        out.push(EmittedRef::ActorStruct);
        proof {
            assert(goal[0] == EmittedRef::ActorStruct);
            assert(out@ =~= goal.take(1));
        }
        let mut i: usize = 0;
        while i < self.other_items.len()
            invariant
                i <= n_other,
                n_other == self.other_items@.len() as int,
                goal == spec_emission_order(self.deep_view()),
                goal.len() == 2 + n_other + n_roles + n_perfs,
                n_roles == self.roles@.len() as int,
                n_perfs == self.performance_implementations@.len() as int,
                out@.len() == 1 + i as int,
                out@ == goal.take(1 + i as int),
            decreases self.other_items@.len() - i,
        {
            out.push(EmittedRef::PassThrough { index: self.other_items[i] });
            proof {
                assert(goal[1 + i as int] == (EmittedRef::PassThrough {
                    index: self.other_items@[i as int],
                }));
                assert(out@ =~= goal.take(1 + i as int + 1));
            }
            i = i + 1;
        }
        out.push(EmittedRef::Spawner);
        proof {
            assert(goal[1 + n_other] == EmittedRef::Spawner);
            assert(out@ =~= goal.take(2 + n_other));
        }
        let mut i: usize = 0;
        while i < self.roles.len()
            invariant
                i <= n_roles,
                n_other == self.other_items@.len() as int,
                n_roles == self.roles@.len() as int,
                n_perfs == self.performance_implementations@.len() as int,
                goal == spec_emission_order(self.deep_view()),
                goal.len() == 2 + n_other + n_roles + n_perfs,
                out@.len() == 2 + n_other + i as int,
                out@ == goal.take(2 + n_other + i as int),
            decreases self.roles@.len() - i,
        {
            out.push(EmittedRef::RoleDecl { index: i });
            proof {
                assert(goal[2 + n_other + i as int] == (EmittedRef::RoleDecl { index: i }));
                assert(out@ =~= goal.take(2 + n_other + i as int + 1));
            }
            i = i + 1;
        }
        let mut i: usize = 0;
        while i < self.performance_implementations.len()
            invariant
                i <= n_perfs,
                n_other == self.other_items@.len() as int,
                n_roles == self.roles@.len() as int,
                n_perfs == self.performance_implementations@.len() as int,
                goal == spec_emission_order(self.deep_view()),
                goal.len() == 2 + n_other + n_roles + n_perfs,
                out@.len() == 2 + n_other + n_roles + i as int,
                out@ == goal.take(2 + n_other + n_roles + i as int),
            decreases self.performance_implementations@.len() - i,
        {
            out.push(EmittedRef::PerformanceImpl { index: i });
            proof {
                assert(goal[2 + n_other + n_roles + i as int] == (EmittedRef::PerformanceImpl {
                    index: i,
                }));
                assert(out@ =~= goal.take(2 + n_other + n_roles + i as int + 1));
            }
            i = i + 1;
        }
        proof {
            assert(out@ =~= goal);
        }
        out
    }
}

} // verus!
