//! Generation-model tests: validation, aggregation, and the derived shapes.

use troupe::actor_decl::{ActorDecl, EmittedRef};
use troupe::ast::{Handler, Item, Param, PathName, PerformanceAttribute, ReceiverShape};
use troupe::diag::{merge_errors, Diag, DiagKind, DiagLoc, ErrorAcc};

fn path(segments: &[&str]) -> PathName {
    PathName { segments: segments.iter().map(|s| s.to_string()).collect() }
}

fn handler(name: &str, receiver: ReceiverShape, params: &[(&str, &str)]) -> Handler {
    Handler {
        name: name.to_string(),
        receiver,
        params: params
            .iter()
            .map(|(p, t)| Param { pat: p.to_string(), ty: t.to_string() })
            .collect(),
        ret: None,
        asynchronous: false,
        body: "{ }".to_string(),
    }
}

fn perf_impl(segments: &[&str], canonical: bool, handlers: Vec<Handler>) -> Item {
    Item::CapabilityImpl {
        trait_path: Some(path(segments)),
        tag: Some(PerformanceAttribute { canonical }),
        handlers,
    }
}

fn data(name: &str) -> Item {
    Item::Data { name: name.to_string() }
}

#[test]
fn valid_declaration_generates_full_set() {
    let items = vec![
        data("Counter"),
        perf_impl(
            &["Incrementer"],
            true,
            vec![handler("incr", ReceiverShape::Mutable, &[("n", "i64")])],
        ),
    ];
    let decl = ActorDecl::new(&items).expect("a valid declaration must generate");

    assert_eq!(decl.actor_struct.name, "CounterActor");
    assert_eq!(decl.actor_struct.fields.len(), 1);
    assert_eq!(decl.actor_struct.fields[0].name, "incrementer");
    assert_eq!(decl.actor_struct.fields[0].role_name.segments, vec!["Incrementer"]);

    assert_eq!(decl.other_items, vec![0]);

    assert_eq!(decl.roles.len(), 1);
    let role = &decl.roles[0];
    assert_eq!(role.payload.name, "IncrementerPayload");
    assert_eq!(role.payload.variants.len(), 1);
    assert_eq!(role.payload.variants[0].name, "Incr");
    assert_eq!(role.payload.variants[0].field_types, vec!["i64"]);
    assert_eq!(role.trait_impl.payload_name, "IncrementerPayload");
    assert_eq!(role.trait_def.methods.len(), 1);
    assert_eq!(role.trait_def.methods[0].name, "incr");

    assert_eq!(decl.performance_implementations.len(), 1);
    let perf = &decl.performance_implementations[0];
    assert_eq!(perf.data_impl.data_name, "Counter");
    assert_eq!(perf.data_impl.method_name, "perform_incrementer");
    assert_eq!(perf.data_impl.arms.len(), 1);
    assert_eq!(perf.data_impl.arms[0].variant_name, "Incr");
    assert_eq!(perf.data_impl.arms[0].patterns, vec!["n"]);
    assert_eq!(perf.data_impl.arms[0].body, "{ }");
    assert_eq!(perf.actor_impl.actor_name, "CounterActor");
    assert_eq!(perf.actor_impl.methods.len(), 1);

    assert_eq!(decl.spawner.actor_name, "CounterActor");
    assert_eq!(decl.spawner.data_name, "Counter");
    assert_eq!(decl.spawner.channels.len(), 1);
    assert_eq!(decl.spawner.channels[0].field_name, "incrementer");
    assert_eq!(decl.spawner.channels[0].input_name, "incrementer_input");
    assert_eq!(decl.spawner.channels[0].output_name, "incrementer_output");
    assert_eq!(decl.spawner.dispatch_arms.len(), 1);
    assert_eq!(decl.spawner.dispatch_arms[0].output_name, "incrementer_output");
    assert_eq!(decl.spawner.dispatch_arms[0].method_name, "perform_incrementer");
}

#[test]
fn no_data_item_is_one_synthetic_error() {
    let items = vec![perf_impl(
        &["Incrementer"],
        true,
        vec![handler("incr", ReceiverShape::Mutable, &[])],
    )];
    let err = ActorDecl::new(&items).expect_err("no data item must fail");
    assert_eq!(err.errors.len(), 1);
    assert_eq!(
        err.errors[0],
        Diag { kind: DiagKind::MissingDataItem, loc: DiagLoc::Declaration }
    );
}

#[test]
fn two_data_items_give_two_locations() {
    let items = vec![data("A"), data("B")];
    let err = ActorDecl::new(&items).expect_err("two data items must fail");
    assert_eq!(err.errors.len(), 2);
    assert_eq!(
        err.errors[0],
        Diag { kind: DiagKind::DuplicateDataItem, loc: DiagLoc::Item { index: 0 } }
    );
    assert_eq!(
        err.errors[1],
        Diag { kind: DiagKind::DuplicateDataItem, loc: DiagLoc::Item { index: 1 } }
    );
}

#[test]
fn three_data_items_give_three_locations() {
    let items = vec![data("A"), Item::Other, data("B"), data("C")];
    let err = ActorDecl::new(&items).expect_err("three data items must fail");
    assert_eq!(err.errors.len(), 3);
    let locs: Vec<DiagLoc> = err.errors.iter().map(|d| d.loc).collect();
    assert_eq!(
        locs,
        vec![
            DiagLoc::Item { index: 0 },
            DiagLoc::Item { index: 2 },
            DiagLoc::Item { index: 3 },
        ]
    );
    assert!(err.errors.iter().all(|d| d.kind == DiagKind::DuplicateDataItem));
}

#[test]
fn receiver_violations_merge_across_performances() {
    let items = vec![
        data("Olaf"),
        perf_impl(
            &["Speaker"],
            true,
            vec![handler("speak", ReceiverShape::Shared, &[])],
        ),
        perf_impl(
            &["Walker"],
            true,
            vec![handler("walk", ReceiverShape::Owned, &[("to", "Place")])],
        ),
    ];
    let err = ActorDecl::new(&items).expect_err("bad receivers must fail");
    assert_eq!(err.errors.len(), 2);
    assert_eq!(
        err.errors[0],
        Diag { kind: DiagKind::InvalidReceiver, loc: DiagLoc::Handler { item: 1, handler: 0 } }
    );
    assert_eq!(
        err.errors[1],
        Diag { kind: DiagKind::InvalidReceiver, loc: DiagLoc::Handler { item: 2, handler: 0 } }
    );
}

#[test]
fn missing_receiver_is_a_violation() {
    let items = vec![
        data("Olaf"),
        perf_impl(
            &["Speaker"],
            true,
            vec![handler("speak", ReceiverShape::Missing, &[])],
        ),
    ];
    let err = ActorDecl::new(&items).expect_err("a handler without a receiver must fail");
    assert_eq!(err.errors.len(), 1);
    assert_eq!(err.errors[0].kind, DiagKind::InvalidReceiver);
}

#[test]
fn tagged_impl_without_capability_path_is_reported() {
    let items = vec![
        data("Olaf"),
        Item::CapabilityImpl {
            trait_path: None,
            tag: Some(PerformanceAttribute { canonical: false }),
            handlers: vec![handler("speak", ReceiverShape::Mutable, &[])],
        },
    ];
    let err = ActorDecl::new(&items).expect_err("a tagged block without a capability must fail");
    assert_eq!(err.errors.len(), 1);
    assert_eq!(
        err.errors[0],
        Diag { kind: DiagKind::MissingCapabilityPath, loc: DiagLoc::Item { index: 1 } }
    );
}

#[test]
fn round_trip_variant_carries_the_parameter_types() {
    let items = vec![
        data("Calc"),
        perf_impl(
            &["Frobnicator"],
            true,
            vec![handler(
                "do_math",
                ReceiverShape::Mutable,
                &[("a", "I32"), ("b", "Bool")],
            )],
        ),
    ];
    let decl = ActorDecl::new(&items).unwrap();

    let variant = &decl.roles[0].payload.variants[0];
    assert_eq!(variant.name, "DoMath");
    assert_eq!(variant.field_types, vec!["I32", "Bool"]);

    let sending = &decl.performance_implementations[0].actor_impl.methods[0];
    assert_eq!(sending.sig.name, "do_math");
    assert_eq!(sending.sig.param_types, vec!["I32", "Bool"]);
    assert_eq!(sending.sig.receiver, ReceiverShape::Shared);
    assert!(sending.sig.asynchronous);
    assert_eq!(sending.variant_name, "DoMath");
    assert_eq!(sending.payload_name, "FrobnicatorPayload");
    assert_eq!(sending.field_name, "frobnicator");

    let arm = &decl.performance_implementations[0].data_impl.arms[0];
    assert_eq!(arm.variant_name, "DoMath");
    assert_eq!(arm.patterns, vec!["a", "b"]);
}

#[test]
fn zero_parameter_handler_still_generates() {
    let items = vec![
        data("Olaf"),
        perf_impl(
            &["Speaker"],
            true,
            vec![handler("speak", ReceiverShape::Mutable, &[])],
        ),
    ];
    let decl = ActorDecl::new(&items).unwrap();
    let variant = &decl.roles[0].payload.variants[0];
    assert_eq!(variant.name, "Speak");
    assert!(variant.field_types.is_empty());
    let sending = &decl.performance_implementations[0].actor_impl.methods[0];
    assert!(sending.sig.param_types.is_empty());
    let arm = &decl.performance_implementations[0].data_impl.arms[0];
    assert!(arm.patterns.is_empty());
}

#[test]
fn role_sharing_keeps_call_shape_without_redeclaration() {
    let canonical_decl = ActorDecl::new(&vec![
        data("Olaf"),
        perf_impl(
            &["Logger"],
            true,
            vec![handler("log", ReceiverShape::Mutable, &[("line", "String")])],
        ),
    ])
    .unwrap();
    let performing_decl = ActorDecl::new(&vec![
        data("Hedwig"),
        perf_impl(
            &["Logger"],
            false,
            vec![handler("log", ReceiverShape::Mutable, &[("line", "String")])],
        ),
    ])
    .unwrap();

    // Only the canonical declaration emits the role: interface, association
    // and message tagged-union.
    assert_eq!(canonical_decl.roles.len(), 1);
    assert_eq!(performing_decl.roles.len(), 0);

    // Both still get a proxy field, a channel, a dispatch arm and a
    // performer method, with the same derived names and the same sending
    // shape, so the non-canonical one resolves against the canonical
    // declaration by name.
    let a = &canonical_decl.performance_implementations[0].actor_impl.methods[0];
    let b = &performing_decl.performance_implementations[0].actor_impl.methods[0];
    assert_eq!(a.sig.name, b.sig.name);
    assert_eq!(a.sig.param_types, b.sig.param_types);
    assert_eq!(a.payload_name, b.payload_name);
    assert_eq!(a.variant_name, b.variant_name);
    assert_eq!(a.field_name, b.field_name);
    assert_eq!(
        canonical_decl.spawner.dispatch_arms[0].method_name,
        performing_decl.spawner.dispatch_arms[0].method_name
    );
    assert_eq!(
        canonical_decl.actor_struct.fields[0].name,
        performing_decl.actor_struct.fields[0].name
    );
}

#[test]
fn derived_names_follow_the_casing_rule() {
    let items = vec![
        data("Widget"),
        perf_impl(
            &["util", "LogSink"],
            true,
            vec![handler("writeLine", ReceiverShape::Mutable, &[("s", "String")])],
        ),
    ];
    let decl = ActorDecl::new(&items).unwrap();
    // Identifiers derive from the path leaf, under one casing rule:
    // upper-camel for types and variants, snake for fields and methods.
    assert_eq!(decl.roles[0].payload.name, "LogSinkPayload");
    assert_eq!(decl.actor_struct.fields[0].name, "log_sink");
    assert_eq!(decl.spawner.dispatch_arms[0].method_name, "perform_log_sink");
    assert_eq!(decl.roles[0].payload.variants[0].name, "WriteLine");
}

#[test]
fn emission_order_lists_every_declaration_once() {
    let items = vec![
        data("Olaf"),
        Item::Other,
        perf_impl(
            &["Speaker"],
            true,
            vec![handler("speak", ReceiverShape::Mutable, &[])],
        ),
        perf_impl(
            &["Walker"],
            false,
            vec![handler("walk", ReceiverShape::Mutable, &[])],
        ),
    ];
    let decl = ActorDecl::new(&items).unwrap();
    let order = decl.emission_order();
    assert_eq!(
        order,
        vec![
            EmittedRef::ActorStruct,
            EmittedRef::PassThrough { index: 0 },
            EmittedRef::PassThrough { index: 1 },
            EmittedRef::Spawner,
            EmittedRef::RoleDecl { index: 0 },
            EmittedRef::PerformanceImpl { index: 0 },
            EmittedRef::PerformanceImpl { index: 1 },
        ]
    );
}

#[test]
fn merge_errors_keeps_both_reports_in_order() {
    let mut a = ErrorAcc::new();
    a.push(Diag { kind: DiagKind::MissingDataItem, loc: DiagLoc::Declaration });
    let mut b = ErrorAcc::new();
    b.push(Diag { kind: DiagKind::InvalidReceiver, loc: DiagLoc::Handler { item: 1, handler: 0 } });
    b.push(Diag { kind: DiagKind::MissingCapabilityPath, loc: DiagLoc::Item { index: 2 } });
    let merged = merge_errors(a, b);
    assert_eq!(merged.errors.len(), 3);
    assert_eq!(merged.errors[0].kind, DiagKind::MissingDataItem);
    assert_eq!(merged.errors[1].kind, DiagKind::InvalidReceiver);
    assert_eq!(merged.errors[2].kind, DiagKind::MissingCapabilityPath);
}

#[test]
fn performance_tag_is_read_from_the_item() {
    let tagged = perf_impl(&["Speaker"], true, vec![]);
    let untagged = Item::CapabilityImpl {
        trait_path: Some(path(&["Speaker"])),
        tag: None,
        handlers: vec![],
    };
    assert_eq!(
        troupe::actor_decl::get_performance_tag(&tagged),
        Some(&PerformanceAttribute { canonical: true })
    );
    assert_eq!(troupe::actor_decl::get_performance_tag(&untagged), None);
    assert_eq!(troupe::actor_decl::get_performance_tag(&data("Olaf")), None);
}

#[test]
fn data_item_name_is_the_single_data_items_name() {
    let ok = troupe::actor_decl::get_data_item_name(&vec![Item::Other, data("Olaf")]);
    assert_eq!(ok.unwrap(), "Olaf");

    let none = troupe::actor_decl::get_data_item_name(&vec![Item::Other]);
    let err = none.unwrap_err();
    assert_eq!(err.errors.len(), 1);
    assert_eq!(err.errors[0].kind, DiagKind::MissingDataItem);

    let both = troupe::actor_decl::get_data_item_name(&vec![data("A"), data("B")]);
    assert_eq!(both.unwrap_err().errors.len(), 2);
}

#[test]
fn untagged_impl_passes_through() {
    let items = vec![
        data("Olaf"),
        Item::CapabilityImpl {
            trait_path: Some(path(&["Display"])),
            tag: None,
            handlers: vec![handler("fmt", ReceiverShape::Shared, &[])],
        },
    ];
    // An untagged capability impl is not a performance: its handlers are
    // not validated and it passes through unchanged.
    let decl = ActorDecl::new(&items).unwrap();
    assert_eq!(decl.other_items, vec![0, 1]);
    assert_eq!(decl.performance_implementations.len(), 0);
    assert_eq!(decl.actor_struct.fields.len(), 0);
    assert_eq!(decl.roles.len(), 0);
}
