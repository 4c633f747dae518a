//! The spawner synthesizer.
//!
//! For one declaration it builds the model of the construction function
//! emitted on the state type: one channel pair per performance (the send
//! endpoint goes into the proxy, the receive endpoint into the dispatch
//! loop), the proxy value wrapped for shared ownership, and a dispatch loop
//! that repeatedly awaits the first message ready across any receive
//! endpoint — no endpoint prioritized — and invokes the matching performer
//! method on the owned state.  The loop runs as an independent background
//! unit; the function returns the bundle {shared proxy handle, background
//! join handle}.  The loop terminates when every endpoint reports permanent
//! closure, and a handler failure terminates it as the loop's own failure.

use vstd::prelude::*;

use crate::ast::{leaf_of, PathName};
use crate::names::{
    input_name_for, output_name_for, spec_field_name, spec_input_name, spec_method_name,
    spec_output_name,
};
use crate::performance::{PerformanceDeclModel, PerformanceDeclaration};

verus! {

/// The mathematical model of one channel construction.
pub struct ChannelSetupModel {
    pub role_name: Seq<Seq<char>>,
    pub field_name: Seq<char>,
    pub input_name: Seq<char>,
    pub output_name: Seq<char>,
}

/// One channel pair of the construction function: the capability it
/// serves, the proxy field its send endpoint fills, and the two local
/// bindings its endpoints are bound to.
#[derive(Debug)]
pub struct ChannelSetup {
    pub role_name: PathName,
    pub field_name: String,
    pub input_name: String,
    pub output_name: String,
}

impl DeepView for ChannelSetup {
    type V = ChannelSetupModel;

    open spec fn deep_view(&self) -> ChannelSetupModel {
        ChannelSetupModel {
            role_name: self.role_name.deep_view(),
            field_name: self.field_name@,
            input_name: self.input_name@,
            output_name: self.output_name@,
        }
    }
}

/// What the channel construction of one performance must be.
pub open spec fn spec_channel_setup(perf: PerformanceDeclModel) -> ChannelSetupModel {
    let field = spec_field_name(leaf_of(perf.role_name));
    ChannelSetupModel {
        role_name: perf.role_name,
        field_name: field,
        input_name: spec_input_name(field),
        output_name: spec_output_name(field),
    }
}

/// The mathematical model of one dispatch-loop arm.
pub struct DispatchArmModel {
    pub output_name: Seq<char>,
    pub method_name: Seq<char>,
}

/// One arm of the multiplexed wait: when this receive endpoint is the
/// first to yield a message, the loop invokes this performer method on the
/// owned state.
#[derive(Debug)]
pub struct DispatchArm {
    pub output_name: String,
    pub method_name: String,
}

impl DeepView for DispatchArm {
    type V = DispatchArmModel;

    open spec fn deep_view(&self) -> DispatchArmModel {
        DispatchArmModel { output_name: self.output_name@, method_name: self.method_name@ }
    }
}

/// What the dispatch-loop arm of one performance must be.
pub open spec fn spec_dispatch_arm(perf: PerformanceDeclModel) -> DispatchArmModel {
    let field = spec_field_name(leaf_of(perf.role_name));
    DispatchArmModel {
        output_name: spec_output_name(field),
        method_name: spec_method_name(leaf_of(perf.role_name)),
    }
}

/// The mathematical model of the construction function.
pub struct SpawningFunctionModel {
    pub actor_name: Seq<char>,
    pub data_name: Seq<char>,
    pub channels: Seq<ChannelSetupModel>,
    pub dispatch_arms: Seq<DispatchArmModel>,
}

/// The construction function emitted on the state type: it takes an
/// initial state value by ownership, builds one channel pair per
/// performance, fills the proxy with every send endpoint, spawns the
/// dispatch loop over every receive endpoint, and returns the bundle of
/// shared proxy handle and background join handle.
#[derive(Debug)]
pub struct SpawningFunction {
    pub actor_name: String,
    pub data_name: String,
    pub channels: Vec<ChannelSetup>,
    pub dispatch_arms: Vec<DispatchArm>,
}

impl DeepView for SpawningFunction {
    type V = SpawningFunctionModel;

    open spec fn deep_view(&self) -> SpawningFunctionModel {
        SpawningFunctionModel {
            actor_name: self.actor_name@,
            data_name: self.data_name@,
            channels: self.channels.deep_view(),
            dispatch_arms: self.dispatch_arms.deep_view(),
        }
    }
}

/// What the construction function of one declaration must be.
pub open spec fn spec_spawning_function(
    actor_name: Seq<char>,
    data_name: Seq<char>,
    perfs: Seq<PerformanceDeclModel>,
) -> SpawningFunctionModel {
    SpawningFunctionModel {
        actor_name: actor_name,
        data_name: data_name,
        channels: perfs.map_values(|p: PerformanceDeclModel| spec_channel_setup(p)),
        dispatch_arms: perfs.map_values(|p: PerformanceDeclModel| spec_dispatch_arm(p)),
    }
}

impl SpawningFunction {
    /// Builds the construction function model for one declaration.
    pub fn new(
        actor_name: &str,
        data_name: &str,
        performances: &Vec<PerformanceDeclaration>,
    ) -> (r: SpawningFunction)
        requires
            forall|k: int| 0 <= k < performances@.len() ==> (#[trigger] performances@[k]).wf(),
        ensures
            r.deep_view() == spec_spawning_function(
                actor_name@,
                data_name@,
                performances.deep_view(),
            ),
    {
        let mut channels: Vec<ChannelSetup> = Vec::new();
        let mut dispatch_arms: Vec<DispatchArm> = Vec::new();
        let mut i: usize = 0;
        while i < performances.len()
            invariant
                i <= performances@.len(),
                channels@.len() == i as int,
                dispatch_arms@.len() == i as int,
                forall|k: int| 0 <= k < performances@.len() ==> (#[trigger] performances@[k]).wf(),
                forall|j: int| 0 <= j < i ==> #[trigger] channels@[j].deep_view()
                    == spec_channel_setup(performances@[j].deep_view()),
                forall|j: int| 0 <= j < i ==> #[trigger] dispatch_arms@[j].deep_view()
                    == spec_dispatch_arm(performances@[j].deep_view()),
            decreases performances@.len() - i,
        {
            let perf = &performances[i];
            let field_name = perf.field_name();
            let input_name = input_name_for(field_name.as_str());
            let output_name = output_name_for(field_name.as_str());
            channels.push(
                ChannelSetup {
                    role_name: perf.role_name(),
                    field_name,
                    input_name,
                    output_name,
                },
            );
            dispatch_arms.push(
                DispatchArm {
                    output_name: output_name_for(perf.field_name().as_str()),
                    method_name: perf.method_name(),
                },
            );
            i = i + 1;
        }
        proof {
            let perfs = performances.deep_view();
            assert forall|j: int| 0 <= j < channels.deep_view().len() implies channels.deep_view()[j]
                == spec_spawning_function(actor_name@, data_name@, perfs).channels[j] by {
                assert(channels.deep_view()[j] == channels@[j].deep_view());
                assert(perfs[j] == performances@[j].deep_view());
            }
            assert(channels.deep_view() =~= spec_spawning_function(
                actor_name@,
                data_name@,
                perfs,
            ).channels);
            assert forall|j: int|
                0 <= j < dispatch_arms.deep_view().len() implies dispatch_arms.deep_view()[j]
                == spec_spawning_function(actor_name@, data_name@, perfs).dispatch_arms[j] by {
                assert(dispatch_arms.deep_view()[j] == dispatch_arms@[j].deep_view());
                assert(perfs[j] == performances@[j].deep_view());
            }
            assert(dispatch_arms.deep_view() =~= spec_spawning_function(
                actor_name@,
                data_name@,
                perfs,
            ).dispatch_arms);
        }
        SpawningFunction {
            actor_name: actor_name.to_owned(),
            data_name: data_name.to_owned(),
            channels,
            dispatch_arms,
        }
    }
}

} // verus!
