//! The association binding a capability to its message type.
//!
//! For every canonical performance the generator emits one binding
//! {capability name → message tagged-union → channel type}; every
//! participant of the capability — the canonical owner and any other actor
//! performing it by name — resolves its channel through this binding.  The
//! channel type itself is fixed: the runtime's unbounded channel of the
//! message type.

use vstd::prelude::*;

use crate::ast::{leaf_of, PathName};
use crate::names::spec_payload_name;
use crate::performance::{PerformanceDeclModel, PerformanceDeclaration};

verus! {

/// The mathematical model of the association.
pub struct InfoTypeModel {
    pub role_name: Seq<Seq<char>>,
    pub payload_name: Seq<char>,
}

/// The emitted association: for this capability, this message tagged-union
/// (carried over the runtime's unbounded channel of it).
#[derive(Debug)]
pub struct InfoType {
    pub role_name: PathName,
    pub payload_name: String,
}

impl DeepView for InfoType {
    type V = InfoTypeModel;

    open spec fn deep_view(&self) -> InfoTypeModel {
        InfoTypeModel {
            role_name: self.role_name.deep_view(),
            payload_name: self.payload_name@,
        }
    }
}

/// What the association of one performance must be.
pub open spec fn spec_info_type(perf: PerformanceDeclModel) -> InfoTypeModel {
    InfoTypeModel {
        role_name: perf.role_name,
        payload_name: spec_payload_name(leaf_of(perf.role_name)),
    }
}

impl InfoType {
    /// Builds the association for one performance.
    pub fn new(perf: &PerformanceDeclaration) -> (r: InfoType)
        requires
            perf.wf(),
        ensures
            r.deep_view() == spec_info_type(perf.deep_view()),
    {
        InfoType { role_name: perf.role_name(), payload_name: perf.payload_name() }
    }
}

} // verus!
