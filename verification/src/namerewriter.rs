//! The signature rewriter.
//!
//! One user-authored handler signature is folded into the client-facing
//! sending shape: the original parameter names are erased (the forwarding
//! body only builds a positional tuple), the mutable receiver becomes a
//! shared one (sending is safe for concurrent callers), the method is
//! forced to be asynchronous, and the return type becomes a result
//! reporting a send failure on the capability's channel.  The handler body
//! is never entered.

use vstd::prelude::*;

use crate::ast::{Handler, HandlerModel, ParamModel, PathName, ReceiverShape};

verus! {

/// The mathematical model of a rewritten signature.
pub struct RewrittenSigModel {
    pub name: Seq<char>,
    pub receiver: ReceiverShape,
    pub param_types: Seq<Seq<char>>,
    pub asynchronous: bool,
    pub send_error_role: Seq<Seq<char>>,
}

/// A handler signature folded into its client-facing sending shape: the
/// method keeps its name and parameter types; parameter names are erased to
/// anonymous positional placeholders; the receiver is shared; the method is
/// asynchronous; the return type reports a send failure on the named
/// capability's channel.
#[derive(Debug)]
pub struct RewrittenSig {
    pub name: String,
    pub receiver: ReceiverShape,
    pub param_types: Vec<String>,
    pub asynchronous: bool,
    pub send_error_role: PathName,
}

impl DeepView for RewrittenSig {
    type V = RewrittenSigModel;

    open spec fn deep_view(&self) -> RewrittenSigModel {
        RewrittenSigModel {
            name: self.name@,
            receiver: self.receiver,
            param_types: self.param_types.deep_view(),
            asynchronous: self.asynchronous,
            send_error_role: self.send_error_role.deep_view(),
        }
    }
}

/// The types of a handler's non-receiver parameters, in order.
pub open spec fn spec_param_types(params: Seq<ParamModel>) -> Seq<Seq<char>> {
    params.map_values(|p: ParamModel| p.ty)
}

/// The patterns a handler's non-receiver parameters bind, in order.
pub open spec fn spec_param_patterns(params: Seq<ParamModel>) -> Seq<Seq<char>> {
    params.map_values(|p: ParamModel| p.pat)
}

/// What rewriting one handler signature for the named capability yields.
pub open spec fn spec_rewrite_signature(role: Seq<Seq<char>>, h: HandlerModel) -> RewrittenSigModel {
    RewrittenSigModel {
        name: h.name,
        receiver: ReceiverShape::Shared,
        param_types: spec_param_types(h.params),
        asynchronous: true,
        send_error_role: role,
    }
}

/// Folds handler signatures into their sending shape for one capability.
#[derive(Debug)]
pub struct MethodRewriter {
    pub role_name: PathName,
}

impl MethodRewriter {
    /// A rewriter for the given capability.
    pub fn new(role_name: PathName) -> (r: MethodRewriter)
        ensures
            r.role_name.deep_view() == role_name.deep_view(),
    {
        MethodRewriter { role_name }
    }

    /// Rewrites one handler signature into its sending shape.
    pub fn fold_signature(&self, h: &Handler) -> (r: RewrittenSig)
        ensures
            r.deep_view() == spec_rewrite_signature(self.role_name.deep_view(), h.deep_view()),
    {
        let mut param_types: Vec<String> = Vec::new();
        let mut i: usize = 0;
        while i < h.params.len()
            invariant
                i <= h.params@.len(),
                param_types@.len() == i as int,
                forall|j: int| 0 <= j < i ==> param_types@[j]@ == h.params@[j].ty@,
            decreases h.params@.len() - i,
        {
            param_types.push(h.params[i].ty.clone());
            i = i + 1;
        }
        proof {
            assert forall|j: int| 0 <= j < param_types.deep_view().len() implies param_types.deep_view()[j]
                == spec_param_types(h.deep_view().params)[j] by {
                assert(param_types.deep_view()[j] == param_types@[j]@);
                assert(h.params.deep_view()[j] == h.params@[j].deep_view());
            }
            assert(param_types.deep_view() =~= spec_param_types(h.deep_view().params));
        }
        RewrittenSig {
            name: h.name.clone(),
            receiver: ReceiverShape::Shared,
            param_types,
            asynchronous: true,
            send_error_role: self.role_name.duplicate(),
        }
    }
}

} // verus!
