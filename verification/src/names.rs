//! Derived identifiers.
//!
//! Every name in the generated output comes from one deterministic casing
//! rule: snake case for field and method identifiers, upper-camel case for
//! type and variant identifiers.  The two case conversions are performed by
//! the convert_case crate; everything assembled from them is verified here.

use convert_case::{Case, Casing};
use vstd::prelude::*;
use vstd::string::StringExecFns;

verus! {

/// What convert_case's upper-camel conversion returns for these characters.
pub uninterp spec fn upper_camel_of(s: Seq<char>) -> Seq<char>;

/// What convert_case's snake conversion returns for these characters.
pub uninterp spec fn snake_of(s: Seq<char>) -> Seq<char>;

/// Relies on convert_case's `Casing::to_case` with `Case::UpperCamel`: the
/// result depends on the characters of the input alone.
#[verifier::external_body]
fn to_upper_camel(s: &str) -> (r: String)
    ensures
        r@ == upper_camel_of(s@),
{
    s.to_case(Case::UpperCamel)
}

/// Relies on convert_case's `Casing::to_case` with `Case::Snake`: the
/// result depends on the characters of the input alone.
#[verifier::external_body]
fn to_snake(s: &str) -> (r: String)
    ensures
        r@ == snake_of(s@),
{
    s.to_case(Case::Snake)
}

/// The proxy type is named after the state type, with a fixed suffix.
pub open spec fn spec_actor_name(data: Seq<char>) -> Seq<char> {
    data + "Actor"@
}

/// The message tagged-union of a capability is named after the capability
/// leaf, in upper-camel case, with a fixed suffix.
pub open spec fn spec_payload_name(leaf: Seq<char>) -> Seq<char> {
    upper_camel_of(leaf) + "Payload"@
}

/// The performer method of a capability: a fixed prefix and the capability
/// leaf, the whole taken to snake case.
pub open spec fn spec_method_name(leaf: Seq<char>) -> Seq<char> {
    snake_of("perform_"@ + leaf)
}

/// The proxy field of a capability: its leaf in snake case.
pub open spec fn spec_field_name(leaf: Seq<char>) -> Seq<char> {
    snake_of(leaf)
}

/// The message variant of a handler: its name in upper-camel case.
pub open spec fn spec_variant_name(handler: Seq<char>) -> Seq<char> {
    upper_camel_of(handler)
}

/// The send endpoint binding of a proxy field in the construction function.
pub open spec fn spec_input_name(field: Seq<char>) -> Seq<char> {
    field + "_input"@
}

/// The receive endpoint binding of a proxy field in the construction
/// function.
pub open spec fn spec_output_name(field: Seq<char>) -> Seq<char> {
    field + "_output"@
}

/// Derives the proxy type name from the state type name.
pub fn actor_name_for(data: &str) -> (r: String)
    ensures
        r@ == spec_actor_name(data@),
{
    data.to_owned().concat("Actor")
}

/// Derives the message tagged-union name from the capability leaf.
pub fn payload_name_for(leaf: &str) -> (r: String)
    ensures
        r@ == spec_payload_name(leaf@),
{
    to_upper_camel(leaf).concat("Payload")
}

/// Derives the performer method name from the capability leaf.
pub fn method_name_for(leaf: &str) -> (r: String)
    ensures
        r@ == spec_method_name(leaf@),
{
    let prefixed = "perform_".to_owned().concat(leaf);
    to_snake(prefixed.as_str())
}

/// Derives the proxy field name from the capability leaf.
pub fn field_name_for(leaf: &str) -> (r: String)
    ensures
        r@ == spec_field_name(leaf@),
{
    to_snake(leaf)
}

/// Derives the message variant name from the handler name.
pub fn variant_name_for(handler: &str) -> (r: String)
    ensures
        r@ == spec_variant_name(handler@),
{
    to_upper_camel(handler)
}

/// Derives the send endpoint binding from the proxy field name.
pub fn input_name_for(field: &str) -> (r: String)
    ensures
        r@ == spec_input_name(field@),
{
    field.to_owned().concat("_input")
}

/// Derives the receive endpoint binding from the proxy field name.
pub fn output_name_for(field: &str) -> (r: String)
    ensures
        r@ == spec_output_name(field@),
{
    field.to_owned().concat("_output")
}

} // verus!
