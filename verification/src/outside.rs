//! The values that the plugin takes from other crates as they define them.

use vstd::prelude::*;
use crate::policy;
use crate::policy::DeliverPolicy;

verus! {

/// `kxkdb::qtype::ERROR`, the type of the object that stands for a q error.
///
/// Trusted: kxkdb defines the constant as -128.
#[verifier::external_body]
pub(crate) fn error_qtype() -> (qtype: i8)
    ensures
        qtype == -128,
{
    kxkdb::qtype::ERROR
}

/// The debug text of async-nats' `DeliverPolicy`.
///
/// Trusted: the enum derives `Debug`, which writes the name of a variant
/// without fields as it stands in the source.
#[verifier::external_body]
pub(crate) fn policy_debug(policy: DeliverPolicy) -> (text: String)
    ensures
        text@ == policy::policy_name(policy),
{
    let outside = match policy {
        DeliverPolicy::All => async_nats::jetstream::consumer::DeliverPolicy::All,
        DeliverPolicy::Last => async_nats::jetstream::consumer::DeliverPolicy::Last,
        DeliverPolicy::New => async_nats::jetstream::consumer::DeliverPolicy::New,
        DeliverPolicy::LastPerSubject =>
            async_nats::jetstream::consumer::DeliverPolicy::LastPerSubject,
    };
    format!("{:?}", outside)
}

} // verus!
