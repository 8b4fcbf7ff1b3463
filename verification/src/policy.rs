//! Where in the stream a new consumer starts.

use vstd::prelude::*;

verus! {

/// Which messages a new consumer is delivered first.
#[derive(Clone, Copy, Debug, PartialEq, Eq, Structural)]
pub enum DeliverPolicy {
    /// The whole stream, from the beginning.
    All,
    /// The last message and what follows it.
    Last,
    /// Only what is published from now on.
    New,
    /// The last message of each subject.
    LastPerSubject,
}

/// The q symbol of a policy.
pub open spec fn policy_symbol(policy: DeliverPolicy) -> Seq<char> {
    match policy {
        DeliverPolicy::All => "all"@,
        DeliverPolicy::Last => "last"@,
        DeliverPolicy::New => "new"@,
        DeliverPolicy::LastPerSubject => "last_per_subject"@,
    }
}

/// The name of a policy in reports.
pub open spec fn policy_name(policy: DeliverPolicy) -> Seq<char> {
    match policy {
        DeliverPolicy::All => "All"@,
        DeliverPolicy::Last => "Last"@,
        DeliverPolicy::New => "New"@,
        DeliverPolicy::LastPerSubject => "LastPerSubject"@,
    }
}

/// The policy that a symbol names, if it names one.
pub open spec fn named_policy(symbol: Seq<char>) -> Option<DeliverPolicy> {
    if symbol == "all"@ {
        Some(DeliverPolicy::All)
    } else if symbol == "last"@ {
        Some(DeliverPolicy::Last)
    } else if symbol == "new"@ {
        Some(DeliverPolicy::New)
    } else if symbol == "last_per_subject"@ {
        Some(DeliverPolicy::LastPerSubject)
    } else {
        None
    }
}

/// Reads the policy that a symbol names.
pub fn parse_policy(symbol: &String) -> (policy: Option<DeliverPolicy>)
    ensures
        policy == named_policy(symbol@),
{
    if *symbol == "all".to_string() {
        Some(DeliverPolicy::All)
    } else if *symbol == "last".to_string() {
        Some(DeliverPolicy::Last)
    } else if *symbol == "new".to_string() {
        Some(DeliverPolicy::New)
    } else if *symbol == "last_per_subject".to_string() {
        Some(DeliverPolicy::LastPerSubject)
    } else {
        None
    }
}

/// Every policy is named by its symbol and by no other.
pub proof fn law_policy_symbols(symbol: Seq<char>, policy: DeliverPolicy)
    ensures
        named_policy(symbol) == Some(policy) <==> symbol == policy_symbol(policy),
{
    reveal_strlit("all");
    reveal_strlit("last");
    reveal_strlit("new");
    reveal_strlit("last_per_subject");
    assert("all"@[0] != "new"@[0]);
    assert("all"@.len() != "last"@.len());
    assert("new"@.len() != "last"@.len());
    assert("last_per_subject"@.len() == 16);
}

} // verus!
