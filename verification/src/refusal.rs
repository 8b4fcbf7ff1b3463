//! The errors that the plugin answers a q caller with.

use vstd::prelude::*;

verus! {

/// Why a call was refused.
#[derive(Clone, Copy, Debug, PartialEq, Eq, Structural)]
pub enum Refusal {
    InitStreamName,
    InitSubject,
    PublishSubject,
    PublishCoreSubject,
    PublishNoackSubject,
    PublishAsyncSubject,
    SubscribeStreamName,
    SubscribeSubject,
    SubscribeConsumerName,
    SubscribeDeliverPolicy,
    SubscribeCallback,
    SubscribeUnknownPolicy,
    SubscribePipe,
    SubscribeRegister,
}

/// The text of the q error, with the NUL that ends it.
pub open spec fn refusal_text(refusal: Refusal) -> Seq<char> {
    match refusal {
        Refusal::InitStreamName => "jetstream_init: stream_name is required\0"@,
        Refusal::InitSubject => "jetstream_init: subject is required\0"@,
        Refusal::PublishSubject => "nats_publish: subject is required\0"@,
        Refusal::PublishCoreSubject => "nats_publish_core: subject is required\0"@,
        Refusal::PublishNoackSubject => "nats_publish_noack: subject is required\0"@,
        Refusal::PublishAsyncSubject => "nats_publish_async: subject is required\0"@,
        Refusal::SubscribeStreamName => "nats_subscribe: stream_name is required\0"@,
        Refusal::SubscribeSubject => "nats_subscribe: subject is required\0"@,
        Refusal::SubscribeConsumerName => "nats_subscribe: consumer_name is required\0"@,
        Refusal::SubscribeDeliverPolicy =>
            "nats_subscribe: deliver_policy is required (`all `last `new `last_per_subject)\0"@,
        Refusal::SubscribeCallback => "nats_subscribe: callback is required\0"@,
        Refusal::SubscribeUnknownPolicy =>
            "nats_subscribe: unknown deliver_policy — use `all `last `new `last_per_subject\0"@,
        Refusal::SubscribePipe => "nats_subscribe: pipe() failed\0"@,
        Refusal::SubscribeRegister => "nats_subscribe: register_callback (sd1) failed\0"@,
    }
}

impl Refusal {
    /// The text of the q error, with the NUL that ends it.
    pub fn message(&self) -> (text: &'static str)
        ensures
            text@ == refusal_text(*self),
    {
        match self {
            Refusal::InitStreamName => "jetstream_init: stream_name is required\0",
            Refusal::InitSubject => "jetstream_init: subject is required\0",
            Refusal::PublishSubject => "nats_publish: subject is required\0",
            Refusal::PublishCoreSubject => "nats_publish_core: subject is required\0",
            Refusal::PublishNoackSubject => "nats_publish_noack: subject is required\0",
            Refusal::PublishAsyncSubject => "nats_publish_async: subject is required\0",
            Refusal::SubscribeStreamName => "nats_subscribe: stream_name is required\0",
            Refusal::SubscribeSubject => "nats_subscribe: subject is required\0",
            Refusal::SubscribeConsumerName => "nats_subscribe: consumer_name is required\0",
            Refusal::SubscribeDeliverPolicy =>
                "nats_subscribe: deliver_policy is required (`all `last `new `last_per_subject)\0",
            Refusal::SubscribeCallback => "nats_subscribe: callback is required\0",
            Refusal::SubscribeUnknownPolicy =>
                "nats_subscribe: unknown deliver_policy — use `all `last `new `last_per_subject\0",
            Refusal::SubscribePipe => "nats_subscribe: pipe() failed\0",
            Refusal::SubscribeRegister => "nats_subscribe: register_callback (sd1) failed\0",
        }
    }
}

/// The text of every error ends in a NUL and holds no other, so that q reads
/// all of it.
pub proof fn law_refusal_texts_end_in_nul(refusal: Refusal)
    ensures
        refusal_text(refusal).len() > 0,
        forall|i: int|
            0 <= i < refusal_text(refusal).len() ==> (#[trigger] refusal_text(refusal)[i] == '\0'
                <==> i == refusal_text(refusal).len() - 1),
{
    reveal_strlit("jetstream_init: stream_name is required\0");
    reveal_strlit("jetstream_init: subject is required\0");
    reveal_strlit("nats_publish: subject is required\0");
    reveal_strlit("nats_publish_core: subject is required\0");
    reveal_strlit("nats_publish_noack: subject is required\0");
    reveal_strlit("nats_publish_async: subject is required\0");
    reveal_strlit("nats_subscribe: stream_name is required\0");
    reveal_strlit("nats_subscribe: subject is required\0");
    reveal_strlit("nats_subscribe: consumer_name is required\0");
    reveal_strlit("nats_subscribe: deliver_policy is required (`all `last `new `last_per_subject)\0");
    reveal_strlit("nats_subscribe: callback is required\0");
    reveal_strlit("nats_subscribe: unknown deliver_policy — use `all `last `new `last_per_subject\0");
    reveal_strlit("nats_subscribe: pipe() failed\0");
    reveal_strlit("nats_subscribe: register_callback (sd1) failed\0");
}

/// The text of an error tells it from every other.
pub proof fn law_refusals_told_apart(a: Refusal, b: Refusal)
    ensures
        refusal_text(a) == refusal_text(b) <==> a == b,
{
    reveal_strlit("jetstream_init: stream_name is required\0");
    reveal_strlit("jetstream_init: subject is required\0");
    reveal_strlit("nats_publish: subject is required\0");
    reveal_strlit("nats_publish_core: subject is required\0");
    reveal_strlit("nats_publish_noack: subject is required\0");
    reveal_strlit("nats_publish_async: subject is required\0");
    reveal_strlit("nats_subscribe: stream_name is required\0");
    reveal_strlit("nats_subscribe: subject is required\0");
    reveal_strlit("nats_subscribe: consumer_name is required\0");
    reveal_strlit("nats_subscribe: deliver_policy is required (`all `last `new `last_per_subject)\0");
    reveal_strlit("nats_subscribe: callback is required\0");
    reveal_strlit("nats_subscribe: unknown deliver_policy — use `all `last `new `last_per_subject\0");
    reveal_strlit("nats_subscribe: pipe() failed\0");
    reveal_strlit("nats_subscribe: register_callback (sd1) failed\0");
    let x = refusal_text(a);
    let y = refusal_text(b);
    if a != b {
        assert(x.len() != y.len() || x[0] != y[0] || x[5] != y[5] || x[13] != y[13]
            || x[16] != y[16]);
    }
}

} // verus!
