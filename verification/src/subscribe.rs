//! Subscription: one consumer per process, whose messages reach q through a pipe.

use vstd::prelude::*;
use crate::connection;
use crate::connection::{ClientStep, ClientStepView};
use crate::console;
use crate::console::{LogLine, LogLineView};
use crate::consumer::{ConsumerPlan, ConsumerPlanView};
use crate::plugin::{Plugin, PluginView};
use crate::policy;
use crate::policy::DeliverPolicy;
use crate::refusal::Refusal;
use crate::value::{QValue, QValueView};

verus! {

/// A subscription whose arguments were accepted.
pub struct Subscription {
    pub stream_name: String,
    pub subject: String,
    pub consumer_name: String,
    pub deliver_policy: DeliverPolicy,
    pub callback: String,
}

/// The mathematical content of a [`Subscription`].
pub struct SubscriptionView {
    pub stream_name: Seq<char>,
    pub subject: Seq<char>,
    pub consumer_name: Seq<char>,
    pub deliver_policy: DeliverPolicy,
    pub callback: Seq<char>,
}

impl View for Subscription {
    type V = SubscriptionView;

    open spec fn view(&self) -> SubscriptionView {
        SubscriptionView {
            stream_name: self.stream_name@,
            subject: self.subject@,
            consumer_name: self.consumer_name@,
            deliver_policy: self.deliver_policy,
            callback: self.callback@,
        }
    }
}

/// The arguments of `nats_subscribe`.
pub struct SubscribeArgs {
    pub stream_name: QValueView,
    pub subject: QValueView,
    pub consumer_name: QValueView,
    pub deliver_policy: QValueView,
    pub callback: QValueView,
}

/// The subscription that the arguments ask for. All of them have to be symbols,
/// the first that is not is reported, and then a symbol that names no policy.
pub open spec fn requested_subscription(args: SubscribeArgs) -> Result<SubscriptionView, Refusal> {
    if args.stream_name.as_symbol() is None {
        Err(Refusal::SubscribeStreamName)
    } else if args.subject.as_symbol() is None {
        Err(Refusal::SubscribeSubject)
    } else if args.consumer_name.as_symbol() is None {
        Err(Refusal::SubscribeConsumerName)
    } else if args.deliver_policy.as_symbol() is None {
        Err(Refusal::SubscribeDeliverPolicy)
    } else if args.callback.as_symbol() is None {
        Err(Refusal::SubscribeCallback)
    } else {
        match policy::named_policy(args.deliver_policy.as_symbol()->0) {
            None => Err(Refusal::SubscribeUnknownPolicy),
            Some(deliver_policy) => Ok(
                SubscriptionView {
                    stream_name: args.stream_name.as_symbol()->0,
                    subject: args.subject.as_symbol()->0,
                    consumer_name: args.consumer_name.as_symbol()->0,
                    deliver_policy,
                    callback: args.callback.as_symbol()->0,
                },
            ),
        }
    }
}

/// Checks the arguments of `nats_subscribe`.
fn check_arguments(
    stream_name: &QValue,
    subject: &QValue,
    consumer_name: &QValue,
    deliver_policy: &QValue,
    callback: &QValue,
) -> (result: Result<Subscription, Refusal>)
    ensures
        match requested_subscription(
            (SubscribeArgs {
                stream_name: stream_name@,
                subject: subject@,
                consumer_name: consumer_name@,
                deliver_policy: deliver_policy@,
                callback: callback@,
            }),
        ) {
            Ok(subscription) => result is Ok && result->Ok_0@ == subscription,
            Err(refusal) => result == Err::<Subscription, Refusal>(refusal),
        },
{
    let stream_name_text = match stream_name.get_symbol() {
        Some(text) => text.clone(),
        None => return Err(Refusal::SubscribeStreamName),
    };
    let subject_text = match subject.get_symbol() {
        Some(text) => text.clone(),
        None => return Err(Refusal::SubscribeSubject),
    };
    let consumer_name_text = match consumer_name.get_symbol() {
        Some(text) => text.clone(),
        None => return Err(Refusal::SubscribeConsumerName),
    };
    let policy_text = match deliver_policy.get_symbol() {
        Some(text) => text,
        None => return Err(Refusal::SubscribeDeliverPolicy),
    };
    let callback_text = match callback.get_symbol() {
        Some(text) => text.clone(),
        None => return Err(Refusal::SubscribeCallback),
    };
    match policy::parse_policy(policy_text) {
        Some(p) => Ok(
            Subscription {
                stream_name: stream_name_text,
                subject: subject_text,
                consumer_name: consumer_name_text,
                deliver_policy: p,
                callback: callback_text,
            },
        ),
        None => Err(Refusal::SubscribeUnknownPolicy),
    }
}

/// What `nats_subscribe` does first.
pub enum SubscribeStep {
    /// Answer with the error.
    Refused(Refusal),
    /// The process has a callback already: abort with `message`, naming the
    /// callback that was `rejected`.
    Abort { message: String, rejected: String },
    /// Open a pipe, and go on with [`Subscription::pipe_opened`].
    OpenPipe(Subscription),
}

/// What a [`SubscribeStep`] asks for.
pub enum SubscribeStepView {
    Refused(Refusal),
    Abort { message: Seq<char>, rejected: Seq<char> },
    OpenPipe(SubscriptionView),
}

impl View for SubscribeStep {
    type V = SubscribeStepView;

    open spec fn view(&self) -> SubscribeStepView {
        match self {
            SubscribeStep::Refused(refusal) => SubscribeStepView::Refused(*refusal),
            SubscribeStep::Abort { message, rejected } => SubscribeStepView::Abort {
                message: message@,
                rejected: rejected@,
            },
            SubscribeStep::OpenPipe(subscription) => SubscribeStepView::OpenPipe(subscription@),
        }
    }
}

/// What `nats_subscribe` does first when it is called in state `s`.
pub open spec fn subscribe_step<A>(s: PluginView<A>, args: SubscribeArgs) -> SubscribeStepView {
    match requested_subscription(args) {
        Err(refusal) => SubscribeStepView::Refused(refusal),
        Ok(subscription) => if s.callback is Some {
            SubscribeStepView::Abort {
                message: "[kdb-plugin] nats_subscribe already called"@,
                rejected: subscription.callback,
            }
        } else {
            SubscribeStepView::OpenPipe(subscription)
        },
    }
}

/// The state once `nats_subscribe` checked its arguments: the first callback stays.
pub open spec fn after_subscribe<A>(s: PluginView<A>, args: SubscribeArgs) -> PluginView<A> {
    match requested_subscription(args) {
        Ok(subscription) if s.callback is None => PluginView {
            callback: Some(subscription.callback),
            ..s
        },
        _ => s,
    }
}

/// Attaches to a stream, with `callback` as the q function that receives its messages.
pub fn nats_subscribe<A>(
    plugin: &mut Plugin<A>,
    stream_name: &QValue,
    subject: &QValue,
    consumer_name: &QValue,
    deliver_policy: &QValue,
    callback: &QValue,
) -> (step: SubscribeStep)
    requires
        requested_subscription(
            (SubscribeArgs {
                stream_name: stream_name@,
                subject: subject@,
                consumer_name: consumer_name@,
                deliver_policy: deliver_policy@,
                callback: callback@,
            }),
        ) is Ok ==> callback@.wf(),
    ensures
        final(plugin)@ == after_subscribe(
            old(plugin)@,
            (SubscribeArgs {
                stream_name: stream_name@,
                subject: subject@,
                consumer_name: consumer_name@,
                deliver_policy: deliver_policy@,
                callback: callback@,
            }),
        ),
        old(plugin)@.wf() ==> final(plugin)@.wf(),
        step@ == subscribe_step(
            old(plugin)@,
            (SubscribeArgs {
                stream_name: stream_name@,
                subject: subject@,
                consumer_name: consumer_name@,
                deliver_policy: deliver_policy@,
                callback: callback@,
            }),
        ),
{
    match check_arguments(stream_name, subject, consumer_name, deliver_policy, callback) {
        Err(refusal) => SubscribeStep::Refused(refusal),
        Ok(subscription) => {
            if plugin.callback().is_some() {
                return SubscribeStep::Abort {
                    message: "[kdb-plugin] nats_subscribe already called".to_string(),
                    rejected: subscription.callback,
                };
            }
            plugin.set_callback(subscription.callback.clone());
            SubscribeStep::OpenPipe(subscription)
        },
    }
}

/// A subscription that has its pipe.
pub struct PipedSubscription {
    pub subscription: Subscription,
    pub read_fd: i32,
    pub write_fd: i32,
}

/// The mathematical content of a [`PipedSubscription`].
pub struct PipedSubscriptionView {
    pub subscription: SubscriptionView,
    pub read_fd: int,
    pub write_fd: int,
}

impl View for PipedSubscription {
    type V = PipedSubscriptionView;

    open spec fn view(&self) -> PipedSubscriptionView {
        PipedSubscriptionView {
            subscription: self.subscription@,
            read_fd: self.read_fd as int,
            write_fd: self.write_fd as int,
        }
    }
}

/// What `nats_subscribe` does once it tried to open the pipe.
pub enum PipeStep {
    /// Answer with the error.
    Refused(Refusal),
    /// Register the reading end with q's event loop, and go on with
    /// [`PipedSubscription::registered`].
    Register(PipedSubscription),
}

/// What a [`PipeStep`] asks for.
pub enum PipeStepView {
    Refused(Refusal),
    Register(PipedSubscriptionView),
}

impl View for PipeStep {
    type V = PipeStepView;

    open spec fn view(&self) -> PipeStepView {
        match self {
            PipeStep::Refused(refusal) => PipeStepView::Refused(*refusal),
            PipeStep::Register(piped) => PipeStepView::Register(piped@),
        }
    }
}

/// What `nats_subscribe` does once `pipe` returned `status` and two descriptors.
pub open spec fn pipe_step(
    subscription: SubscriptionView,
    status: int,
    read_fd: int,
    write_fd: int,
) -> PipeStepView {
    if status != 0 {
        PipeStepView::Refused(Refusal::SubscribePipe)
    } else {
        PipeStepView::Register(PipedSubscriptionView { subscription, read_fd, write_fd })
    }
}

/// The state once `pipe` returned `status` and two descriptors.
pub open spec fn after_pipe<A>(s: PluginView<A>, status: int, write_fd: int) -> PluginView<A> {
    PluginView {
        pipe_write_fd: if status == 0 {
            write_fd
        } else {
            s.pipe_write_fd
        },
        ..s
    }
}

impl Subscription {
    /// `pipe` returned `status` and two descriptors; any status but 0 is a failure.
    pub fn pipe_opened<A>(
        self,
        plugin: &mut Plugin<A>,
        status: i32,
        read_fd: i32,
        write_fd: i32,
    ) -> (step: PipeStep)
        ensures
            final(plugin)@ == after_pipe(old(plugin)@, status as int, write_fd as int),
            old(plugin)@.wf() && old(plugin)@.callback is Some ==> final(plugin)@.wf(),
            step@ == pipe_step(self@, status as int, read_fd as int, write_fd as int),
    {
        if status != 0 {
            return PipeStep::Refused(Refusal::SubscribePipe);
        }
        plugin.set_pipe_write_fd(write_fd);
        PipeStep::Register(PipedSubscription { subscription: self, read_fd, write_fd })
    }
}

/// What `nats_subscribe` does once it tried to register the pipe.
pub enum RegisterStep {
    /// Answer with the error.
    Refused(Refusal),
    /// Come by the client, start the consumer thread, and print `report`.
    Start { client: ClientStep, plan: ConsumerPlan, report: LogLine },
}

/// What a [`RegisterStep`] asks for.
pub enum RegisterStepView {
    Refused(Refusal),
    Start { client: ClientStepView, plan: ConsumerPlanView, report: LogLineView },
}

impl View for RegisterStep {
    type V = RegisterStepView;

    open spec fn view(&self) -> RegisterStepView {
        match self {
            RegisterStep::Refused(refusal) => RegisterStepView::Refused(*refusal),
            RegisterStep::Start { client, plan, report } => RegisterStepView::Start {
                client: client@,
                plan: plan@,
                report: report@,
            },
        }
    }
}

/// The consumer of a subscription. It is durable under its own name.
pub open spec fn consumer_plan(piped: PipedSubscriptionView) -> ConsumerPlanView {
    let sub = piped.subscription;
    ConsumerPlanView {
        stream_name: sub.stream_name,
        consumer_name: sub.consumer_name,
        durable_name: Some(sub.consumer_name),
        filter_subject: sub.subject,
        deliver_policy: sub.deliver_policy,
        write_fd: piped.write_fd,
    }
}

/// What `nats_subscribe` does in state `s` once q's event loop `accepted` the
/// pipe, or did not.
pub open spec fn register_step<A>(
    s: PluginView<A>,
    piped: PipedSubscriptionView,
    accepted: bool,
) -> RegisterStepView {
    if accepted {
        RegisterStepView::Start {
            client: connection::client_step(s),
            plan: consumer_plan(piped),
            report: console::out_line(
                "[kdb-plugin] nats_subscribe | callback=`"@ + piped.subscription.callback,
            ),
        }
    } else {
        RegisterStepView::Refused(Refusal::SubscribeRegister)
    }
}

impl PipedSubscription {
    /// The consumer of this subscription.
    fn into_plan(self) -> (plan: ConsumerPlan)
        ensures
            plan@ == consumer_plan(self@),
    {
        let sub = self.subscription;
        ConsumerPlan {
            stream_name: sub.stream_name,
            durable_name: Some(sub.consumer_name.clone()),
            consumer_name: sub.consumer_name,
            filter_subject: sub.subject,
            deliver_policy: sub.deliver_policy,
            write_fd: self.write_fd,
        }
    }

    /// q's event loop `accepted` the pipe, or did not.
    pub fn registered<A>(self, plugin: &Plugin<A>, accepted: bool) -> (step: RegisterStep)
        ensures
            step@ == register_step(plugin@, self@, accepted),
    {
        if !accepted {
            return RegisterStep::Refused(Refusal::SubscribeRegister);
        }
        let text = "[kdb-plugin] nats_subscribe | callback=`".to_string().concat(
            self.subscription.callback.as_str(),
        );
        RegisterStep::Start {
            client: connection::nats_client(plugin),
            plan: self.into_plan(),
            report: LogLine::to_stdout(text),
        }
    }
}

} // verus!
