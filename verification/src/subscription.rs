//! Whether the user has a subscription.
//!
//! The service answers a request for a subscription token in a way that has to be
//! turned round: it says *active* of a subscription that is cancelled and runs out,
//! *inactive* where there is none, and it refuses the request because of a
//! *conflict* where the subscription is paid and renews itself.

#[allow(unused_imports)]
use crate::terminal::TerminalCommand;
use crate::terminal::{with_spinner, SpinnerPlan};
use crate::text::contains_text;
#[allow(unused_imports)]
use crate::text::{occurs_at, occurs_in};
use vstd::prelude::*;

verus! {

/// The status of a subscription in the words of the service.
#[derive(Debug, Clone, Copy, PartialEq, Eq, Structural)]
pub enum SubscriptionStatus {
    Active,
    Inactive,
    /// A status that is not known here.
    Unknown,
}

/// The status of a subscription as it is.
#[derive(Debug, Clone, Copy, PartialEq, Eq, Structural)]
pub enum ActualSubscriptionStatus {
    /// Paid for this month.
    Active,
    /// Paid for this month, and cancelled.
    Expiring,
    /// Not paid for this month.
    Unsubscribed,
}

/// The answer to a request for a subscription token.
#[derive(Debug)]
pub enum TokenReply<E> {
    /// A token, with the status of the subscription.
    Issued(SubscriptionStatus),
    /// The service refused the request, under an error code where it gave one.
    Rejected { code: Option<String>, error: E },
    /// The request failed in another way.
    Failed(E),
}

/// What has become known in the course of a check.
#[derive(Debug)]
pub enum SubscriptionEvent<E> {
    /// The check begins.
    Begun,
    /// Whether the user signed in through an organisation.
    IdcUser(Result<bool, E>),
    /// The answer to the request for a token.
    Token(TokenReply<E>),
}

/// What a check does next.
#[derive(Debug)]
pub enum SubscriptionStep<E> {
    /// Find out whether the user signed in through an organisation.
    AskIdcUser,
    /// Request a subscription token.
    RequestToken,
    /// The check is done.
    Finished(Result<ActualSubscriptionStatus, E>),
}

/// The error code is that of a conflict.
pub open spec fn is_conflict(code: Option<String>) -> bool {
    code is Some && occurs_in("ConflictException"@, code->0@)
}

/// What an answer says of the subscription.
pub open spec fn status_of_reply<E>(reply: TokenReply<E>) -> Result<ActualSubscriptionStatus, E> {
    match reply {
        TokenReply::Issued(SubscriptionStatus::Active) => Ok(ActualSubscriptionStatus::Expiring),
        TokenReply::Issued(_) => Ok(ActualSubscriptionStatus::Unsubscribed),
        TokenReply::Rejected { code, error } => if is_conflict(code) {
            Ok(ActualSubscriptionStatus::Active)
        } else {
            Err(error)
        },
        TokenReply::Failed(error) => Err(error),
    }
}

/// The step that follows an event.
pub open spec fn subscription_step<E>(event: SubscriptionEvent<E>) -> SubscriptionStep<E> {
    match event {
        SubscriptionEvent::Begun => SubscriptionStep::AskIdcUser,
        SubscriptionEvent::IdcUser(Ok(true)) => SubscriptionStep::Finished(
            Ok(ActualSubscriptionStatus::Active),
        ),
        SubscriptionEvent::IdcUser(Ok(false)) => SubscriptionStep::RequestToken,
        SubscriptionEvent::IdcUser(Err(error)) => SubscriptionStep::Finished(Err(error)),
        SubscriptionEvent::Token(reply) => SubscriptionStep::Finished(status_of_reply(reply)),
    }
}

/// The event is an answer to what the step asks for.
pub open spec fn answers_step<E>(event: SubscriptionEvent<E>, step: SubscriptionStep<E>) -> bool {
    match step {
        SubscriptionStep::AskIdcUser => event is IdcUser,
        SubscriptionStep::RequestToken => event is Token,
        SubscriptionStep::Finished(_) => false,
    }
}

/// One step of a check: what to do now that `event` is known.
pub fn get_subscription_status<E>(event: SubscriptionEvent<E>) -> (step: SubscriptionStep<E>)
    ensures
        step == subscription_step(event),
{
    match event {
        SubscriptionEvent::Begun => SubscriptionStep::AskIdcUser,
        SubscriptionEvent::IdcUser(Ok(is_idc_user)) => if is_idc_user {
            SubscriptionStep::Finished(Ok(ActualSubscriptionStatus::Active))
        } else {
            SubscriptionStep::RequestToken
        },
        SubscriptionEvent::IdcUser(Err(error)) => SubscriptionStep::Finished(Err(error)),
        SubscriptionEvent::Token(reply) => SubscriptionStep::Finished(actual_status(reply)),
    }
}

/// What the answer to a request for a token says of the subscription.
pub fn actual_status<E>(reply: TokenReply<E>) -> (status: Result<ActualSubscriptionStatus, E>)
    ensures
        status == status_of_reply(reply),
{
    match reply {
        TokenReply::Issued(SubscriptionStatus::Active) => Ok(ActualSubscriptionStatus::Expiring),
        TokenReply::Issued(SubscriptionStatus::Inactive) => Ok(ActualSubscriptionStatus::Unsubscribed),
        TokenReply::Issued(SubscriptionStatus::Unknown) => Ok(ActualSubscriptionStatus::Unsubscribed),
        TokenReply::Rejected { code, error } => {
            let conflict: bool = match &code {
                Some(code) => contains_text(code.as_str(), "ConflictException"),
                None => false,
            };
            if conflict {
                Ok(ActualSubscriptionStatus::Active)
            } else {
                Err(error)
            }
        },
        TokenReply::Failed(error) => Err(error),
    }
}

/// The spinner under which the check is made.
pub fn get_subscription_status_with_spinner() -> (plan: SpinnerPlan)
    ensures
        plan.shows("Checking subscription status..."@),
{
    with_spinner("Checking subscription status...")
}

/// The service never says *active* of a subscription that is: a reply means that the
/// subscription is active exactly where it refuses the request for a conflict, and
/// that it runs out exactly where the service calls it active.
pub proof fn law_replies_are_turned_round<E>(reply: TokenReply<E>)
    ensures
        status_of_reply(reply) == Ok::<ActualSubscriptionStatus, E>(
            ActualSubscriptionStatus::Active,
        ) <==> reply is Rejected && is_conflict(reply->code),
        status_of_reply(reply) == Ok::<ActualSubscriptionStatus, E>(
            ActualSubscriptionStatus::Expiring,
        ) <==> reply == TokenReply::<E>::Issued(SubscriptionStatus::Active),
        status_of_reply(reply) is Err <==> reply is Failed || (reply is Rejected && !is_conflict(
            reply->code,
        )),
{
}

/// A check asks at most twice: first who the user is, then, if need be, for a token.
pub proof fn law_check_ends_after_two_answers<E>(
    first: SubscriptionEvent<E>,
    second: SubscriptionEvent<E>,
)
    requires
        answers_step(first, subscription_step(SubscriptionEvent::<E>::Begun)),
        answers_step(second, subscription_step(first)),
    ensures
        subscription_step(second) is Finished,
{
}

/// What a check finds out, reply by reply: it ends at once; the subscription runs out
/// exactly where the service issued a token and said active; there is none exactly where
/// it issued a token and said anything else; it is active exactly where the service refused
/// under a code in which the word for a conflict stands; in all other cases the check fails
/// with the error that came.
pub proof fn law_check_turns_replies_round<E>(reply: TokenReply<E>, step: SubscriptionStep<E>)
    requires
        call_ensures(get_subscription_status::<E>, (SubscriptionEvent::Token(reply),), step),
    ensures
        step is Finished,
        ({
            let result = step->Finished_0;
            let conflict = reply is Rejected && reply->code is Some && exists|i: int|
                0 <= i && i + "ConflictException"@.len() <= reply->code->0@.len()
                    && #[trigger] reply->code->0@.subrange(i, i + "ConflictException"@.len())
                    == "ConflictException"@;
            &&& (result is Ok && result->Ok_0 is Expiring) <==> reply == TokenReply::<E>::Issued(
                SubscriptionStatus::Active,
            )
            &&& (result is Ok && result->Ok_0 is Unsubscribed) <==> (reply == TokenReply::<E>::Issued(
                SubscriptionStatus::Inactive,
            ) || reply == TokenReply::<E>::Issued(SubscriptionStatus::Unknown))
            &&& (result is Ok && result->Ok_0 is Active) <==> conflict
            &&& result is Err <==> reply is Failed || (reply is Rejected && !conflict)
            &&& result is Err && reply is Failed ==> result->Err_0 == reply->Failed_0
            &&& result is Err && reply is Rejected ==> result->Err_0 == reply->error
        }),
{
    if reply is Rejected && reply->code is Some {
        lemma_conflict(reply->code->0@);
    }
}

/// Where the word for a conflict stands in a code.
proof fn lemma_conflict(code: Seq<char>)
    ensures
        occurs_in("ConflictException"@, code) <==> exists|i: int|
            0 <= i && i + "ConflictException"@.len() <= code.len() && #[trigger] code.subrange(
                i,
                i + "ConflictException"@.len(),
            ) == "ConflictException"@,
{
    let word = "ConflictException"@;
    if occurs_in(word, code) {
        let i = choose|i: int| #[trigger] occurs_at(word, code, i);
        assert(code.subrange(i, i + word.len()) == word);
    }
    assert forall|i: int|
        0 <= i && i + word.len() <= code.len() && #[trigger] code.subrange(i, i + word.len())
            == word implies occurs_in(word, code) by {
        assert(occurs_at(word, code, i));
    }
}

/// A reply means the same to a check as it does by itself.
pub proof fn law_check_goes_by_the_reply<E>(
    reply: TokenReply<E>,
    step: SubscriptionStep<E>,
    status: Result<ActualSubscriptionStatus, E>,
)
    requires
        call_ensures(get_subscription_status::<E>, (SubscriptionEvent::Token(reply),), step),
        call_ensures(actual_status::<E>, (reply,), status),
    ensures
        step == SubscriptionStep::Finished(status),
{
}

/// A check begins with who the user is. A user of an organisation has an active
/// subscription without being asked for a token; for anyone else a token is requested; and
/// where it cannot be found out, the check fails with the error that came.
pub proof fn law_users_of_an_organisation_are_not_asked<E>(
    event: SubscriptionEvent<E>,
    step: SubscriptionStep<E>,
)
    requires
        call_ensures(get_subscription_status::<E>, (event,), step),
    ensures
        step is AskIdcUser <==> event is Begun,
        step is RequestToken <==> event == SubscriptionEvent::<E>::IdcUser(Ok(false)),
        event is IdcUser && event->IdcUser_0 is Ok && event->IdcUser_0->Ok_0 ==> step
            == SubscriptionStep::<E>::Finished(Ok(ActualSubscriptionStatus::Active)),
        event is IdcUser && event->IdcUser_0 is Err ==> step == SubscriptionStep::<E>::Finished(
            Err(event->IdcUser_0->Err_0),
        ),
{
}

/// A check is made under a spinner that says so, and that is stopped afterwards.
pub proof fn law_check_is_made_under_a_spinner(plan: SpinnerPlan)
    requires
        call_ensures(get_subscription_status_with_spinner, (), plan),
    ensures
        plan.before@.len() == 2,
        plan.before@[0] is HideCursor,
        plan.before@[1] is StartSpinner,
        plan.before@[1]->StartSpinner_0@ == "Checking subscription status..."@,
        plan.after@ == seq![
            TerminalCommand::StopSpinner,
            TerminalCommand::ClearCurrentLine,
            TerminalCommand::MoveToColumn(0),
        ],
{
}

} // verus!
