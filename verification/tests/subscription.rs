use chat_launch::subscription::{
    actual_status, get_subscription_status, get_subscription_status_with_spinner,
    ActualSubscriptionStatus, SubscriptionEvent, SubscriptionStatus, SubscriptionStep, TokenReply,
};
use chat_launch::terminal::{session_teardown, with_spinner, SpinnerPlan, TerminalCommand};

fn rejected(code: Option<&str>) -> TokenReply<&'static str> {
    TokenReply::Rejected { code: code.map(|c| c.to_string()), error: "rejected" }
}

#[test]
fn replies_are_turned_round() {
    let issued = |status| actual_status(TokenReply::<&str>::Issued(status));
    assert_eq!(issued(SubscriptionStatus::Active), Ok(ActualSubscriptionStatus::Expiring));
    assert_eq!(issued(SubscriptionStatus::Inactive), Ok(ActualSubscriptionStatus::Unsubscribed));
    assert_eq!(issued(SubscriptionStatus::Unknown), Ok(ActualSubscriptionStatus::Unsubscribed));
}

#[test]
fn a_conflict_means_active() {
    assert_eq!(
        actual_status(rejected(Some("ConflictException"))),
        Ok(ActualSubscriptionStatus::Active)
    );
    assert_eq!(
        actual_status(rejected(Some("com.amazon#ConflictException"))),
        Ok(ActualSubscriptionStatus::Active)
    );
    assert_eq!(actual_status(rejected(Some("ThrottlingException"))), Err("rejected"));
    assert_eq!(actual_status(rejected(None)), Err("rejected"));
    assert_eq!(actual_status(TokenReply::Failed("offline")), Err("offline"));
}

#[test]
fn a_check_asks_who_the_user_is_and_then_for_a_token() {
    assert!(matches!(
        get_subscription_status::<&str>(SubscriptionEvent::Begun),
        SubscriptionStep::AskIdcUser
    ));
    assert!(matches!(
        get_subscription_status::<&str>(SubscriptionEvent::IdcUser(Ok(true))),
        SubscriptionStep::Finished(Ok(ActualSubscriptionStatus::Active))
    ));
    assert!(matches!(
        get_subscription_status::<&str>(SubscriptionEvent::IdcUser(Ok(false))),
        SubscriptionStep::RequestToken
    ));
    assert!(matches!(
        get_subscription_status(SubscriptionEvent::IdcUser(Err("no database"))),
        SubscriptionStep::Finished(Err("no database"))
    ));
    assert!(matches!(
        get_subscription_status(SubscriptionEvent::Token(rejected(None))),
        SubscriptionStep::Finished(Err("rejected"))
    ));
}

fn assert_shows(plan: SpinnerPlan, text: &str) {
    assert_eq!(plan.before.len(), 2);
    assert!(matches!(plan.before[0], TerminalCommand::HideCursor));
    match &plan.before[1] {
        TerminalCommand::StartSpinner(shown) => assert_eq!(shown, text),
        other => panic!("{:?}", other),
    }
    assert_eq!(plan.after.len(), 3);
    assert!(matches!(plan.after[0], TerminalCommand::StopSpinner));
    assert!(matches!(plan.after[1], TerminalCommand::ClearCurrentLine));
    assert!(matches!(plan.after[2], TerminalCommand::MoveToColumn(0)));
}

#[test]
fn spinners_are_started_and_stopped() {
    assert_shows(with_spinner("Working..."), "Working...");
    assert_shows(get_subscription_status_with_spinner(), "Checking subscription status...");
}

#[test]
fn teardown_restores_the_terminal() {
    let quiet = session_teardown(false);
    assert_eq!(quiet.len(), 4);
    assert!(matches!(quiet[0], TerminalCommand::MoveToColumn(0)));
    assert!(matches!(quiet[1], TerminalCommand::ResetAttributes));
    assert!(matches!(quiet[2], TerminalCommand::ResetColor));
    assert!(matches!(quiet[3], TerminalCommand::ShowCursor));
    let spinning = session_teardown(true);
    assert_eq!(spinning.len(), 5);
    assert!(matches!(spinning[0], TerminalCommand::StopSpinner));
    assert!(matches!(spinning[4], TerminalCommand::ShowCursor));
}
