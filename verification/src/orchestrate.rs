//! Registration orchestrator: the per-invocation state machine that
//! calls the upstream token service, delivers the token privately, and
//! chooses the response text the invoker sees — together with the
//! command dispatch of the chat boundary.

use vstd::prelude::*;
use vstd::string::*;
use crate::models::{DiscordRegisterResponse, RegisterError};
use crate::normalize::spec_error_text;

verus! {

/// The states of one registration invocation. `Delivered`,
/// `DeliveryFailed` and `RequestFailed` are terminal.
#[derive(Debug, Clone, Copy, PartialEq, Eq)]
pub enum OrchState {
    Idle,
    Requesting,
    Delivering,
    Delivered,
    DeliveryFailed,
    RequestFailed,
}

/// The events driving one registration invocation.
#[derive(Debug, Clone)]
pub enum OrchEvent {
    Invoked,
    RequestSucceeded(DiscordRegisterResponse),
    RequestFailed(RegisterError),
    DeliverySucceeded,
    DeliveryFailed,
}

/// What the boundary must do after a step.
#[derive(Debug, Clone)]
pub enum OrchAction {
    /// Call the upstream registration endpoint.
    CallUpstream,
    /// Deliver the token privately to the invoking user.
    DeliverToken(String),
    /// Answer the invoker with this text; the invocation is over.
    Respond(String),
}

/// The response text after token issuance and private delivery both
/// succeeded.
pub open spec fn spec_success_reply() -> Seq<char> {
    "\u{2705} Client creation token generated successfully!\n\n\u{1f4ec} A private message has been sent to you with your client creation token."@
}

/// The response text when token issuance succeeded but private
/// delivery failed: still an acknowledgment, annotated with a
/// delivery warning.
pub open spec fn spec_warning_reply() -> Seq<char> {
    "\u{2705} Client creation token generated successfully!\n\n\u{274c} Error sending private message. Please check that the bot can send you private messages."@
}

/// The response text when the upstream call itself failed: exactly
/// the failure's own text (for a mapped upstream status that is the
/// fixed message, such as `User already exists`), and never the token.
pub open spec fn spec_failure_reply(e: RegisterError) -> Seq<char> {
    spec_error_text(e)
}

/// Which events are admissible in which states: the machine
/// `Idle -> Requesting -> {Delivering -> Delivered | DeliveryFailed}
/// | RequestFailed`.
pub open spec fn spec_admissible(s: OrchState, e: OrchEvent) -> bool {
    match (s, e) {
        (OrchState::Idle, OrchEvent::Invoked) => true,
        (OrchState::Requesting, OrchEvent::RequestSucceeded(_)) => true,
        (OrchState::Requesting, OrchEvent::RequestFailed(_)) => true,
        (OrchState::Delivering, OrchEvent::DeliverySucceeded) => true,
        (OrchState::Delivering, OrchEvent::DeliveryFailed) => true,
        _ => false,
    }
}

/// The state after an admissible step.
pub open spec fn spec_next_state(s: OrchState, e: OrchEvent) -> OrchState {
    match (s, e) {
        (OrchState::Idle, OrchEvent::Invoked) => OrchState::Requesting,
        (OrchState::Requesting, OrchEvent::RequestSucceeded(_)) => OrchState::Delivering,
        (OrchState::Requesting, OrchEvent::RequestFailed(_)) => OrchState::RequestFailed,
        (OrchState::Delivering, OrchEvent::DeliverySucceeded) => OrchState::Delivered,
        (OrchState::Delivering, OrchEvent::DeliveryFailed) => OrchState::DeliveryFailed,
        _ => s,
    }
}

/// What the action of an admissible step must be: the upstream call
/// on invocation; private delivery of the issued token (empty when
/// the canonical result carried none) on request success; and the
/// exact response text in each terminal state.
pub open spec fn spec_action_ok(a: OrchAction, s: OrchState, e: OrchEvent) -> bool {
    match (s, e) {
        (OrchState::Idle, OrchEvent::Invoked) => a is CallUpstream,
        (OrchState::Requesting, OrchEvent::RequestSucceeded(res)) => match a {
            OrchAction::DeliverToken(t) => t@ == (match res.token {
                Some(tok) => tok@,
                None => Seq::<char>::empty(),
            }),
            _ => false,
        },
        (OrchState::Requesting, OrchEvent::RequestFailed(err)) => match a {
            OrchAction::Respond(t) => t@ == spec_failure_reply(err),
            _ => false,
        },
        (OrchState::Delivering, OrchEvent::DeliverySucceeded) => match a {
            OrchAction::Respond(t) => t@ == spec_success_reply(),
            _ => false,
        },
        (OrchState::Delivering, OrchEvent::DeliveryFailed) => match a {
            OrchAction::Respond(t) => t@ == spec_warning_reply(),
            _ => false,
        },
        _ => false,
    }
}

/// One step of the orchestrator: from the current state and the event
/// to the next state and the action the boundary must perform.
pub fn orchestrator_step(s: OrchState, e: OrchEvent) -> (r: (OrchState, OrchAction))
    requires
        spec_admissible(s, e),
    ensures
        r.0 == spec_next_state(s, e),
        spec_action_ok(r.1, s, e),
{
    match (s, e) {
        (OrchState::Idle, OrchEvent::Invoked) => (OrchState::Requesting, OrchAction::CallUpstream),
        (OrchState::Requesting, OrchEvent::RequestSucceeded(res)) => {
            let token = match res.token {
                Some(tok) => tok,
                None => String::new(),
            };
            (OrchState::Delivering, OrchAction::DeliverToken(token))
        },
        (OrchState::Requesting, OrchEvent::RequestFailed(err)) => {
            (OrchState::RequestFailed, OrchAction::Respond(err.text()))
        },
        (OrchState::Delivering, OrchEvent::DeliverySucceeded) => (
            OrchState::Delivered,
            OrchAction::Respond(
                "\u{2705} Client creation token generated successfully!\n\n\u{1f4ec} A private message has been sent to you with your client creation token.".to_owned(),
            ),
        ),
        (OrchState::Delivering, OrchEvent::DeliveryFailed) => (
            OrchState::DeliveryFailed,
            OrchAction::Respond(
                "\u{2705} Client creation token generated successfully!\n\n\u{274c} Error sending private message. Please check that the bot can send you private messages.".to_owned(),
            ),
        ),
        _ => {
            proof {
                assert(false);
            }
            (s, OrchAction::CallUpstream)
        },
    }
}

/// The instructions sent privately with the token, which appears once,
/// masked as spoilered code.
pub open spec fn spec_dm_content(token: Seq<char>) -> Seq<char> {
    "\u{1f389} **Client creation token generated!**\n\nYour client creation token: ||`"@ + token
        + "`||\n\n\u{1f4dd} **Instructions** :\n1. Use this token to create your first client\n2. This token is only used for initial client setup\n3. After creating a client, you'll get a proper device token\n4. Keep this token secure\n\n\u{26a0}\u{fe0f} **Important** : Keep this token secret and don't share it with anyone!"@
}

/// Builds the private-message text carrying the token.
pub fn dm_content(token: &str) -> (r: String)
    ensures
        r@ == spec_dm_content(token@),
{
    let mut r =
        "\u{1f389} **Client creation token generated!**\n\nYour client creation token: ||`".to_owned();
    r.append(token);
    r.append(
        "`||\n\n\u{1f4dd} **Instructions** :\n1. Use this token to create your first client\n2. This token is only used for initial client setup\n3. After creating a client, you'll get a proper device token\n4. Keep this token secure\n\n\u{26a0}\u{fe0f} **Important** : Keep this token secret and don't share it with anyone!",
    );
    r
}

/// The commands the chat boundary dispatches on.
#[derive(Debug, Clone, Copy, PartialEq, Eq)]
pub enum BotCommand {
    Register,
    Unknown,
}

/// Dispatches a command by name: exactly `register` is known, any
/// other name falls to the unknown-command branch.
pub fn parse_command(name: &str) -> (c: BotCommand)
    ensures
        c is Register <==> name@ == "register"@,
{
    let n = name.to_owned();
    if n.eq(&"register".to_owned()) {
        BotCommand::Register
    } else {
        BotCommand::Unknown
    }
}

/// The reply to a command the boundary does not know.
pub fn unknown_command_reply() -> (r: String)
    ensures
        r@ == "\u{274c} Unknown command"@,
{
    "\u{274c} Unknown command".to_owned()
}

} // verus!
