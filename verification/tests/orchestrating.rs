use score_relay::config::Config;
use score_relay::models::{DiscordRegisterResponse, RegisterError, User};
use score_relay::orchestrate::{
    dm_content, orchestrator_step, parse_command, unknown_command_reply, BotCommand, OrchAction,
    OrchEvent, OrchState,
};

fn canonical(token: Option<&str>) -> DiscordRegisterResponse {
    DiscordRegisterResponse {
        user: User {
            discord_id: 7,
            username: Some("name".to_string()),
            created_at: Some("now".to_string()),
            roles: Some(vec!["user".to_string()]),
        },
        message: "Client creation token generated".to_string(),
        token: token.map(|t| t.to_string()),
    }
}

#[test]
fn happy_path_reaches_delivered() {
    let (s1, a1) = orchestrator_step(OrchState::Idle, OrchEvent::Invoked);
    assert_eq!(s1, OrchState::Requesting);
    assert!(matches!(a1, OrchAction::CallUpstream));

    let (s2, a2) = orchestrator_step(s1, OrchEvent::RequestSucceeded(canonical(Some("tok"))));
    assert_eq!(s2, OrchState::Delivering);
    match a2 {
        OrchAction::DeliverToken(t) => assert_eq!(t, "tok"),
        other => panic!("expected delivery, got {:?}", other),
    }

    let (s3, a3) = orchestrator_step(s2, OrchEvent::DeliverySucceeded);
    assert_eq!(s3, OrchState::Delivered);
    match a3 {
        OrchAction::Respond(t) => assert_eq!(
            t,
            "\u{2705} Client creation token generated successfully!\n\n\u{1f4ec} A private message has been sent to you with your client creation token."
        ),
        other => panic!("expected response, got {:?}", other),
    }
}

#[test]
fn delivery_failure_still_acknowledges() {
    let (s, a) = orchestrator_step(OrchState::Delivering, OrchEvent::DeliveryFailed);
    assert_eq!(s, OrchState::DeliveryFailed);
    match a {
        OrchAction::Respond(t) => assert_eq!(
            t,
            "\u{2705} Client creation token generated successfully!\n\n\u{274c} Error sending private message. Please check that the bot can send you private messages."
        ),
        other => panic!("expected response, got {:?}", other),
    }
}

#[test]
fn request_failure_carries_error_text() {
    // an upstream 409 surfaces as exactly the mapped text
    let err = RegisterError::UpstreamHttpError("User already exists".to_string());
    let (s, a) = orchestrator_step(OrchState::Requesting, OrchEvent::RequestFailed(err));
    assert_eq!(s, OrchState::RequestFailed);
    match a {
        OrchAction::Respond(t) => assert_eq!(t, "User already exists"),
        other => panic!("expected response, got {:?}", other),
    }

    let parse = RegisterError::ParseError("bad".to_string());
    let (_, a2) = orchestrator_step(OrchState::Requesting, OrchEvent::RequestFailed(parse));
    match a2 {
        OrchAction::Respond(t) => assert_eq!(t, "API response format error: bad"),
        other => panic!("expected response, got {:?}", other),
    }
}

#[test]
fn missing_token_delivers_empty_string() {
    let (_, a) = orchestrator_step(
        OrchState::Requesting,
        OrchEvent::RequestSucceeded(canonical(None)),
    );
    match a {
        OrchAction::DeliverToken(t) => assert_eq!(t, ""),
        other => panic!("expected delivery, got {:?}", other),
    }
}

#[test]
fn dm_masks_the_token() {
    let text = dm_content("secret-token");
    assert!(text.contains("||`secret-token`||"));
    assert!(text.starts_with("\u{1f389} **Client creation token generated!**"));
    assert!(text.contains("**Instructions**"));
}

#[test]
fn command_dispatch() {
    assert_eq!(parse_command("register"), BotCommand::Register);
    assert_eq!(parse_command("Register"), BotCommand::Unknown);
    assert_eq!(parse_command(""), BotCommand::Unknown);
    assert_eq!(parse_command("help"), BotCommand::Unknown);
    assert_eq!(unknown_command_reply(), "\u{274c} Unknown command");
}

#[test]
fn config_defaults_base_url() {
    let c = Config::assemble("d".to_string(), "a".to_string(), None, 1, 2);
    assert_eq!(c.api_base_url, "http://localhost:3001");
    assert_eq!(c.guild_id, 1);
    assert_eq!(c.scores_channel_id, 2);

    let c2 = Config::assemble(
        "d".to_string(),
        "a".to_string(),
        Some("https://api.example".to_string()),
        1,
        2,
    );
    assert_eq!(c2.api_base_url, "https://api.example");
}
