use sparko_esp_std::commands::{
    CommandPlan, EspCommands, CONFIG_PAGE, FACTORY_RESET_FAILED_PAGE, FACTORY_RESET_PAGE,
    NO_COMMAND_REPLY, RESTART_DELAY_SECS,
};
use sparko_esp_std::form::parse_form;

fn plan(body: &str) -> CommandPlan {
    let form = parse_form(body.as_bytes());
    EspCommands {}.handle_command(&form)
}

#[test]
fn restart_command() {
    assert!(matches!(plan("command=restart"), CommandPlan::Restart));
    assert_eq!(RESTART_DELAY_SECS, 2);
}

#[test]
fn factory_reset_command() {
    assert!(matches!(plan("command=factory_reset"), CommandPlan::FactoryReset));
}

#[test]
fn factory_reset_command_percent_encoded() {
    assert!(matches!(plan("command=factory%5Freset"), CommandPlan::FactoryReset));
}

#[test]
fn unknown_command_is_named_in_reply() {
    match plan("command=reboot+now") {
        CommandPlan::Reply(r) => assert_eq!(r, "Unknown command received: reboot now"),
        other => panic!("unexpected {:?}", other),
    }
}

#[test]
fn command_matching_is_case_sensitive() {
    match plan("command=Restart") {
        CommandPlan::Reply(r) => assert_eq!(r, "Unknown command received: Restart"),
        other => panic!("unexpected {:?}", other),
    }
}

#[test]
fn missing_command() {
    match plan("other=restart") {
        CommandPlan::Reply(r) => assert_eq!(r, NO_COMMAND_REPLY),
        other => panic!("unexpected {:?}", other),
    }
    assert_eq!(NO_COMMAND_REPLY, "No command received in form");
}

#[test]
fn last_command_field_wins() {
    assert!(matches!(plan("command=nothing&command=restart"), CommandPlan::Restart));
}

#[test]
fn factory_reset_outcomes() {
    let c = EspCommands {};
    assert_eq!(c.factory_reset_outcome(true), (FACTORY_RESET_PAGE, true));
    assert_eq!(c.factory_reset_outcome(false), (FACTORY_RESET_FAILED_PAGE, false));
    assert!(FACTORY_RESET_PAGE.contains("Config erased."));
    assert!(FACTORY_RESET_FAILED_PAGE.contains("Failed to erase config."));
}

#[test]
fn config_page_offers_both_commands() {
    let page = EspCommands {}.show_config_page();
    assert_eq!(page, CONFIG_PAGE);
    assert!(page.contains("action=\"/command\""));
    assert!(page.contains("value=\"restart\""));
    assert!(page.contains("value=\"factory_reset\""));
}
