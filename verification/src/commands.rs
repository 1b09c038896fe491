//! The device commands offered on the configuration pages: restart and
//! factory reset.
use vstd::prelude::*;
use vstd::string::*;

use indexmap::IndexMap;

use crate::form;
use crate::text;

verus! {

/// The form that offers the commands.
pub const CONFIG_PAGE: &'static str = r#"
                        <form method="POST" action="/command">
                        <label for="command">Command</label>
                            <select name="command" id="command">
                                <option value="restart">Restart</option>
                                <option value="factory_reset">Factory Reset</option>
                            </select>
                            <button type="submit">Execute</button>
                        </form>
                "#;

/// The reply to a restart command.
pub const RESTART_PAGE: &'static str = "<!doctype html><html><head><meta http-equiv=\"refresh\" content=\"5;url=/\" /><title>Restarting</title></head><body><p>Device restarting, redirecting to root in 5 seconds...</p><script>setTimeout(()=>{window.location.href='/';},5000);</script></body></html>";

/// The reply when the configuration could not be erased.
pub const FACTORY_RESET_FAILED_PAGE: &'static str = "<!doctype html><html><head><meta http-equiv=\"refresh\" content=\"5;url=/\" /><title>Factory reset failed</title></head><body><p>Failed to erase config.</p><script>setTimeout(()=>{window.location.href='/';},5000);</script></body></html>";

/// The reply when the configuration was erased.
pub const FACTORY_RESET_PAGE: &'static str = "<!doctype html><html><head><meta http-equiv=\"refresh\" content=\"5;url=/\" /><title>Factory reset</title></head><body><p>Config erased. Device restarting, redirecting to root in 5 seconds...</p><script>setTimeout(()=>{window.location.href='/';},5000);</script></body></html>";

/// The reply to a form without a command.
pub const NO_COMMAND_REPLY: &'static str = "No command received in form";

/// The prefix of the reply to an unknown command.
pub const UNKNOWN_COMMAND_PREFIX: &'static str = "Unknown command received: ";

/// The seconds between the reply and the restart of the device.
pub const RESTART_DELAY_SECS: u64 = 2;

/// What a command asks of the device.
#[derive(Debug)]
pub enum CommandPlan {
    /// Reply with `RESTART_PAGE`, then restart after `RESTART_DELAY_SECS`.
    Restart,
    /// Erase the configuration of the core feature, then act on
    /// `EspCommands::factory_reset_outcome`.
    FactoryReset,
    /// Reply with this text and do nothing else.
    Reply(String),
}

/// What the form asks for: restart, factory reset, an unknown command (named
/// in the reply) or no command at all.
pub open spec fn command_plan_spec(command: Option<Seq<char>>) -> (bool, bool, Seq<char>) {
    match command {
        Some(c) => if c == "restart"@ {
            (true, false, Seq::empty())
        } else if c == "factory_reset"@ {
            (false, true, Seq::empty())
        } else {
            (false, false, UNKNOWN_COMMAND_PREFIX@ + c)
        },
        None => (false, false, NO_COMMAND_REPLY@),
    }
}

/// The commands of the device.
pub struct EspCommands {}

impl EspCommands {
    /// The form that offers the commands.
    pub fn show_config_page(&self) -> (page: &'static str)
        ensures
            page@ == CONFIG_PAGE@,
    {
        CONFIG_PAGE
    }

    /// What a submitted command form asks for, decided on its `command` field.
    pub fn handle_command(&self, form: &IndexMap<String, String>) -> (plan: CommandPlan)
        requires
            form::names_unique(form::form_entries(*form)),
        ensures
            ({
                let (restart, reset, reply) = command_plan_spec(
                    form::value_of(form::form_entries(*form), "command"@),
                );
                &&& restart ==> plan is Restart
                &&& reset ==> plan is FactoryReset
                &&& !restart && !reset ==> (plan matches CommandPlan::Reply(r) && r@ == reply)
            }),
    {
        let command = form::form_get(form, "command");
        match command {
            Some(c) => {
                if text::str_equal(c.as_str(), "restart") {
                    CommandPlan::Restart
                } else if text::str_equal(c.as_str(), "factory_reset") {
                    CommandPlan::FactoryReset
                } else {
                    let mut reply = UNKNOWN_COMMAND_PREFIX.to_owned();
                    reply.append(c.as_str());
                    CommandPlan::Reply(reply)
                }
            },
            None => CommandPlan::Reply(NO_COMMAND_REPLY.to_owned()),
        }
    }

    /// The reply after the erase of a factory reset, and whether the device
    /// then restarts: only a successful erase restarts it.
    pub fn factory_reset_outcome(&self, erased: bool) -> (out: (&'static str, bool))
        ensures
            erased ==> out.0@ == FACTORY_RESET_PAGE@ && out.1,
            !erased ==> out.0@ == FACTORY_RESET_FAILED_PAGE@ && !out.1,
    {
        if erased {
            (FACTORY_RESET_PAGE, true)
        } else {
            (FACTORY_RESET_FAILED_PAGE, false)
        }
    }
}

} // verus!
