//! Seeds, the DLC, commands and texts.

use vstd::prelude::*;

use crate::client::Client;
use crate::client_core::Core;
use crate::command::{
    get_event_reply, handle_command, law_flag_and_value_read_back, parse_words, set_event_reply,
    spaces, texts_view, CommandRequest, RichText, TextColor,
};
use crate::save_data::SaveData;
use crate::seed::{DlcError, SeedConflict, UpdateError};
use crate::slot_data::{EventFlagId, I64Key};
use crate::text::{
    format_bool, i64_value, integer_text, law_i64_reads_back, law_u32_reads_back, parse_bool,
    u32_value,
};

verus! {

/// Seeds are in conflict where the room's or the save's is known and is not the configured
/// one. What is told is the room's and the configured one where those differ, otherwise
/// the save's and that of the room, or the configured one without a connection.
pub proof fn law_seeds_are_compared(
    client: Option<&Client>,
    seed: &str,
    save_data: &mut Option<SaveData>,
    result: Result<(), SeedConflict>,
)
    requires
        call_ensures(Core::check_seed_conflict, (client, seed, save_data), result),
    ensures
        ({
            let room = client is Some && client->0.seed_name@ != seed@;
            let saved = (*old(save_data)) is Some && (*old(save_data))->0.seed is Some;
            let save = saved && (*old(save_data))->0.seed->0@ != seed@;
            &&& result is Ok <==> !room && !save
            &&& result is Err && room ==> (result->Err_0 matches SeedConflict::ClientAndConfig {
                client_seed,
                seed: config,
            } && client_seed@ == client->0.seed_name@ && config@ == seed@)
            &&& result is Err && !room && client is Some ==> (
            result->Err_0 matches SeedConflict::ClientAndSave { client_seed, save_seed }
                && client_seed@ == client->0.seed_name@ && save_seed@ == (
            *old(save_data))->0.seed->0@)
            &&& result is Err && client is None ==> (
            result->Err_0 matches SeedConflict::ConfigAndSave { seed: config, save_seed }
                && config@ == seed@ && save_seed@ == (*old(save_data))->0.seed->0@)
        }),
{
}

/// A seed check that finds nothing wrong leaves a save with the configured seed, and with
/// everything else as it was. One that does finds the save as it left it.
pub proof fn law_seed_checks_bind_saves(
    client: Option<&Client>,
    seed: &str,
    save_data: &mut Option<SaveData>,
    result: Result<(), SeedConflict>,
)
    requires
        call_ensures(Core::check_seed_conflict, (client, seed, save_data), result),
    ensures
        (*final(save_data)) is Some == (*old(save_data)) is Some,
        result is Err ==> *final(save_data) == *old(save_data),
        result is Ok && (*old(save_data)) is Some ==> {
            let before = (*old(save_data))->0;
            let after = (*final(save_data))->0;
            &&& after.seed is Some
            &&& after.seed->0@ == seed@
            &&& after.items_granted == before.items_granted
            &&& after.locations == before.locations
            &&& after.local_virtual_items_granted == before.local_virtual_items_granted
            &&& after.foreign_virtual_items_notified == before.foreign_virtual_items_notified
        },
{
}

/// The DLC is an error exactly where a connected room has it enabled.
pub proof fn law_dlc_is_refused(client: Option<&Client>, result: Result<(), DlcError>)
    requires
        call_ensures(Core::check_dlc_error, (client,), result),
    ensures
        result is Err <==> client is Some && client->0.slot_data.options.enable_dlc,
{
}

/// An update with a connection fails as the seed check does, and after that as the DLC
/// check does. One without does nothing.
pub proof fn law_updates_start_with_checks(
    client: Option<&Client>,
    seed: &str,
    save_data: &mut Option<SaveData>,
    result: Result<(), UpdateError>,
    checked_data: &mut Option<SaveData>,
    checked: Result<(), SeedConflict>,
    dlc: Result<(), DlcError>,
)
    requires
        call_ensures(Core::start_update, (client, seed, save_data), result),
        call_ensures(Core::check_seed_conflict, (client, seed, checked_data), checked),
        call_ensures(Core::check_dlc_error, (client,), dlc),
        *old(checked_data) == *old(save_data),
    ensures
        client is None ==> result is Ok && *final(save_data) == *old(save_data),
        client is Some ==> {
            &&& result is Ok <==> checked is Ok && dlc is Ok
            &&& checked is Err ==> (result matches Err(UpdateError::Seed(conflict))
                && conflict.text() == checked->Err_0.text()) && *final(save_data) == *old(save_data)
            &&& checked is Ok && dlc is Err ==> result is Err && result->Err_0 is Dlc
            &&& checked is Ok && (*old(save_data)) is Some ==> (*final(save_data)) is Some && (
            *final(save_data))->0.seed is Some && (*final(save_data))->0.seed->0@ == seed@ && (
            *final(save_data))->0.items_granted == (*old(save_data))->0.items_granted && (
            *final(save_data))->0.locations == (*old(save_data))->0.locations && (
            *final(save_data))->0.local_virtual_items_granted == (
            *old(save_data))->0.local_virtual_items_granted && (
            *final(save_data))->0.foreign_virtual_items_notified == (
            *old(save_data))->0.foreign_virtual_items_notified
            &&& (*old(save_data)) is None ==> (*final(save_data)) is None
        },
{
}

/// An update has something to do exactly while there is a connection and no fatal error.
pub proof fn law_updates_need_a_connection(client: Option<&Client>, fatal: bool, live: bool)
    requires
        call_ensures(Core::is_live, (client, fatal), live),
    ensures
        live <==> client is Some && !fatal,
{
}

/// The two seeds that are in conflict.
pub open spec fn seeds_of(conflict: SeedConflict) -> (Seq<char>, Seq<char>) {
    match conflict {
        SeedConflict::ClientAndConfig { client_seed, seed } => (client_seed@, seed@),
        SeedConflict::ClientAndSave { client_seed, save_seed } => (client_seed@, save_seed@),
        SeedConflict::ConfigAndSave { seed, save_seed } => (seed@, save_seed@),
    }
}

/// What is said of a conflict ends in the second seed, and holds the first one before it.
pub proof fn law_conflicts_tell_both_seeds(conflict: SeedConflict, message: String)
    requires
        call_ensures(SeedConflict::message, (&conflict,), message),
    ensures
        exists|before: Seq<char>, between: Seq<char>|
            message@ == #[trigger] (before + seeds_of(conflict).0 + between) + seeds_of(
                conflict,
            ).1,
{
    let (before, between) = match conflict {
        SeedConflict::ClientAndConfig { client_seed, seed } => (
            "You've connected to a different Archipelago multiworld than the one that EldenRingArchipelagoRandomizer.exe used!\n\nConnected room seed: "@,
            "\nEldenRingArchipelagoRandomizer.exe seed: "@,
        ),
        SeedConflict::ClientAndSave { client_seed, save_seed } => (
            "You've connected to a different Archipelago multiworld than the one that you used before with this save!\n\nConnected room seed: "@,
            "\nSave file seed: "@,
        ),
        SeedConflict::ConfigAndSave { seed, save_seed } => (
            "Your most recent EldenRingArchipelagoRandomizer.exe invocation connected to a different Archipealgo multiworld than the one that you used before with this save!\n\nEldenRingArchipelagoRandomizer.exe seed: "@,
            "\nSave file seed: "@,
        ),
    };
    assert(message@ == (before + seeds_of(conflict).0 + between) + seeds_of(conflict).1);
}

/// `!getevent` with the digits of a flag asks for that flag, in every build.
pub proof fn law_get_event_asks_for_its_flag(
    command: &str,
    arg: &str,
    debug: bool,
    request: CommandRequest,
    flag: u32,
)
    requires
        call_ensures(handle_command, (command, Some(arg), debug), request),
        command@ == "!getevent"@,
    ensures
        arg@ == integer_text(flag as int) ==> request == CommandRequest::GetEvent(
            EventFlagId(flag),
        ),
        request matches CommandRequest::GetEvent(asked) ==> u32_value(arg@) == Some(asked.0),
        request is GetEvent || (request is Invalid && u32_value(arg@) is None),
{
    law_u32_reads_back(flag);
    reveal_strlit("!getevent");
    reveal_strlit("!setevent");
    assert("!getevent"@[1] != "!setevent"@[1]);
}

/// `!setevent` with the digits of a flag, any number of spaces and a truth value asks to
/// set that flag to that value, in debug builds only.
pub proof fn law_set_event_asks_for_its_flag(
    command: &str,
    arg: &str,
    debug: bool,
    request: CommandRequest,
    flag: u32,
    count: nat,
    value: bool,
)
    requires
        call_ensures(handle_command, (command, Some(arg), debug), request),
        command@ == "!setevent"@,
        count > 0,
        arg@ == integer_text(flag as int) + spaces(count) + (if value {
            "true"@
        } else {
            "false"@
        }),
    ensures
        debug ==> request == CommandRequest::SetEvent(EventFlagId(flag), value),
        !debug ==> request is Unknown,
{
    law_flag_and_value_read_back(flag, count, value);
    reveal_strlit("!getevent");
    reveal_strlit("!setevent");
    assert("!getevent"@[1] != "!setevent"@[1]);
}

/// A command without an argument is refused where it is one of this client's, and every
/// other command is unknown.
pub proof fn law_other_commands_are_unknown(
    command: &str,
    arg: Option<&str>,
    debug: bool,
    request: CommandRequest,
)
    requires
        call_ensures(handle_command, (command, arg, debug), request),
    ensures
        request is Unknown <==> command@ != "!getevent"@ && (!debug || command@ != "!setevent"@),
        request is GetEvent ==> command@ == "!getevent"@,
        request is SetEvent ==> command@ == "!setevent"@ && debug,
        arg is None && !(request is Unknown) ==> request is Invalid,
        request matches CommandRequest::Invalid(message) ==> message@.len() == 3
            && message@[0]@.color == Some(TextColor::Red) && message@[0]@.text == "Invalid "@
            + command@ + "."@ && message@[1]@.color is None && message@[1]@.text == " Usage:\n"@
            && message@[2]@.color is None && message@[2]@.text == (if command@ == "!getevent"@ {
            "!getevent EVENT_FLAG"@
        } else {
            "!setevent EVENT_FLAG BOOL"@
        }),
{
    reveal_strlit("!getevent");
    reveal_strlit("!setevent");
    assert("!getevent"@[1] != "!setevent"@[1]);
    if let CommandRequest::Invalid(message) = request {
        let view = crate::command::message_view(message@);
        assert(view.len() == 3);
        assert(view[0] == message@[0]@ && view[1] == message@[1]@ && view[2] == message@[2]@);
    }
}

/// Words name a flag and a value exactly if there are two of them, the first is a number
/// in range and the second is `true` or `false`.
pub proof fn law_two_words_name_a_flag_and_a_value(
    words: &Vec<String>,
    request: Option<(u32, bool)>,
)
    requires
        call_ensures(parse_words, (words,), request),
    ensures
        request is Some <==> words@.len() == 2 && u32_value(words@[0]@) is Some && (words@[1]@
            == "true"@ || words@[1]@ == "false"@),
        request matches Some((flag, value)) ==> u32_value(words@[0]@) == Some(flag) && value == (
        words@[1]@ == "true"@),
{
    reveal_strlit("true");
    reveal_strlit("false");
    assert("true"@.len() != "false"@.len());
    if words@.len() == 2 {
        assert(texts_view(words@)[0] == words@[0]@ && texts_view(words@)[1] == words@[1]@);
    }
}

/// The answer to `!getevent` tells the flag in blue and its value in green or red, or that
/// flags cannot be read.
pub proof fn law_get_event_is_answered(
    flag: EventFlagId,
    value: Option<bool>,
    message: Vec<RichText>,
)
    requires
        call_ensures(get_event_reply, (flag, value), message),
    ensures
        value is None ==> message@.len() == 1 && message@[0]@.color == Some(TextColor::Red)
            && message@[0]@.text == "CSEventFlagMan not loaded"@,
        value is Some ==> {
            &&& message@.len() == 4
            &&& message@[0]@.text == "Event "@ && message@[0]@.color is None
            &&& u32_value(message@[1]@.text) == Some(flag.0) && message@[1]@.color == Some(
                TextColor::Blue,
            )
            &&& message@[2]@.text == ": "@ && message@[2]@.color is None
            &&& value->0 ==> message@[3]@.text == "true"@ && message@[3]@.color == Some(
                TextColor::Green,
            )
            &&& !value->0 ==> message@[3]@.text == "false"@ && message@[3]@.color == Some(
                TextColor::Red,
            )
        },
{
    law_u32_reads_back(flag.0);
    let view = crate::command::message_view(message@);
    assert(view.len() == message@.len());
    assert(message@.len() == 1 ==> view[0] == message@[0]@);
    assert(message@.len() == 4 ==> view[0] == message@[0]@ && view[1] == message@[1]@ && view[2]
        == message@[2]@ && view[3] == message@[3]@);
}

/// The answer to `!setevent` tells the flag in blue and what it was set to in green or red,
/// or that flags cannot be written.
pub proof fn law_set_event_is_answered(
    flag: EventFlagId,
    value: bool,
    done: bool,
    message: Vec<RichText>,
)
    requires
        call_ensures(set_event_reply, (flag, value, done), message),
    ensures
        !done ==> message@.len() == 1 && message@[0]@.color == Some(TextColor::Red)
            && message@[0]@.text == "CSEventFlagMan not loaded"@,
        done ==> {
            &&& message@.len() == 4
            &&& message@[0]@.text == "Set event "@ && message@[0]@.color is None
            &&& u32_value(message@[1]@.text) == Some(flag.0) && message@[1]@.color == Some(
                TextColor::Blue,
            )
            &&& message@[2]@.text == " to "@ && message@[2]@.color is None
            &&& value ==> message@[3]@.text == "true"@ && message@[3]@.color == Some(
                TextColor::Green,
            )
            &&& !value ==> message@[3]@.text == "false"@ && message@[3]@.color == Some(
                TextColor::Red,
            )
        },
{
    law_u32_reads_back(flag.0);
    let view = crate::command::message_view(message@);
    assert(view.len() == message@.len());
    assert(message@.len() == 1 ==> view[0] == message@[0]@);
    assert(message@.len() == 4 ==> view[0] == message@[0]@ && view[1] == message@[1]@ && view[2]
        == message@[2]@ && view[3] == message@[3]@);
}

/// Truth values are written and read as the words `true` and `false`, and no other word is
/// read as one.
pub proof fn law_truth_values_are_words(
    value: bool,
    written: String,
    text: &str,
    read: Option<bool>,
)
    requires
        call_ensures(format_bool, (value,), written),
        call_ensures(parse_bool, (text,), read),
    ensures
        written@ == (if value {
            "true"@
        } else {
            "false"@
        }),
        read == Some(true) <==> text@ == "true"@,
        read == Some(false) <==> text@ == "false"@,
{
    reveal_strlit("true");
    reveal_strlit("false");
    assert("true"@.len() != "false"@.len());
}

/// The decimal text of a key is read as that key.
pub proof fn law_keys_read_back(
    text: &str,
    key: Result<I64Key, std::num::ParseIntError>,
    value: i64,
)
    requires
        call_ensures(<I64Key as TryFrom<&str>>::try_from, (text,), key),
    ensures
        text@ == integer_text(value as int) ==> key is Ok && key->Ok_0.0 == value,
        key is Ok ==> i64_value(text@) == Some(key->Ok_0.0),
{
    law_i64_reads_back(value);
}

} // verus!
