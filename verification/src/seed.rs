//! Whether the server, the save and the configuration belong together.

use vstd::prelude::*;
use vstd::string::StringExecFns;

use crate::client::Client;
use crate::client_core::Core;
use crate::save_data::SaveData;
use crate::text::same_text;

verus! {

/// Two seeds that differ where they have to be the same.
pub enum SeedConflict {
    /// The connected room and the configuration.
    ClientAndConfig { client_seed: String, seed: String },
    /// The connected room and the save.
    ClientAndSave { client_seed: String, save_seed: String },
    /// The configuration and the save.
    ConfigAndSave { seed: String, save_seed: String },
}

impl SeedConflict {
    /// What is said to the player.
    pub open spec fn text(self) -> Seq<char> {
        match self {
            SeedConflict::ClientAndConfig { client_seed, seed } => {
                "You've connected to a different Archipelago multiworld than the one that EldenRingArchipelagoRandomizer.exe used!\n\nConnected room seed: "@
                    + client_seed@ + "\nEldenRingArchipelagoRandomizer.exe seed: "@ + seed@
            },
            SeedConflict::ClientAndSave { client_seed, save_seed } => {
                "You've connected to a different Archipelago multiworld than the one that you used before with this save!\n\nConnected room seed: "@
                    + client_seed@ + "\nSave file seed: "@ + save_seed@
            },
            SeedConflict::ConfigAndSave { seed, save_seed } => {
                "Your most recent EldenRingArchipelagoRandomizer.exe invocation connected to a different Archipealgo multiworld than the one that you used before with this save!\n\nEldenRingArchipelagoRandomizer.exe seed: "@
                    + seed@ + "\nSave file seed: "@ + save_seed@
            },
        }
    }

    /// Returns what to say to the player.
    pub fn message(&self) -> (message: String)
        ensures
            message@ == self.text(),
    {
        match self {
            SeedConflict::ClientAndConfig { client_seed, seed } => two_seeds(
                "You've connected to a different Archipelago multiworld than the one that EldenRingArchipelagoRandomizer.exe used!\n\nConnected room seed: ",
                client_seed,
                "\nEldenRingArchipelagoRandomizer.exe seed: ",
                seed,
            ),
            SeedConflict::ClientAndSave { client_seed, save_seed } => two_seeds(
                "You've connected to a different Archipelago multiworld than the one that you used before with this save!\n\nConnected room seed: ",
                client_seed,
                "\nSave file seed: ",
                save_seed,
            ),
            SeedConflict::ConfigAndSave { seed, save_seed } => two_seeds(
                "Your most recent EldenRingArchipelagoRandomizer.exe invocation connected to a different Archipealgo multiworld than the one that you used before with this save!\n\nEldenRingArchipelagoRandomizer.exe seed: ",
                seed,
                "\nSave file seed: ",
                save_seed,
            ),
        }
    }
}

/// Returns two seeds with what is said of each before it.
fn two_seeds(before: &str, first: &String, between: &str, second: &String) -> (text: String)
    ensures
        text@ == before@ + first@ + between@ + second@,
{
    let mut text = before.to_owned();
    text.append(first.as_str());
    text.append(between);
    text.append(second.as_str());
    text
}

/// The seed of the connected room, if there is a connection.
pub open spec fn client_seed(client: Option<&Client>) -> Option<Seq<char>> {
    match client {
        Some(c) => Some(c.seed_name@),
        None => None,
    }
}

/// The seed of the save, if it is known.
pub open spec fn save_seed(save_data: Option<SaveData>) -> Option<Seq<char>> {
    match save_data {
        Some(data) => match data.seed {
            Some(seed) => Some(seed@),
            None => None,
        },
        None => None,
    }
}

/// Whether `conflict` is what is wrong with the seeds, each of which is known or not.
/// A room that is not the configured one is the first thing to be wrong.
pub open spec fn is_conflict(
    conflict: SeedConflict,
    room: Option<Seq<char>>,
    config: Seq<char>,
    save: Option<Seq<char>>,
) -> bool {
    match conflict {
        SeedConflict::ClientAndConfig { client_seed, seed } => {
            &&& room == Some(client_seed@)
            &&& config == seed@
            &&& client_seed@ != seed@
        },
        SeedConflict::ClientAndSave { client_seed, save_seed } => {
            &&& room == Some(client_seed@)
            &&& room == Some(config)
            &&& save == Some(save_seed@)
            &&& client_seed@ != save_seed@
        },
        SeedConflict::ConfigAndSave { seed, save_seed } => {
            &&& room is None
            &&& config == seed@
            &&& save == Some(save_seed@)
            &&& seed@ != save_seed@
        },
    }
}

/// Whether the seeds that are known are all the configured one.
pub open spec fn seeds_agree(
    room: Option<Seq<char>>,
    config: Seq<char>,
    save: Option<Seq<char>>,
) -> bool {
    (room matches Some(seed) ==> seed == config) && (save matches Some(seed) ==> seed == config)
}

/// The DLC is enabled for a seed, which this client does not support.
#[derive(Clone, Copy, Debug, PartialEq, Eq, Structural)]
pub struct DlcError;

impl DlcError {
    /// Returns what to say to the player.
    pub fn message(&self) -> (message: String)
        ensures
            message@
                == "DLC is enabled for this seed, but this Elden Ring Archipelago client milestone only supports base-game seeds."@,
    {
        "DLC is enabled for this seed, but this Elden Ring Archipelago client milestone only supports base-game seeds.".to_owned()
    }
}

/// Why an update cannot go on.
pub enum UpdateError {
    Seed(SeedConflict),
    Dlc(DlcError),
}

/// Whether a connected room has the DLC enabled.
pub open spec fn dlc_enabled(client: Option<&Client>) -> bool {
    client matches Some(c) && c.slot_data.options.enable_dlc
}

/// The save data once the configured seed is noted in it, where none was.
pub open spec fn seed_noted(
    before: Option<SaveData>,
    seed: Seq<char>,
    after: Option<SaveData>,
) -> bool {
    match before {
        Some(b) => match b.seed {
            Some(_) => after == before,
            None => after matches Some(a) && a.seed matches Some(s) && s@ == seed && a == (
            SaveData { seed: a.seed, ..b }),
        },
        None => after is None,
    }
}

impl Core {
    /// Returns an error if there's a conflict between the notion of the current
    /// seed in the server, the save, and/or the config. Also updates the save
    /// data's notion if it doesn't exist yet.
    pub fn check_seed_conflict(
        client: Option<&Client>,
        seed: &str,
        save_data: &mut Option<SaveData>,
    ) -> (result: Result<(), SeedConflict>)
        ensures
            result is Ok <==> seeds_agree(client_seed(client), seed@, save_seed(*old(save_data))),
            result matches Err(conflict) ==> is_conflict(
                conflict,
                client_seed(client),
                seed@,
                save_seed(*old(save_data)),
            ),
            result is Ok ==> seed_noted(*old(save_data), seed@, *final(save_data)),
            result is Err ==> *final(save_data) == *old(save_data),
    {
        match Self::find_seed_conflict(client, seed, save_data) {
            Some(conflict) => Err(conflict),
            None => {
                if let Some(data) = save_data {
                    if data.seed.is_none() {
                        data.seed = Some(seed.to_owned());
                    }
                }
                Ok(())
            },
        }
    }

    /// Returns what is wrong with the seeds, if anything is.
    fn find_seed_conflict(
        client: Option<&Client>,
        seed: &str,
        save_data: &Option<SaveData>,
    ) -> (conflict: Option<SeedConflict>)
        ensures
            conflict is None <==> seeds_agree(client_seed(client), seed@, save_seed(*save_data)),
            conflict matches Some(c) ==> is_conflict(
                c,
                client_seed(client),
                seed@,
                save_seed(*save_data),
            ),
    {
        let known_save: Option<&String> = match save_data {
            Some(data) => data.seed.as_ref(),
            None => None,
        };
        if let Some(client) = client {
            if !same_text(client.seed_name.as_str(), seed) {
                return Some(
                    SeedConflict::ClientAndConfig {
                        client_seed: client.seed_name.clone(),
                        seed: seed.to_owned(),
                    },
                );
            }
            if let Some(save_seed) = known_save {
                if client.seed_name != *save_seed {
                    return Some(
                        SeedConflict::ClientAndSave {
                            client_seed: client.seed_name.clone(),
                            save_seed: save_seed.clone(),
                        },
                    );
                }
            }
        }
        if let Some(save_seed) = known_save {
            if !same_text(seed, save_seed.as_str()) {
                return Some(
                    SeedConflict::ConfigAndSave {
                        seed: seed.to_owned(),
                        save_seed: save_seed.clone(),
                    },
                );
            }
        }
        None
    }

    /// Returns an error if the connected room expects the DLC to be installed.
    pub fn check_dlc_error(client: Option<&Client>) -> (result: Result<(), DlcError>)
        ensures
            result == (if dlc_enabled(client) {
                Err(DlcError)
            } else {
                Ok(())
            }),
    {
        match client {
            Some(client) => if client.slot_data.options.enable_dlc {
                Err(DlcError)
            } else {
                Ok(())
            },
            None => Ok(()),
        }
    }

    /// Returns whether an update has anything to do: there is a connection, and no fatal
    /// error was encountered.
    pub fn is_live(client: Option<&Client>, fatal_error: bool) -> (live: bool)
        ensures
            live == (client is Some && !fatal_error),
    {
        client.is_some() && !fatal_error
    }

    /// Starts an update: checks that the seeds agree, notes the seed in a save that has
    /// none yet, and checks that the DLC is not expected. This does nothing if we're not
    /// currently connected to the Archipelago server.
    pub fn start_update(
        client: Option<&Client>,
        seed: &str,
        save_data: &mut Option<SaveData>,
    ) -> (result: Result<(), UpdateError>)
        ensures
            client is None ==> result is Ok && *final(save_data) == *old(save_data),
            client is Some ==> (result is Ok <==> seeds_agree(
                client_seed(client),
                seed@,
                save_seed(*old(save_data)),
            ) && !dlc_enabled(client)),
            result matches Err(UpdateError::Seed(conflict)) ==> is_conflict(
                conflict,
                client_seed(client),
                seed@,
                save_seed(*old(save_data)),
            ) && *final(save_data) == *old(save_data),
            result matches Err(UpdateError::Dlc(_)) ==> seeds_agree(
                client_seed(client),
                seed@,
                save_seed(*old(save_data)),
            ),
            client is Some && seeds_agree(client_seed(client), seed@, save_seed(*old(save_data)))
                ==> seed_noted(*old(save_data), seed@, *final(save_data)),
    {
        if client.is_none() {
            return Ok(());
        }
        match Self::check_seed_conflict(client, seed, save_data) {
            Ok(()) => {},
            Err(conflict) => {
                return Err(UpdateError::Seed(conflict));
            },
        }
        match Self::check_dlc_error(client) {
            Ok(()) => Ok(()),
            Err(error) => Err(UpdateError::Dlc(error)),
        }
    }
}

/// A save that an update was started with stays playable with the same seed and with
/// no other.
pub proof fn law_save_is_bound_to_its_seed(
    room: Option<Seq<char>>,
    seed: Seq<char>,
    other: Seq<char>,
    before: Option<SaveData>,
    after: Option<SaveData>,
)
    requires
        before is Some,
        seeds_agree(room, seed, save_seed(before)),
        seed_noted(before, seed, after),
    ensures
        save_seed(after) == Some(seed),
        seeds_agree(None, other, save_seed(after)) <==> other == seed,
{
}

/// Seeds that do not agree are in conflict in one way only.
pub proof fn law_conflict_is_determined(
    left: SeedConflict,
    right: SeedConflict,
    room: Option<Seq<char>>,
    config: Seq<char>,
    save: Option<Seq<char>>,
)
    requires
        is_conflict(left, room, config, save),
        is_conflict(right, room, config, save),
    ensures
        left.text() == right.text(),
        !seeds_agree(room, config, save),
{
}

} // verus!
