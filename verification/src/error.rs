//! The fatal errors that stop the client from touching the game.

use vstd::prelude::*;
use vstd::string::*;

use crate::game::GameType;

verus! {

/// The downloadable content that a game lacks.
#[derive(Clone, Copy, Debug, PartialEq, Eq, Structural)]
pub enum MissingDlc {
    AshesOfAriandel,
    RingedCity,
    Both,
}

impl MissingDlc {
    /// What the missing content is called.
    pub open spec fn spec_name(self) -> Seq<char> {
        match self {
            MissingDlc::AshesOfAriandel => "the Ashes of Ariandel DLC"@,
            MissingDlc::RingedCity => "the Ringed City DLC"@,
            MissingDlc::Both => "both DLCs"@,
        }
    }

    /// What the missing content is called.
    pub fn name(&self) -> (name: &'static str)
        ensures
            name@ == self.spec_name(),
    {
        match self {
            MissingDlc::AshesOfAriandel => "the Ashes of Ariandel DLC",
            MissingDlc::RingedCity => "the Ringed City DLC",
            MissingDlc::Both => "both DLCs",
        }
    }
}

/// A fatal error. Once the client has met one, it stops acting on the game.
#[derive(Debug)]
pub enum CoreError {
    /// The configuration was written by another version of the randomizer.
    VersionConflict { generated: String, client: String },
    /// The server's seed is not the one that the randomizer used.
    RoomSeedConflict { game: GameType, room: String, config: String },
    /// The server's seed is not the one that the save was played with.
    SaveSeedConflict { room: String, save: String },
    /// The randomizer's seed is not the one that the save was played with.
    RandomizerSeedConflict { game: GameType, config: String, save: String },
    /// The seed needs content that is not installed.
    MissingDlc(MissingDlc),
    /// The server connection or the game refused a request, for this reason.
    Failed(String),
    /// The error itself has been handed out already.
    Elsewhere,
}

/// The mathematical form of [CoreError].
pub enum CoreErrorView {
    VersionConflict { generated: Seq<char>, client: Seq<char> },
    RoomSeedConflict { game: GameType, room: Seq<char>, config: Seq<char> },
    SaveSeedConflict { room: Seq<char>, save: Seq<char> },
    RandomizerSeedConflict { game: GameType, config: Seq<char>, save: Seq<char> },
    MissingDlc(MissingDlc),
    Failed(Seq<char>),
    Elsewhere,
}

impl View for CoreError {
    type V = CoreErrorView;

    open spec fn view(&self) -> CoreErrorView {
        match self {
            CoreError::VersionConflict { generated, client } => CoreErrorView::VersionConflict {
                generated: generated@,
                client: client@,
            },
            CoreError::RoomSeedConflict { game, room, config } => CoreErrorView::RoomSeedConflict {
                game: *game,
                room: room@,
                config: config@,
            },
            CoreError::SaveSeedConflict { room, save } => CoreErrorView::SaveSeedConflict {
                room: room@,
                save: save@,
            },
            CoreError::RandomizerSeedConflict { game, config, save } => {
                CoreErrorView::RandomizerSeedConflict { game: *game, config: config@, save: save@ }
            },
            CoreError::MissingDlc(missing) => CoreErrorView::MissingDlc(*missing),
            CoreError::Failed(reason) => CoreErrorView::Failed(reason@),
            CoreError::Elsewhere => CoreErrorView::Elsewhere,
        }
    }
}

/// An optional error in its mathematical form.
pub open spec fn error_view(error: Option<CoreError>) -> Option<CoreErrorView> {
    match error {
        Some(error) => Some(error@),
        None => None,
    }
}

impl CoreErrorView {
    /// The message that tells the player about this error.
    pub open spec fn text(self) -> Seq<char> {
        match self {
            CoreErrorView::VersionConflict { generated, client } => {
                "Your apconfig.json was generated using static randomizer v"@ + generated
                    + ", but this client is v"@ + client
                    + ". Re-run the static randomizer with the current version."@
            },
            CoreErrorView::RoomSeedConflict { game, room, config } => {
                "You've connected to a different Archipelago multiworld than the one that "@
                    + game.spec_static_randomizer_basename() + " used!\n\nConnected room seed: "@
                    + room + "\n"@ + game.spec_static_randomizer_basename() + " seed: "@ + config
            },
            CoreErrorView::SaveSeedConflict { room, save } => {
                "You've connected to a different Archipelago multiworld than the one that you used before with this save!\n\nConnected room seed: "@
                    + room + "\nSave file seed: "@ + save
            },
            CoreErrorView::RandomizerSeedConflict { game, config, save } => {
                "Your most recent "@ + game.spec_static_randomizer_basename()
                    + " invocation connected to a different Archipealgo multiworld than the one that you used before with this save!\n\n"@
                    + game.spec_static_randomizer_basename() + " seed: "@ + config
                    + "\nSave file seed: "@ + save
            },
            CoreErrorView::MissingDlc(missing) => {
                "DLC is enabled for this seed but your game is missing "@ + missing.spec_name()
                    + "."@
            },
            CoreErrorView::Failed(reason) => reason,
            CoreErrorView::Elsewhere => "a full error is available elsewhere"@,
        }
    }
}

impl CoreError {
    /// The message that tells the player about this error.
    pub fn message(&self) -> (text: String)
        ensures
            text@ == self@.text(),
    {
        match self {
            CoreError::VersionConflict { generated, client } => {
                "Your apconfig.json was generated using static randomizer v".to_owned()
                    .concat(generated.as_str())
                    .concat(", but this client is v")
                    .concat(client.as_str())
                    .concat(". Re-run the static randomizer with the current version.")
            },
            CoreError::RoomSeedConflict { game, room, config } => {
                "You've connected to a different Archipelago multiworld than the one that ".to_owned()
                    .concat(game.static_randomizer_basename())
                    .concat(" used!\n\nConnected room seed: ")
                    .concat(room.as_str())
                    .concat("\n")
                    .concat(game.static_randomizer_basename())
                    .concat(" seed: ")
                    .concat(config.as_str())
            },
            CoreError::SaveSeedConflict { room, save } => {
                "You've connected to a different Archipelago multiworld than the one that you used before with this save!\n\nConnected room seed: ".to_owned()
                    .concat(room.as_str())
                    .concat("\nSave file seed: ")
                    .concat(save.as_str())
            },
            CoreError::RandomizerSeedConflict { game, config, save } => {
                "Your most recent ".to_owned()
                    .concat(game.static_randomizer_basename())
                    .concat(" invocation connected to a different Archipealgo multiworld than the one that you used before with this save!\n\n")
                    .concat(game.static_randomizer_basename())
                    .concat(" seed: ")
                    .concat(config.as_str())
                    .concat("\nSave file seed: ")
                    .concat(save.as_str())
            },
            CoreError::MissingDlc(missing) => {
                "DLC is enabled for this seed but your game is missing ".to_owned()
                    .concat(missing.name())
                    .concat(".")
            },
            CoreError::Failed(reason) => reason.clone(),
            CoreError::Elsewhere => "a full error is available elsewhere".to_owned(),
        }
    }
}

/// The message about a version conflict has both versions in a fixed setting,
/// whatever they are: first the one that wrote the configuration.
pub proof fn law_version_conflict_names_both() -> (setting: (
    Seq<char>,
    Seq<char>,
    Seq<char>,
))
    ensures
        forall|a: Seq<char>, b: Seq<char>| #[trigger]
            (CoreErrorView::VersionConflict { generated: a, client: b }).text() == (
            setting.0 + a + setting.1 + b + setting.2),
{
    let before = "Your apconfig.json was generated using static randomizer v"@;
    let between = ", but this client is v"@;
    let after = ". Re-run the static randomizer with the current version."@;
    assert forall|a: Seq<char>, b: Seq<char>| #[trigger]
        (CoreErrorView::VersionConflict { generated: a, client: b }).text() == (
    before + a + between + b + after) by {
        assert((CoreErrorView::VersionConflict { generated: a, client: b }).text() =~= before + a
            + between + b + after);
    }
    (before, between, after)
}

/// The message about a conflict with the room has both seeds in a fixed setting,
/// whatever they are: first the one of the room.
pub proof fn law_room_conflict_names_both(game: GameType) -> (setting: (
    Seq<char>,
    Seq<char>,
    Seq<char>,
))
    ensures
        forall|a: Seq<char>, b: Seq<char>| #[trigger]
            (CoreErrorView::RoomSeedConflict { game, room: a, config: b }).text() == (
            setting.0 + a + setting.1 + b + setting.2),
{
    let name = game.spec_static_randomizer_basename();
    let before = "You've connected to a different Archipelago multiworld than the one that "@ + name
        + " used!\n\nConnected room seed: "@;
    let between = "\n"@ + name + " seed: "@;
    let after = Seq::<char>::empty();
    assert forall|a: Seq<char>, b: Seq<char>| #[trigger]
        (CoreErrorView::RoomSeedConflict { game, room: a, config: b }).text() == (
    before + a + between + b + after) by {
        assert((CoreErrorView::RoomSeedConflict { game, room: a, config: b }).text() =~= before + a
            + between + b + after);
    }
    (before, between, after)
}

/// The message about a conflict of the room with the save has both seeds in a
/// fixed setting, whatever they are: first the one of the room.
pub proof fn law_save_conflict_names_both() -> (setting: (
    Seq<char>,
    Seq<char>,
    Seq<char>,
))
    ensures
        forall|a: Seq<char>, b: Seq<char>| #[trigger]
            (CoreErrorView::SaveSeedConflict { room: a, save: b }).text() == (
            setting.0 + a + setting.1 + b + setting.2),
{
    let before = "You've connected to a different Archipelago multiworld than the one that you used before with this save!\n\nConnected room seed: "@;
    let between = "\nSave file seed: "@;
    let after = Seq::<char>::empty();
    assert forall|a: Seq<char>, b: Seq<char>| #[trigger]
        (CoreErrorView::SaveSeedConflict { room: a, save: b }).text() == (
    before + a + between + b + after) by {
        assert((CoreErrorView::SaveSeedConflict { room: a, save: b }).text() =~= before + a
            + between + b + after);
    }
    (before, between, after)
}

/// The message about a conflict of the randomizer with the save has both seeds in
/// a fixed setting, whatever they are: first the one of the randomizer.
pub proof fn law_randomizer_conflict_names_both(game: GameType) -> (setting: (
    Seq<char>,
    Seq<char>,
    Seq<char>,
))
    ensures
        forall|a: Seq<char>, b: Seq<char>| #[trigger]
            (CoreErrorView::RandomizerSeedConflict { game, config: a, save: b }).text() == (
            setting.0 + a + setting.1 + b + setting.2),
{
    let name = game.spec_static_randomizer_basename();
    let before = "Your most recent "@ + name
        + " invocation connected to a different Archipealgo multiworld than the one that you used before with this save!\n\n"@
        + name + " seed: "@;
    let between = "\nSave file seed: "@;
    let after = Seq::<char>::empty();
    assert forall|a: Seq<char>, b: Seq<char>| #[trigger]
        (CoreErrorView::RandomizerSeedConflict { game, config: a, save: b }).text() == (
    before + a + between + b + after) by {
        assert((CoreErrorView::RandomizerSeedConflict { game, config: a, save: b }).text() =~= before + a
            + between + b + after);
    }
    (before, between, after)
}

/// A failure is told in the words that came with it.
pub proof fn law_failures_are_told_as_they_are(reason: Seq<char>)
    ensures
        CoreErrorView::Failed(reason).text() == reason,
{
}

} // verus!
