//! The names of the games.

use ap_client::game::GameType;

#[test]
fn short_names() {
    assert_eq!(GameType::DarkSoulsIII.short_name(), "DS3");
    assert_eq!(GameType::Sekiro.short_name(), "Sekiro");
}

#[test]
fn static_randomizer_basenames() {
    assert_eq!(GameType::DarkSoulsIII.static_randomizer_basename(), "DS3Randomizer.exe");
    assert_eq!(GameType::Sekiro.static_randomizer_basename(), "SekiroRandomizer.exe");
}

#[test]
fn world_names() {
    assert_eq!(GameType::DarkSoulsIII.world_name(), "Dark Souls III");
    assert_eq!(GameType::Sekiro.world_name(), "Sekiro: Shadows Die Twice");
}
