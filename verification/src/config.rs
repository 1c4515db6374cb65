//! The settings that the static randomizer leaves for the client.

use vstd::prelude::*;

verus! {

/// The configuration of the current Archipelago connection. Nothing here is
/// known to be complete or accurate until the server has accepted it.
#[derive(Debug)]
pub struct Config {
    url: String,
    slot: String,
    seed: String,
    password: Option<String>,
    client_version: Option<String>,
}

/// The mathematical form of [Config].
pub struct ConfigView {
    /// The address of the Archipelago room.
    pub url: Seq<char>,
    /// The name of the player's slot.
    pub slot: Seq<char>,
    /// The seed that the static randomizer ran with.
    pub seed: Seq<char>,
    /// The room's password, if it has one.
    pub password: Option<Seq<char>>,
    /// The version of the static randomizer that wrote the configuration.
    pub client_version: Option<Seq<char>>,
}

/// An optional text in its mathematical form.
pub open spec fn text_view(text: Option<String>) -> Option<Seq<char>> {
    match text {
        Some(text) => Some(text@),
        None => None,
    }
}

impl View for Config {
    type V = ConfigView;

    closed spec fn view(&self) -> ConfigView {
        ConfigView {
            url: self.url@,
            slot: self.slot@,
            seed: self.seed@,
            password: text_view(self.password),
            client_version: text_view(self.client_version),
        }
    }
}

impl Config {
    /// A configuration with the given settings.
    pub fn new(
        url: String,
        slot: String,
        seed: String,
        password: Option<String>,
        client_version: Option<String>,
    ) -> (config: Config)
        ensures
            config@ == (ConfigView {
                url: url@,
                slot: slot@,
                seed: seed@,
                password: text_view(password),
                client_version: text_view(client_version),
            }),
    {
        Config { url, slot, seed, password, client_version }
    }

    /// The address of the Archipelago room.
    pub fn url(&self) -> (url: &str)
        ensures
            url@ == self@.url,
    {
        self.url.as_str()
    }

    /// Replaces the address of the Archipelago room.
    pub fn set_url(&mut self, url: &str)
        ensures
            final(self)@ == (ConfigView { url: url@, ..old(self)@ }),
    {
        self.url = url.to_owned();
    }

    /// The name of the player's slot.
    pub fn slot(&self) -> (slot: &str)
        ensures
            slot@ == self@.slot,
    {
        self.slot.as_str()
    }

    /// The seed that the static randomizer ran with.
    pub fn seed(&self) -> (seed: &str)
        ensures
            seed@ == self@.seed,
    {
        self.seed.as_str()
    }

    /// The room's password, if it has one.
    pub fn password(&self) -> (password: Option<&str>)
        ensures
            match password {
                Some(password) => self@.password == Some(password@),
                None => self@.password is None,
            },
    {
        match &self.password {
            Some(password) => Some(password.as_str()),
            None => None,
        }
    }

    /// The version of the static randomizer that wrote this configuration.
    pub fn client_version(&self) -> (version: Option<&str>)
        ensures
            match version {
                Some(version) => self@.client_version == Some(version@),
                None => self@.client_version is None,
            },
    {
        match &self.client_version {
            Some(version) => Some(version.as_str()),
            None => None,
        }
    }
}

} // verus!
