use vstd::prelude::*;

verus! {

/// Beatmap service used when none is configured.
pub open spec fn default_luminode_url() -> Seq<char> {
    "https://luminode.bzhou.ca"@
}

/// Token file used when none is configured.
pub open spec fn default_token_file() -> Seq<char> {
    "/home/pi/.local/share/luminode-sync/spotify_token.json"@
}

/// Runtime settings.
pub struct Config {
    pub luminode_url: String,
    pub spotify_token_file: String,
    /// Empty when not configured.
    pub spotify_client_id: String,
}

impl Config {
    /// Builds the settings from the configured values, each `None` when not
    /// set, filling in the defaults.
    pub fn from_settings(
        luminode_url: Option<String>,
        spotify_token_file: Option<String>,
        spotify_client_id: Option<String>,
    ) -> (c: Config)
        ensures
            c.luminode_url@ == (match luminode_url {
                Some(u) => u@,
                None => default_luminode_url(),
            }),
            c.spotify_token_file@ == (match spotify_token_file {
                Some(p) => p@,
                None => default_token_file(),
            }),
            c.spotify_client_id@ == (match spotify_client_id {
                Some(id) => id@,
                None => Seq::<char>::empty(),
            }),
    {
        let url = match luminode_url {
            Some(u) => u,
            None => "https://luminode.bzhou.ca".to_owned(),
        };
        let token_file = match spotify_token_file {
            Some(p) => p,
            None => "/home/pi/.local/share/luminode-sync/spotify_token.json".to_owned(),
        };
        let client_id = match spotify_client_id {
            Some(id) => id,
            None => String::new(),
        };
        Config { luminode_url: url, spotify_token_file: token_file, spotify_client_id: client_id }
    }
}

} // verus!
