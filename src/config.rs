use vstd::prelude::*;

verus! {

/// Settings of the chat front-end: its bot token and the detector's address.
#[derive(Clone, Debug)]
pub struct Config {
    pub telegram_bot_token: String,
    pub detector_address: String,
}

impl Default for Config {
    fn default() -> (r: Config)
        ensures
            r.telegram_bot_token@.len() == 0,
            r.detector_address@.len() == 0,
    {
        Config { telegram_bot_token: String::new(), detector_address: String::new() }
    }
}

} // verus!
