//! What a recognizer is built from.

use vstd::prelude::*;

verus! {

/// The caller's choices for a recognizer. The paths are handed to the engine
/// as they are; nothing here looks at the files.
#[derive(Debug)]
pub struct ZipFormerOnlineConfig {
    pub decoder: String,
    pub encoder: String,
    pub joiner: String,
    pub tokens: String,
    /// The size of the engine's thread pool; one thread where none is named.
    pub num_threads: Option<i32>,
    /// The compute provider; the process-wide default where none is named.
    pub provider: Option<String>,
    pub debug: bool,
    /// Keep one stream open over all decodes, so that each decode goes on
    /// where the last one stopped.
    pub long_decode: bool,
}

/// The settings that the engine is given, every default filled in.
#[derive(Debug)]
pub struct Settings {
    pub decoder: String,
    pub encoder: String,
    pub joiner: String,
    pub tokens: String,
    pub num_threads: i32,
    pub provider: String,
    pub debug: i32,
    pub decoding_method: String,
}

impl Default for ZipFormerOnlineConfig {
    fn default() -> (config: ZipFormerOnlineConfig)
        ensures
            config.decoder@ == Seq::<char>::empty(),
            config.encoder@ == Seq::<char>::empty(),
            config.joiner@ == Seq::<char>::empty(),
            config.tokens@ == Seq::<char>::empty(),
            config.num_threads is None,
            config.provider is None,
            !config.debug,
            !config.long_decode,
    {
        ZipFormerOnlineConfig {
            decoder: String::new(),
            encoder: String::new(),
            joiner: String::new(),
            tokens: String::new(),
            num_threads: None,
            provider: None,
            debug: false,
            long_decode: false,
        }
    }
}

impl ZipFormerOnlineConfig {
    /// Whether `settings` are these choices with the defaults filled in: one
    /// thread, the provider `default_provider`, and greedy search as the
    /// decoding method.
    pub open spec fn resolves_to(self, default_provider: String, settings: Settings) -> bool {
        &&& settings.decoder == self.decoder
        &&& settings.encoder == self.encoder
        &&& settings.joiner == self.joiner
        &&& settings.tokens == self.tokens
        &&& settings.num_threads == match self.num_threads {
            Some(threads) => threads,
            None => 1,
        }
        &&& settings.provider == match self.provider {
            Some(provider) => provider,
            None => default_provider,
        }
        &&& settings.debug == if self.debug {
            1i32
        } else {
            0i32
        }
        &&& settings.decoding_method@ == "greedy_search"@
    }

    /// Fills in the defaults.
    pub fn settings(self, default_provider: String) -> (settings: Settings)
        ensures
            self.resolves_to(default_provider, settings),
    {
        Settings {
            decoder: self.decoder,
            encoder: self.encoder,
            joiner: self.joiner,
            tokens: self.tokens,
            num_threads: match self.num_threads {
                Some(threads) => threads,
                None => 1,
            },
            provider: match self.provider {
                Some(provider) => provider,
                None => default_provider,
            },
            debug: if self.debug {
                1
            } else {
                0
            },
            decoding_method: String::from_str("greedy_search"),
        }
    }
}

} // verus!
