//! The validated download configuration. Argument collection lives outside
//! the library; this module turns the collected plain values into a `Config`
//! or rejects them with `ConfigError`.

use crate::errors::RunError;
use crate::models::cli::Bitrate;
use crate::models::cli::Codec;
use crate::models::cli::parse_bitrate_name;
use crate::models::cli::parse_codec;
use crate::models::cli::spec_parse_bitrate_name;
use crate::models::cli::spec_parse_codec;
use crate::models::spotify::Spotify;
use crate::models::spotify::parse_spotify;
use crate::models::spotify::spec_parse_spotify;
use crate::paths::OutputPath;
use vstd::prelude::*;

verus! {

/// How many chunk tasks run at once when no hint is given.
pub const DEFAULT_PARALLEL_DOWNLOADS: u32 = 10;

/// One run's validated settings: the catalog entity, the output location, the
/// audio format, and the parallelism hint.
#[derive(Debug)]
pub struct Config {
    pub id: String,
    pub spotify_type: Spotify,
    pub file_path: OutputPath,
    pub codec: Codec,
    pub bitrate: Bitrate,
    pub chunk: Option<u32>,
}

impl Clone for Config {
    /// A deep copy; every chunk worker owns one.
    fn clone(&self) -> (res: Self)
        ensures
            res.id == self.id,
            res.spotify_type == self.spotify_type,
            res.file_path@ == self.file_path@,
            res.codec == self.codec,
            res.bitrate == self.bitrate,
            res.chunk == self.chunk,
    {
        Config {
            id: self.id.clone(),
            spotify_type: self.spotify_type,
            file_path: self.file_path.clone(),
            codec: self.codec,
            bitrate: self.bitrate,
            chunk: self.chunk,
        }
    }
}

impl Config {
    /// A configuration is well formed when its parallelism hint, if present,
    /// allows at least one download at a time.
    pub open spec fn wf(self) -> bool {
        match self.chunk {
            Some(c) => c >= 1,
            None => true,
        }
    }

    /// The number of tracks a chunk may hold: the hint, or the default.
    pub open spec fn spec_parallelism(self) -> u32 {
        match self.chunk {
            Some(c) => c,
            None => DEFAULT_PARALLEL_DOWNLOADS,
        }
    }

    /// The number of tracks a chunk may hold: the hint, or the default.
    pub fn parallelism(&self) -> (r: u32)
        ensures
            r == self.spec_parallelism(),
    {
        match self.chunk {
            Some(c) => c,
            None => DEFAULT_PARALLEL_DOWNLOADS,
        }
    }

    /// Build a configuration from collected argument values, rejecting an
    /// unknown entity kind, codec or bitrate name, and a zero parallelism
    /// hint.
    pub fn parse_config(
        id: String,
        spotify_type: &str,
        file_path: OutputPath,
        codec: &str,
        bitrate: &str,
        chunk: Option<u32>,
    ) -> (r: Result<Config, RunError>)
        ensures
            ({
                let accepted = spec_parse_spotify(spotify_type@) is Some && spec_parse_codec(
                    codec@,
                ) is Some && spec_parse_bitrate_name(bitrate@) is Some && chunk != Some(0u32);
                &&& r is Ok <==> accepted
                &&& r is Err ==> r->Err_0 == RunError::ConfigError
                &&& r is Ok ==> {
                    let c = r->Ok_0;
                    &&& c.id == id
                    &&& Some(c.spotify_type) == spec_parse_spotify(spotify_type@)
                    &&& c.file_path@ == file_path@
                    &&& Some(c.codec) == spec_parse_codec(codec@)
                    &&& Some(c.bitrate) == spec_parse_bitrate_name(bitrate@)
                    &&& c.chunk == chunk
                    &&& c.wf()
                }
            }),
    {
        let spotify_type = match parse_spotify(spotify_type) {
            Some(k) => k,
            None => {
                return Err(RunError::ConfigError);
            },
        };
        let codec = match parse_codec(codec) {
            Some(c) => c,
            None => {
                return Err(RunError::ConfigError);
            },
        };
        let bitrate = match parse_bitrate_name(bitrate) {
            Some(b) => b,
            None => {
                return Err(RunError::ConfigError);
            },
        };
        if let Some(c) = chunk {
            if c == 0 {
                return Err(RunError::ConfigError);
            }
        }
        Ok(Config { id, spotify_type, file_path, codec, bitrate, chunk })
    }
}

} // verus!
