//! Static configuration and the checks made on it at startup.

use vstd::prelude::*;
use crate::path::str_eq;

verus! {

/// One configured media file.
#[derive(Clone, Debug, PartialEq, Eq)]
pub struct PlaybackFile {
    pub uri: String,
    pub looping: bool,
}

/// What the decoder reports of a media file it could open.
#[derive(Clone, Copy, Debug, PartialEq, Eq)]
pub struct MediaInfo {
    pub sample_rate: u64,
    pub channels: usize,
}

/// Why a configuration cannot be used.
#[derive(Clone, Copy, Debug, PartialEq, Eq, Structural)]
pub enum ConfigInvalid {
    /// No output channel is configured.
    NoChannels,
    /// The audio backend runs at another sample rate than the configured one.
    SampleRateMismatch,
    /// A configured file could not be opened.
    UnusableFile,
    /// A configured file has another sample rate than the configured one.
    FileRateMismatch,
    /// A configured file holds no channel.
    FileWithoutChannels,
}

/// The configuration, immutable once loaded. The position of a name in
/// `channels` is the channel index that every session uses for it.
#[derive(Clone, Debug, PartialEq, Eq)]
pub struct Config {
    pub files: Vec<(String, PlaybackFile)>,
    pub listen: String,
    pub channels: Vec<String>,
    pub shutdown_secs: u64,
    pub sample_rate: u64,
}

/// Position of the first entry named `name`, or `files.len()` if there is none.
pub open spec fn first_named(files: Seq<(String, PlaybackFile)>, name: Seq<char>) -> int
    decreases files.len(),
{
    if files.len() == 0 {
        0
    } else if files[0].0@ == name {
        0
    } else {
        1 + first_named(files.drop_first(), name)
    }
}

pub proof fn lemma_first_named(files: Seq<(String, PlaybackFile)>, name: Seq<char>)
    ensures
        0 <= first_named(files, name) <= files.len(),
        first_named(files, name) < files.len() ==> files[first_named(files, name)].0@ == name,
        forall|j: int| 0 <= j < first_named(files, name) ==> (#[trigger] files[j]).0@ != name,
    decreases files.len(),
{
    if files.len() != 0 && files[0].0@ != name {
        let rest = files.drop_first();
        lemma_first_named(rest, name);
        assert forall|j: int| 0 <= j < first_named(files, name) implies (#[trigger] files[j]).0@
            != name by {
            if j > 0 {
                assert(files[j] == rest[j - 1]);
            }
        }
    }
}

/// The verdict on a configured file, given the configured sample rate and
/// number of channels and what the decoder reports of the file.
pub open spec fn file_checked(rate: u64, channels: nat, probe: Option<MediaInfo>) -> Result<
    bool,
    ConfigInvalid,
> {
    match probe {
        None => Err(ConfigInvalid::UnusableFile),
        Some(info) => if info.sample_rate != rate {
            Err(ConfigInvalid::FileRateMismatch)
        } else if info.channels == 0 {
            Err(ConfigInvalid::FileWithoutChannels)
        } else {
            Ok(info.channels > channels)
        },
    }
}

impl Config {
    /// The files as a mapping from name to URI; of two entries under one name
    /// the first counts.
    pub open spec fn uris(&self) -> Map<Seq<char>, Seq<char>> {
        Map::new(
            |name: Seq<char>| first_named(self.files@, name) < self.files@.len(),
            |name: Seq<char>| self.files@[first_named(self.files@, name)].1.uri@,
        )
    }

    /// Builds the configuration from the merged settings. A configuration
    /// without output channels is refused; everything else is taken as given.
    pub fn get(
        files: Vec<(String, PlaybackFile)>,
        listen: String,
        channels: Vec<String>,
        shutdown_secs: u64,
        sample_rate: u64,
    ) -> (r: Result<Config, ConfigInvalid>)
        ensures
            channels@.len() == 0 <==> r == Err::<Config, ConfigInvalid>(ConfigInvalid::NoChannels),
            channels@.len() != 0 <==> r == Ok::<Config, ConfigInvalid>(
                (Config { files, listen, channels, shutdown_secs, sample_rate }),
            ),
    {
        if channels.len() == 0 {
            return Err(ConfigInvalid::NoChannels);
        }
        Ok(Config { files, listen, channels, shutdown_secs, sample_rate })
    }

    /// Holds the configured sample rate against the rate at which the audio
    /// backend runs.
    pub fn check_backend(&self, backend_rate: u64) -> (r: Result<(), ConfigInvalid>)
        ensures
            backend_rate == self.sample_rate ==> r == Ok::<(), ConfigInvalid>(()),
            backend_rate != self.sample_rate ==> r == Err::<(), ConfigInvalid>(
                ConfigInvalid::SampleRateMismatch,
            ),
    {
        if backend_rate != self.sample_rate {
            Err(ConfigInvalid::SampleRateMismatch)
        } else {
            Ok(())
        }
    }

    /// Holds a configured file against what the decoder reports of it;
    /// `probe` is `None` where the file did not open. A usable file has the
    /// configured sample rate and at least one channel. The result says
    /// whether the file has more channels than are configured, so that some
    /// of them will not play.
    pub fn check_file(&self, probe: Option<MediaInfo>) -> (r: Result<bool, ConfigInvalid>)
        ensures
            r == file_checked(self.sample_rate, self.channels@.len(), probe),
    {
        match probe {
            None => Err(ConfigInvalid::UnusableFile),
            Some(info) => {
                if info.sample_rate != self.sample_rate {
                    Err(ConfigInvalid::FileRateMismatch)
                } else if info.channels == 0 {
                    Err(ConfigInvalid::FileWithoutChannels)
                } else {
                    Ok(info.channels > self.channels.len())
                }
            },
        }
    }

    /// The URI configured under `name`, if any.
    pub fn uri_of(&self, name: &str) -> (r: Option<String>)
        ensures
            r is Some <==> self.uris().dom().contains(name@),
            r matches Some(uri) ==> uri@ == self.uris()[name@],
    {
        let mut i: usize = 0;
        while i < self.files.len()
            invariant
                0 <= i <= self.files@.len(),
                forall|j: int| 0 <= j < i ==> (#[trigger] self.files@[j]).0@ != name@,
            decreases self.files@.len() - i,
        {
            if str_eq(self.files[i].0.as_str(), name) {
                proof {
                    lemma_first_named(self.files@, name@);
                }
                return Some(self.files[i].1.uri.clone());
            }
            i += 1;
        }
        proof {
            lemma_first_named(self.files@, name@);
        }
        None
    }
}

} // verus!
