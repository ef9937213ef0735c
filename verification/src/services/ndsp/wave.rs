//! Wave buffers and their playback state.

use vstd::prelude::*;
use super::{AudioFormat, Command, NdspError, NUMBER_OF_CHANNELS};

verus! {

/// Playback state of a wave buffer, as the mixer last reported it.
#[derive(Copy, Clone, Debug, PartialEq, Eq, Structural)]
pub enum WaveStatus {
    /// Never queued, or taken back by a queue clear.
    Free,
    /// Waiting in a channel's queue.
    Queued,
    /// Being played.
    Playing,
    /// Played to the end.
    Done,
}

/// A block of samples with its format, its loop flag and its playback state.
///
/// While the state is `Queued` or `Playing` the mixer may read the samples, so
/// the buffer knows the channel that took it.
#[derive(Debug)]
pub struct WaveInfo {
    buffer: Vec<u8>,
    audio_format: AudioFormat,
    looping: bool,
    sample_count: u32,
    status: WaveStatus,
    played_on_channel: Option<u8>,
}

/// Number of whole samples of `format` that fit in `len` bytes.
pub open spec fn max_samples(len: nat, format: AudioFormat) -> nat {
    len / format.bytes_per_sample()
}

impl WaveStatus {
    /// Whether the mixer may still read a buffer in this state.
    pub open spec fn is_busy(self) -> bool {
        self == WaveStatus::Queued || self == WaveStatus::Playing
    }

    /// Whether the mixer may still read a buffer in this state.
    pub fn busy(self) -> (b: bool)
        ensures
            b == self.is_busy(),
    {
        match self {
            WaveStatus::Queued | WaveStatus::Playing => true,
            WaveStatus::Free | WaveStatus::Done => false,
        }
    }
}

impl WaveInfo {
    #[verifier::type_invariant]
    spec fn consistent(&self) -> bool {
        &&& self.sample_count <= max_samples(self.buffer@.len(), self.audio_format)
        &&& max_samples(self.buffer@.len(), self.audio_format) <= u32::MAX
        &&& self.status.is_busy() ==> self.played_on_channel is Some
        &&& self.played_on_channel matches Some(id) ==> id < NUMBER_OF_CHANNELS
    }

    /// The bytes of the buffer.
    pub closed spec fn buffer(&self) -> Seq<u8> {
        self.buffer@
    }

    /// The layout of the samples.
    pub closed spec fn format(&self) -> AudioFormat {
        self.audio_format
    }

    /// Whether playback starts over at the end of the buffer.
    pub closed spec fn looping(&self) -> bool {
        self.looping
    }

    /// The number of samples to play.
    pub closed spec fn sample_count(&self) -> u32 {
        self.sample_count
    }

    /// The playback state last recorded.
    pub closed spec fn status(&self) -> WaveStatus {
        self.status
    }

    /// The channel that last took the buffer.
    pub closed spec fn channel(&self) -> Option<u8> {
        self.played_on_channel
    }

    /// Same bytes, format, loop flag and sample count as `other`.
    pub open spec fn same_samples(&self, other: Self) -> bool {
        &&& self.buffer() == other.buffer()
        &&& self.format() == other.format()
        &&& self.looping() == other.looping()
        &&& self.sample_count() == other.sample_count()
    }

    /// Binds a sample buffer to its format. The buffer is free, no channel has
    /// taken it, and all the whole samples in it are to be played.
    pub fn new(buffer: Vec<u8>, audio_format: AudioFormat, looping: bool) -> (wave: Self)
        requires
            max_samples(buffer@.len(), audio_format) <= u32::MAX,
        ensures
            wave.buffer() == buffer@,
            wave.format() == audio_format,
            wave.looping() == looping,
            wave.sample_count() == max_samples(buffer@.len(), audio_format),
            wave.status() == WaveStatus::Free,
            wave.channel() is None,
    {
        let size: usize = audio_format.sample_size() as usize;
        let sample_count: u32 = (buffer.len() / size) as u32;
        WaveInfo {
            buffer,
            audio_format,
            looping,
            sample_count,
            status: WaveStatus::Free,
            played_on_channel: None,
        }
    }

    /// The bytes of the buffer.
    pub fn get_buffer(&self) -> (bytes: &Vec<u8>)
        ensures
            bytes@ == self.buffer(),
    {
        &self.buffer
    }

    /// The layout of the samples.
    pub fn get_format(&self) -> (format: AudioFormat)
        ensures
            format == self.format(),
    {
        self.audio_format
    }

    /// Whether playback starts over at the end of the buffer.
    pub fn is_looping(&self) -> (looping: bool)
        ensures
            looping == self.looping(),
    {
        self.looping
    }

    /// The number of samples to play.
    pub fn get_sample_count(&self) -> (count: u32)
        ensures
            count == self.sample_count(),
            count <= max_samples(self.buffer().len(), self.format()),
    {
        proof {
            use_type_invariant(self);
        }
        self.sample_count
    }

    /// The playback state last recorded for this buffer.
    pub fn get_status(&self) -> (status: WaveStatus)
        ensures
            status == self.status(),
    {
        self.status
    }

    /// The channel that last took the buffer, if any did.
    pub fn get_channel(&self) -> (channel: Option<u8>)
        ensures
            channel == self.channel(),
            self.status().is_busy() ==> channel is Some,
            channel matches Some(id) ==> id < NUMBER_OF_CHANNELS,
    {
        proof {
            use_type_invariant(self);
        }
        self.played_on_channel
    }

    /// Records the state that the mixer reports for this buffer, and says
    /// whether it did. A report of `Queued` or `Playing` for a buffer that no
    /// channel ever took cannot be true; it is not recorded.
    pub fn update_status(&mut self, status: WaveStatus) -> (recorded: bool)
        ensures
            recorded == (!status.is_busy() || old(self).channel() is Some),
            final(self).status() == if recorded {
                status
            } else {
                old(self).status()
            },
            final(self).same_samples(*old(self)),
            final(self).channel() == old(self).channel(),
    {
        proof {
            use_type_invariant(&*self);
        }
        if status.busy() && self.played_on_channel.is_none() {
            false
        } else {
            self.status = status;
            true
        }
    }

    /// Records the channel that takes the buffer.
    pub(crate) fn set_channel(&mut self, id: u8)
        requires
            id < NUMBER_OF_CHANNELS,
        ensures
            final(self).channel() == Some(id),
            final(self).status() == old(self).status(),
            final(self).same_samples(*old(self)),
    {
        proof {
            use_type_invariant(&*self);
        }
        self.played_on_channel = Some(id);
    }

    /// Changes the number of samples to play.
    ///
    /// Fails with `WaveBusy` while the buffer is queued or playing, and with
    /// `SampleCountOutOfBounds` when the buffer holds fewer samples than asked
    /// for; the buffer is then left as it was.
    pub fn set_sample_count(&mut self, sample_count: u32) -> (r: Result<(), NdspError>)
        ensures
            final(self).buffer() == old(self).buffer(),
            final(self).format() == old(self).format(),
            final(self).looping() == old(self).looping(),
            final(self).status() == old(self).status(),
            final(self).channel() == old(self).channel(),
            r == old(self).resize_outcome(sample_count),
            final(self).sample_count() == if r is Ok {
                sample_count
            } else {
                old(self).sample_count()
            },
    {
        proof {
            use_type_invariant(&*self);
        }
        if self.status.busy() {
            if let Some(id) = self.played_on_channel {
                return Err(NdspError::WaveBusy(id));
            }
        }
        let size: usize = self.audio_format.sample_size() as usize;
        let max_count: u32 = (self.buffer.len() / size) as u32;
        if sample_count > max_count {
            return Err(NdspError::SampleCountOutOfBounds(sample_count, max_count));
        }
        self.sample_count = sample_count;
        Ok(())
    }

    /// What `set_sample_count` answers to a request for `sample_count` samples.
    pub open spec fn resize_outcome(&self, sample_count: u32) -> Result<(), NdspError> {
        if self.status().is_busy() {
            Err(NdspError::WaveBusy(self.channel().unwrap()))
        } else if sample_count > max_samples(self.buffer().len(), self.format()) {
            Err(
                NdspError::SampleCountOutOfBounds(
                    sample_count,
                    max_samples(self.buffer().len(), self.format()) as u32,
                ),
            )
        } else {
            Ok(())
        }
    }

    /// The request that has to reach the mixer before the samples of this
    /// buffer may go away: a clear of the owning channel's queue while the
    /// buffer is queued or playing, nothing otherwise.
    pub open spec fn release_command(&self) -> Option<Command> {
        match self.channel() {
            Some(id) if self.status().is_busy() => Some(Command::ClearQueue(id)),
            _ => None,
        }
    }

    /// Ends the life of the wave buffer. Returns the request to carry out
    /// first, if there is one, and the samples, which must stay in place until
    /// that is done.
    pub fn discard(self) -> (r: (Option<Command>, Vec<u8>))
        ensures
            r.0 == self.release_command(),
            r.0 is Some <==> self.status().is_busy(),
            r.1@ == self.buffer(),
    {
        proof {
            use_type_invariant(&self);
        }
        let command = match self.played_on_channel {
            Some(id) if self.status.busy() => Some(Command::ClearQueue(id)),
            _ => None,
        };
        (command, self.buffer)
    }
}

} // verus!
