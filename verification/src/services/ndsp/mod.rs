//! The audio mixer: channels, their ownership and the requests they issue.
//!
//! Nothing here talks to the mixer. Every operation that has to reach it
//! returns a [`Command`]; the caller carries the commands out, in the order in
//! which it received them.

pub mod message;
pub mod queue;
pub mod wave;

use vstd::prelude::*;
use crate::services::reference::{ServiceCounter, ServiceError, ServiceReference};
use wave::WaveInfo;

verus! {

/// Number of mixer channels. Valid channel IDs are `0..NUMBER_OF_CHANNELS`.
pub const NUMBER_OF_CHANNELS: u8 = 24;

/// Routing of the mixed signal to the speakers.
#[derive(Copy, Clone, Debug, PartialEq, Eq, Structural)]
pub enum OutputMode {
    Mono,
    Stereo,
    Surround,
}

/// Layout of the samples in a wave buffer.
#[derive(Copy, Clone, Debug, PartialEq, Eq, Structural)]
pub enum AudioFormat {
    PCM8Mono,
    PCM16Mono,
    PCM8Stereo,
    PCM16Stereo,
}

/// How a channel resamples its input.
#[derive(Copy, Clone, Debug, PartialEq, Eq, Structural)]
pub enum InterpolationType {
    Polyphase,
    Linear,
    /// Samples are taken as they are.
    Unfiltered,
}

/// Failures of the channel and wave buffer operations.
#[derive(Copy, Clone, Debug, PartialEq, Eq, Structural)]
pub enum NdspError {
    /// No channel has this ID.
    InvalidChannel(u8),
    /// The channel with this ID has a live handle.
    ChannelAlreadyInUse(u8),
    /// The wave buffer is still queued or playing on the channel with this ID.
    WaveBusy(u8),
    /// More samples were asked for (first number) than the buffer holds (second).
    SampleCountOutOfBounds(u32, u32),
}

/// A request to the native mixer. The `u8` is the ID of the channel addressed.
#[derive(Copy, Clone, Debug, PartialEq, Eq, Structural)]
pub enum Command {
    /// Route the mixed signal as given; affects all channels at once.
    SetOutputMode(OutputMode),
    /// Stop the channel, empty its queue and restore its default parameters.
    Reset(u8),
    /// Restore the channel's default parameters.
    InitParameters(u8),
    /// Pause or resume playback.
    SetPaused(u8, bool),
    /// Declare the sample layout of the buffers that will be queued.
    SetFormat(u8, AudioFormat),
    /// Choose the resampling method.
    SetInterpolation(u8, InterpolationType),
    /// Stop playback and drop every buffer of the channel's queue.
    ClearQueue(u8),
    /// Append the wave buffer at hand to the channel's queue.
    AddWaveBuffer(u8),
    /// Switch the monopole filter on or off.
    IirMonoSetEnabled(u8, bool),
    /// Switch the biquad filter on or off.
    IirBiquadSetEnabled(u8, bool),
}

/// Exclusive handle on one mixer channel.
///
/// It is handed out by [`Ndsp::channel`] and returned with [`Ndsp::release`].
/// It is neither `Clone` nor `Copy`: whoever holds it is the only one who can
/// address the channel.
#[derive(Debug)]
pub struct Channel {
    id: u8,
}

/// Handle on the mixer as a whole: membership in the audio service and the
/// record of which channels are handed out. `C` is the type of the routine
/// that stops the audio service.
pub struct Ndsp<C> {
    service: ServiceReference<C>,
    channel_flags: [bool; 24],
    output_mode: OutputMode,
}

impl AudioFormat {
    /// Number of interleaved channels in one sample.
    pub open spec fn channel_count(self) -> nat {
        match self {
            AudioFormat::PCM8Mono | AudioFormat::PCM16Mono => 1,
            AudioFormat::PCM8Stereo | AudioFormat::PCM16Stereo => 2,
        }
    }

    /// Bytes that one channel takes in one sample.
    pub open spec fn bytes_per_channel(self) -> nat {
        match self {
            AudioFormat::PCM8Mono | AudioFormat::PCM8Stereo => 1,
            AudioFormat::PCM16Mono | AudioFormat::PCM16Stereo => 2,
        }
    }

    /// Bytes that one sample takes.
    pub open spec fn bytes_per_sample(self) -> nat {
        match self {
            AudioFormat::PCM8Mono => 1,
            AudioFormat::PCM16Mono | AudioFormat::PCM8Stereo => 2,
            AudioFormat::PCM16Stereo => 4,
        }
    }

    /// A sample holds one value of `bytes_per_channel` bytes for each channel.
    pub proof fn lemma_bytes_per_sample(self)
        ensures
            self.bytes_per_sample() == self.channel_count() * self.bytes_per_channel(),
    {
    }

    /// Returns the number of bytes needed to store one sample: 1 for 8 bit
    /// mono, 2 for 16 bit mono and 8 bit stereo, 4 for 16 bit stereo.
    pub fn sample_size(self) -> (size: u8)
        ensures
            size == self.bytes_per_sample(),
            1 <= size <= 4,
    {
        match self {
            AudioFormat::PCM8Mono => 1,
            AudioFormat::PCM16Mono | AudioFormat::PCM8Stereo => 2,
            AudioFormat::PCM16Stereo => 4,
        }
    }
}

/// What asking for channel `id` gives while the channels in `held` are handed
/// out: the new set of held channels, or the refusal.
pub open spec fn claim(held: Set<u8>, id: u8) -> Result<Set<u8>, NdspError> {
    if id >= NUMBER_OF_CHANNELS {
        Err(NdspError::InvalidChannel(id))
    } else if held.contains(id) {
        Err(NdspError::ChannelAlreadyInUse(id))
    } else {
        Ok(held.insert(id))
    }
}

/// The channels still held once the handle of channel `id` is given back.
pub open spec fn relinquish(held: Set<u8>, id: u8) -> Set<u8> {
    held.remove(id)
}

/// The requests that shut the mixer down: for each channel in turn, a queue
/// clear followed by a reset.
pub open spec fn teardown_commands() -> Seq<Command> {
    Seq::new(
        2 * NUMBER_OF_CHANNELS as nat,
        |i: int|
            if i % 2 == 0 {
                Command::ClearQueue((i / 2) as u8)
            } else {
                Command::Reset((i / 2) as u8)
            },
    )
}

impl<C> Ndsp<C> {
    /// The membership in the audio service.
    pub closed spec fn service(&self) -> ServiceReference<C> {
        self.service
    }

    /// The IDs of the channels that are handed out.
    pub closed spec fn held(&self) -> Set<u8> {
        Set::new(|id: u8| id < NUMBER_OF_CHANNELS && self.channel_flags@[id as int])
    }

    /// The output mode last asked for.
    pub closed spec fn mode(&self) -> OutputMode {
        self.output_mode
    }

    /// Builds the handle around a membership in the audio service: no channel
    /// is handed out, and the output is stereo.
    pub fn with_service(service: ServiceReference<C>) -> (ndsp: Self)
        ensures
            ndsp.held() == Set::<u8>::empty(),
            ndsp.mode() == OutputMode::Stereo,
            ndsp.service() == service,
    {
        let ndsp = Ndsp { service, channel_flags: [false; 24], output_mode: OutputMode::Stereo };
        assert(ndsp.held() =~= Set::<u8>::empty());
        ndsp
    }

    /// Acquires the audio service, shared with the owners it already has, and
    /// builds the handle. `init_fn` starts the native service; it runs if and
    /// only if the service had no owner, and its failure is handed on.
    /// `cleanup_fn` stops the native service; the handle keeps it.
    pub fn init<E, I: FnOnce() -> Result<(), E>>(
        counter: &mut ServiceCounter,
        init_fn: I,
        cleanup_fn: C,
    ) -> (r: Result<Self, ServiceError<E>>)
        requires
            old(counter).owners() < usize::MAX,
            old(counter).owners() == 0 ==> init_fn.requires(()),
        ensures
            r matches Ok(ndsp) ==> ndsp.held() == Set::<u8>::empty() && ndsp.mode()
                == OutputMode::Stereo && ndsp.service().cleanup() == cleanup_fn,
            old(counter).owners() != 0 ==> r is Ok && final(counter).owners() == old(counter).owners() + 1,
            old(counter).owners() == 0 ==> match r {
                Ok(_) => init_fn.ensures((), Ok(())) && final(counter).owners() == 1,
                Err(ServiceError::Start(e)) => init_fn.ensures((), Err(e)) && final(counter).owners() == 0,
                Err(ServiceError::AlreadyActive) => false,
            },
    {
        match ServiceReference::new(counter, false, init_fn, cleanup_fn) {
            Ok(service) => Ok(Self::with_service(service)),
            Err(e) => Err(e),
        }
    }

    /// Hands out the handle of channel `id`.
    ///
    /// Fails with `InvalidChannel` when no channel has this ID, and with
    /// `ChannelAlreadyInUse` while the channel's handle is out.
    pub fn channel(&mut self, id: u8) -> (r: Result<Channel, NdspError>)
        ensures
            final(self).mode() == old(self).mode(),
            final(self).service() == old(self).service(),
            id >= NUMBER_OF_CHANNELS ==> r == Err::<Channel, NdspError>(
                NdspError::InvalidChannel(id),
            ),
            match claim(old(self).held(), id) {
                Ok(held) => r matches Ok(ch) && ch.id() == id && final(self).held() == held,
                Err(e) => r == Err::<Channel, NdspError>(e) && final(self).held() == old(self).held(),
            },
    {
        if id >= NUMBER_OF_CHANNELS {
            return Err(NdspError::InvalidChannel(id));
        }
        let slot: usize = id as usize;
        if self.channel_flags[slot] {
            return Err(NdspError::ChannelAlreadyInUse(id));
        }
        self.channel_flags[slot] = true;
        assert(final(self).held() =~= old(self).held().insert(id));
        Ok(Channel { id })
    }

    /// Takes back a handle that this mixer handed out. The channel has to be
    /// reset, so that its next holder does not find it in the middle of
    /// playback: that is the command returned.
    pub fn release(&mut self, channel: Channel) -> (cmd: Command)
        ensures
            cmd == Command::Reset(channel.id()),
            final(self).held() == relinquish(old(self).held(), channel.id()),
            final(self).mode() == old(self).mode(),
            final(self).service() == old(self).service(),
    {
        proof {
            use_type_invariant(&channel);
        }
        let id: u8 = channel.id;
        self.channel_flags[id as usize] = false;
        assert(final(self).held() =~= old(self).held().remove(id));
        Command::Reset(id)
    }

    /// Whether the handle of channel `id` is out.
    pub fn is_held(&self, id: u8) -> (b: bool)
        ensures
            b == self.held().contains(id),
    {
        id < NUMBER_OF_CHANNELS && self.channel_flags[id as usize]
    }

    /// The output mode last asked for; stereo at first.
    pub fn output_mode(&self) -> (mode: OutputMode)
        ensures
            mode == self.mode(),
    {
        self.output_mode
    }

    /// Sets the audio output mode.
    pub fn set_output_mode(&mut self, mode: OutputMode) -> (cmd: Command)
        ensures
            cmd == Command::SetOutputMode(mode),
            final(self).mode() == mode,
            final(self).held() == old(self).held(),
            final(self).service() == old(self).service(),
    {
        self.output_mode = mode;
        Command::SetOutputMode(mode)
    }

    /// Ends the use of the mixer. Every channel, held or not, gets its queue
    /// cleared and is reset; the commands come in the order of
    /// `teardown_commands`. The membership in the audio service comes back to
    /// be released once the commands are carried out.
    pub fn teardown(self) -> (r: (Vec<Command>, ServiceReference<C>))
        ensures
            r.0@ == teardown_commands(),
            r.1 == self.service(),
    {
        let mut commands: Vec<Command> = Vec::new();
        let mut id: u8 = 0;
        while id < NUMBER_OF_CHANNELS
            invariant
                id <= NUMBER_OF_CHANNELS,
                commands@.len() == 2 * id,
                forall|i: int| 0 <= i < commands@.len() ==> commands@[i] == teardown_commands()[i],
            decreases NUMBER_OF_CHANNELS - id,
        {
            commands.push(Command::ClearQueue(id));
            commands.push(Command::Reset(id));
            id = id + 1;
        }
        assert(commands@ =~= teardown_commands());
        (commands, self.service)
    }
}

impl Channel {
    #[verifier::type_invariant]
    spec fn in_range(&self) -> bool {
        self.id < NUMBER_OF_CHANNELS
    }

    /// The ID of the channel that this handle addresses.
    pub closed spec fn id(&self) -> u8 {
        self.id
    }

    /// Returns the channel's ID.
    pub fn get_id(&self) -> (id: u8)
        ensures
            id == self.id(),
            id < NUMBER_OF_CHANNELS,
    {
        proof {
            use_type_invariant(self);
        }
        self.id
    }

    /// Resets the channel.
    pub fn reset(&self) -> (cmd: Command)
        ensures
            cmd == Command::Reset(self.id()),
    {
        Command::Reset(self.id)
    }

    /// Initializes the channel's parameters.
    pub fn init_parameters(&self) -> (cmd: Command)
        ensures
            cmd == Command::InitParameters(self.id()),
    {
        Command::InitParameters(self.id)
    }

    /// Pauses or resumes the channel's playback.
    pub fn set_paused(&self, state: bool) -> (cmd: Command)
        ensures
            cmd == Command::SetPaused(self.id(), state),
    {
        Command::SetPaused(self.id, state)
    }

    /// Sets the channel's format; it has to be that of the queued buffers.
    pub fn set_format(&self, format: AudioFormat) -> (cmd: Command)
        ensures
            cmd == Command::SetFormat(self.id(), format),
    {
        Command::SetFormat(self.id, format)
    }

    /// Sets the channel's interpolation mode.
    pub fn set_interpolation(&self, interp_type: InterpolationType) -> (cmd: Command)
        ensures
            cmd == Command::SetInterpolation(self.id(), interp_type),
    {
        Command::SetInterpolation(self.id, interp_type)
    }

    /// Clears the wave buffer queue and stops playback.
    pub fn clear_queue(&self) -> (cmd: Command)
        ensures
            cmd == Command::ClearQueue(self.id()),
    {
        Command::ClearQueue(self.id)
    }

    /// Enables or disables the monopole filter.
    pub fn iir_mono_set_enabled(&self, enable: bool) -> (cmd: Command)
        ensures
            cmd == Command::IirMonoSetEnabled(self.id(), enable),
    {
        Command::IirMonoSetEnabled(self.id, enable)
    }

    /// Enables or disables the biquad filter.
    pub fn iir_biquad_set_enabled(&self, enable: bool) -> (cmd: Command)
        ensures
            cmd == Command::IirBiquadSetEnabled(self.id(), enable),
    {
        Command::IirBiquadSetEnabled(self.id, enable)
    }

    /// Adds a wave buffer to the channel's queue. If the queue is empty,
    /// playback starts with this buffer; otherwise it plays after the buffers
    /// queued before it.
    ///
    /// A buffer that is queued or playing is refused with `WaveBusy` and left
    /// as it was. Any other buffer is stamped with this channel's ID and
    /// marked as queued, and the command that appends it is returned.
    pub fn queue_wave(&self, wave: &mut WaveInfo) -> (r: Result<Command, NdspError>)
        ensures
            old(wave).status().is_busy() ==> r == Err::<Command, NdspError>(
                NdspError::WaveBusy(self.id()),
            ) && *final(wave) == *old(wave),
            !old(wave).status().is_busy() ==> r == Ok::<Command, NdspError>(
                Command::AddWaveBuffer(self.id()),
            ) && final(wave).same_samples(*old(wave)) && final(wave).status()
                == wave::WaveStatus::Queued && final(wave).channel() == Some(self.id()),
    {
        proof {
            use_type_invariant(self);
        }
        if wave.get_status().busy() {
            return Err(NdspError::WaveBusy(self.id));
        }
        wave.set_channel(self.id);
        let _recorded: bool = wave.update_status(wave::WaveStatus::Queued);
        Ok(Command::AddWaveBuffer(self.id))
    }
}

/// A channel that is not handed out can be claimed; while its handle is out a
/// second claim is refused with `ChannelAlreadyInUse`; once the handle is
/// given back the channel can be claimed again.
pub proof fn lemma_claim_is_exclusive(held: Set<u8>, id: u8)
    requires
        id < NUMBER_OF_CHANNELS,
        !held.contains(id),
    ensures
        claim(held, id) == Ok::<Set<u8>, NdspError>(held.insert(id)),
        claim(held.insert(id), id) == Err::<Set<u8>, NdspError>(
            NdspError::ChannelAlreadyInUse(id),
        ),
        relinquish(held.insert(id), id) == held,
        claim(relinquish(held.insert(id), id), id) is Ok,
{
    assert(held.insert(id).remove(id) =~= held);
}

/// On a mixer whose channels are all free, every valid ID can be claimed.
pub proof fn lemma_first_claim_succeeds(id: u8)
    requires
        id < NUMBER_OF_CHANNELS,
    ensures
        claim(Set::<u8>::empty(), id) is Ok,
{
}

/// Claiming or giving back one channel changes nothing for the others.
pub proof fn lemma_other_channels_untouched(held: Set<u8>, id: u8, other: u8)
    requires
        other != id,
    ensures
        claim(held, id) matches Ok(after) ==> after.contains(other) == held.contains(other),
        relinquish(held, id).contains(other) == held.contains(other),
        claim(held, id) matches Ok(after) ==> claim(after, other) == match claim(held, other) {
            Ok(both) => Ok::<Set<u8>, NdspError>(both.insert(id)),
            Err(e) => Err(e),
        },
{
    if claim(held, id) is Ok && claim(held, other) is Ok {
        assert(held.insert(id).insert(other) =~= held.insert(other).insert(id));
    }
}

/// No ID from `NUMBER_OF_CHANNELS` on can be claimed, whatever is handed out.
pub proof fn lemma_invalid_id_is_refused(held: Set<u8>, id: u8)
    requires
        id >= NUMBER_OF_CHANNELS,
    ensures
        claim(held, id) == Err::<Set<u8>, NdspError>(NdspError::InvalidChannel(id)),
{
}

/// The shutdown clears the queue of every channel and then resets it, so
/// that no channel is left with a buffer queued or playing.
pub proof fn lemma_teardown_reaches_every_channel(id: u8)
    requires
        id < NUMBER_OF_CHANNELS,
    ensures
        teardown_commands()[2 * id] == Command::ClearQueue(id),
        teardown_commands()[2 * id + 1] == Command::Reset(id),
        teardown_commands().contains(Command::ClearQueue(id)),
{
    assert(teardown_commands()[2 * id] == Command::ClearQueue(id));
}

} // verus!
