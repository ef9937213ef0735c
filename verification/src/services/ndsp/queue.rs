//! What the requests mean for a channel's queue of wave buffers.
//!
//! The mixer plays the buffers of a queue in the order in which they were
//! added and takes them out as it finishes them, at its own pace. What can be
//! said from outside is how many buffers a channel can hold at most after a
//! run of requests, and in particular when it holds none.

use vstd::prelude::*;
use super::wave::WaveInfo;
use super::{teardown_commands, Command, NUMBER_OF_CHANNELS};

verus! {

/// Whether `command` stops channel `id` and drops every buffer of its queue.
pub open spec fn empties(command: Command, id: u8) -> bool {
    command == Command::ClearQueue(id) || command == Command::Reset(id)
}

/// The most wave buffers that channel `id` can have queued or playing once
/// the mixer has carried out `commands` in order, when it had at most `before`
/// of them: a clear or a reset leaves none, each buffer added counts one more,
/// and no other request touches the queue.
pub open spec fn in_flight(before: nat, commands: Seq<Command>, id: u8) -> nat
    decreases commands.len(),
{
    if commands.len() == 0 {
        before
    } else {
        let earlier = in_flight(before, commands.drop_last(), id);
        if empties(commands.last(), id) {
            0
        } else if commands.last() == Command::AddWaveBuffer(id) {
            earlier + 1
        } else {
            earlier
        }
    }
}

/// A queue that was emptied and had no buffer added since is empty.
pub proof fn lemma_emptied_stays_empty(before: nat, commands: Seq<Command>, id: u8, at: int)
    requires
        0 <= at < commands.len(),
        empties(commands[at], id),
        forall|j: int| at < j < commands.len() ==> commands[j] != Command::AddWaveBuffer(id),
    ensures
        in_flight(before, commands, id) == 0,
    decreases commands.len(),
{
    if at < commands.len() - 1 {
        lemma_emptied_stays_empty(before, commands.drop_last(), id, at);
    }
}

/// After the shutdown's requests no channel has a buffer queued or playing,
/// however many it had.
pub proof fn lemma_teardown_leaves_nothing_in_flight(before: nat, id: u8)
    requires
        id < NUMBER_OF_CHANNELS,
    ensures
        in_flight(before, teardown_commands(), id) == 0,
{
    lemma_emptied_stays_empty(before, teardown_commands(), id, 2 * id);
}

/// A wave buffer that goes away while it is queued or playing has the queue
/// of the channel that took it emptied first.
pub proof fn lemma_busy_wave_empties_its_channel(wave: WaveInfo, before: nat, id: u8)
    requires
        wave.status().is_busy(),
        wave.channel() == Some(id),
    ensures
        wave.release_command() == Some(Command::ClearQueue(id)),
        in_flight(before, seq![Command::ClearQueue(id)], id) == 0,
{
    lemma_emptied_stays_empty(before, seq![Command::ClearQueue(id)], id, 0);
}

/// The reset that comes with giving a channel back leaves its next holder an
/// empty queue.
pub proof fn lemma_released_channel_is_empty(before: nat, id: u8)
    ensures
        in_flight(before, seq![Command::Reset(id)], id) == 0,
{
    lemma_emptied_stays_empty(before, seq![Command::Reset(id)], id, 0);
}

} // verus!
