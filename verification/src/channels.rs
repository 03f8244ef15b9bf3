//! Routing of output channels in the per-sample mixing loop.
//!
//! The mixer pairs the usable channels into stereo pairs.  Within a pair the
//! even channel receives the left pan gain and the odd channel the right pan
//! gain.  When the usable channel count is odd, the unpaired last channel is
//! treated as a centre/mono channel and receives the volume gain alone.
//! Output channels beyond the usable count are written as silence.

use vstd::prelude::*;

verus! {

/// The kind of gain an output channel receives for one sample.
#[derive(Clone, Copy, Debug, PartialEq, Eq, Structural)]
pub enum ChannelRole {
    /// Even channel of a stereo pair: volume gain times the left pan gain.
    PairLeft,
    /// Odd channel of a stereo pair: volume gain times the right pan gain.
    PairRight,
    /// Unpaired last channel of an odd layout: volume gain only.
    Center,
    /// Output channel beyond the usable count: written as zero.
    Silent,
}

/// How many channels actually carry audio: the smaller of the input and
/// output channel counts.
pub open spec fn spec_usable_channels(num_inputs: int, num_outputs: int) -> int {
    if num_inputs <= num_outputs {
        num_inputs
    } else {
        num_outputs
    }
}

/// The role of one output channel, given the input and output channel counts.
pub open spec fn spec_channel_role(channel: int, num_inputs: int, num_outputs: int) -> ChannelRole {
    let usable = spec_usable_channels(num_inputs, num_outputs);
    let paired = 2 * (usable / 2);
    if channel < paired {
        if channel % 2 == 0 {
            ChannelRole::PairLeft
        } else {
            ChannelRole::PairRight
        }
    } else if channel < usable {
        ChannelRole::Center
    } else {
        ChannelRole::Silent
    }
}

/// The smaller of the input and output channel counts.
pub fn usable_channels(num_inputs: usize, num_outputs: usize) -> (n: usize)
    ensures
        n == spec_usable_channels(num_inputs as int, num_outputs as int),
{
    if num_inputs <= num_outputs {
        num_inputs
    } else {
        num_outputs
    }
}

/// Decides what a given output channel receives for each processed sample.
pub fn output_channel_role(channel: usize, num_inputs: usize, num_outputs: usize) -> (role:
    ChannelRole)
    requires
        channel < num_outputs,
    ensures
        role == spec_channel_role(channel as int, num_inputs as int, num_outputs as int),
{
    let usable = usable_channels(num_inputs, num_outputs);
    let pairs = usable / 2;
    if channel < 2 * pairs {
        if channel % 2 == 0 {
            ChannelRole::PairLeft
        } else {
            ChannelRole::PairRight
        }
    } else if channel < usable {
        ChannelRole::Center
    } else {
        ChannelRole::Silent
    }
}

/// A channel is silent exactly when it lies beyond the usable channel count;
/// a centre channel exists exactly for the unpaired last channel of an odd
/// layout; and every other usable channel belongs to a stereo pair whose even
/// member takes the left gain and whose odd member takes the right gain.
pub proof fn lemma_channel_roles(channel: int, num_inputs: int, num_outputs: int)
    requires
        0 <= channel < num_outputs,
        0 <= num_inputs,
    ensures
        (spec_channel_role(channel, num_inputs, num_outputs) == ChannelRole::Silent) <==> channel
            >= spec_usable_channels(num_inputs, num_outputs),
        (spec_channel_role(channel, num_inputs, num_outputs) == ChannelRole::Center) <==> (
        spec_usable_channels(num_inputs, num_outputs) % 2 == 1 && channel == spec_usable_channels(
            num_inputs,
            num_outputs,
        ) - 1),
        (spec_channel_role(channel, num_inputs, num_outputs) == ChannelRole::PairLeft) <==> (channel
            % 2 == 0 && channel + 1 < spec_usable_channels(num_inputs, num_outputs)),
        (spec_channel_role(channel, num_inputs, num_outputs) == ChannelRole::PairRight) <==> (
        channel % 2 == 1 && channel < spec_usable_channels(num_inputs, num_outputs)),
{
}

} // verus!
