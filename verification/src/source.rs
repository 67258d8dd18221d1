//! What happens to one sample on its way from the decoder to the output.
//!
//! The effects and the visualizer buffer are shared with other threads, and
//! the audio thread never waits for either: where the effects are busy the
//! sample passes unprocessed, where the buffer is busy it is not shown.
use crate::visualizer::{admitted, VisualizerBuffer};
use vstd::prelude::*;

verus! {

/// What the adapter around a decoded stream remembers between samples.
pub struct SourceState {
    /// Whether the stream's sample rate has been passed on to the effects.
    pub sample_rate_initialized: bool,
}

impl SourceState {
    pub fn new() -> (state: Self)
        ensures
            !state.sample_rate_initialized,
    {
        SourceState { sample_rate_initialized: false }
    }

    /// Called before each sample is pulled. On the first call it returns the
    /// stream's rate, for the effects to adopt; afterwards nothing.
    pub fn begin_pull(&mut self, stream_rate: u32) -> (announce: Option<u32>)
        ensures
            final(self).sample_rate_initialized,
            announce == if old(self).sample_rate_initialized {
                None
            } else {
                Some(stream_rate)
            },
    {
        if self.sample_rate_initialized {
            None
        } else {
            self.sample_rate_initialized = true;
            Some(stream_rate)
        }
    }
}

/// The sample that goes to the output: the processed one if the effects
/// could be had, else the raw one.
pub fn select_output<T>(raw: T, processed: Option<T>) -> (output: T)
    ensures
        output == match processed {
            Some(sample) => sample,
            None => raw,
        },
{
    match processed {
        Some(sample) => sample,
        None => raw,
    }
}

/// Sends one sample on its way.
///
/// `processed` is what the effects made of `raw`, if they could be had
/// without waiting; `visualizer` is the buffer, if it could. The sample that
/// goes to the output is returned, and shown to the visualizer if it is
/// there.
pub fn deliver<T: Copy>(raw: T, processed: Option<T>, visualizer: Option<&mut VisualizerBuffer<T>>) -> (output:
    T)
    ensures
        output == match processed {
            Some(sample) => sample,
            None => raw,
        },
        visualizer matches Some(buffer) ==> final(buffer)@ == admitted(
            buffer@,
            buffer.spec_capacity() as nat,
            output,
        ) && final(buffer).spec_capacity() == buffer.spec_capacity(),
{
    let output: T = select_output(raw, processed);
    match visualizer {
        Some(buffer) => {
            buffer.push(output);
        },
        None => {},
    }
    output
}

} // verus!
