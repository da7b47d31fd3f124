use vstd::prelude::*;

verus! {

/// The state of audio capture: the input stream while capture runs, and an output (loopback)
/// stream slot. The stream handles are the type parameter `St`; opening and playing them is
/// the caller's part.
pub struct AudioCaptureEngine<St> {
    _input_stream: Option<St>,
    _output_stream: Option<St>,
}

impl<St> AudioCaptureEngine<St> {
    /// The input stream, while capture runs.
    pub closed spec fn input_stream(&self) -> Option<St> {
        self._input_stream
    }

    /// The output stream, while one is held.
    pub closed spec fn output_stream(&self) -> Option<St> {
        self._output_stream
    }

    /// An engine that holds no stream.
    pub fn new() -> (e: Self)
        ensures
            e.input_stream() is None,
            e.output_stream() is None,
    {
        AudioCaptureEngine { _input_stream: None, _output_stream: None }
    }

    /// Records the input stream that was opened and started playing, in place of any
    /// earlier one.
    pub fn start(&mut self, input_stream: St)
        ensures
            final(self).input_stream() == Some(input_stream),
            final(self).output_stream() == old(self).output_stream(),
    {
        self._input_stream = Some(input_stream);
    }

    /// Stops capture: lets go of both streams.
    pub fn stop(&mut self)
        ensures
            final(self).input_stream() is None,
            final(self).output_stream() is None,
    {
        self._input_stream = None;
        self._output_stream = None;
    }

    /// Whether an input stream is held, that is, whether capture runs.
    pub fn is_capturing(&self) -> (b: bool)
        ensures
            b == self.input_stream() is Some,
    {
        self._input_stream.is_some()
    }
}

} // verus!
