//! Which audio stream to transcribe.

use vstd::prelude::*;

use crate::listener::capture::discover::Devices;
use crate::listener::error::ListenerError;

verus! {

/// Selects the audio stream to transcribe.
#[derive(Debug)]
pub enum AudioSink {
    Input(InputSink),
    Output(OutputSink),
}

/// Selects the microphone.
#[derive(Debug)]
pub enum InputSink {
    /// The server's default source.
    Default,
    /// A source by name.
    Custom(String),
}

/// Selects the monitor of what the system plays.
#[derive(Debug)]
pub enum OutputSink {
    /// The monitor of the server's default sink.
    Default,
    /// A monitor source by name.
    Custom(String),
}

impl AudioSink {
    /// The name that the selection itself gives, if it gives one.
    pub open spec fn given(self) -> Option<Seq<char>> {
        match self {
            AudioSink::Input(InputSink::Custom(name)) => Some(name@),
            AudioSink::Output(OutputSink::Custom(name)) => Some(name@),
            _ => None,
        }
    }

    /// The device of the selection among the defaults.
    pub open spec fn pick(self, devices: Devices) -> Seq<char> {
        match self {
            AudioSink::Input(_) => devices.mic_source@,
            AudioSink::Output(_) => devices.system_monitor@,
        }
    }
}

/// Whether the server has to be asked for its defaults.
pub fn needs_discovery(sink: &AudioSink) -> (needed: bool)
    ensures
        needed == (sink.given() is None),
{
    match sink {
        AudioSink::Input(InputSink::Custom(_)) => false,
        AudioSink::Output(OutputSink::Custom(_)) => false,
        _ => true,
    }
}

/// The device to capture from. What discovery came to counts only where no name is given.
pub fn resolve_device(
    sink: &AudioSink,
    discovered: Result<Devices, ListenerError>,
) -> (device: Result<String, ListenerError>)
    ensures
        match sink.given() {
            Some(name) => device matches Ok(d) && d@ == name,
            None => match discovered {
                Ok(devices) => device matches Ok(d) && d@ == sink.pick(devices),
                Err(e) => device == Err::<String, ListenerError>(e),
            },
        },
{
    match sink {
        AudioSink::Input(InputSink::Custom(name)) => Ok(name.clone()),
        AudioSink::Output(OutputSink::Custom(name)) => Ok(name.clone()),
        AudioSink::Input(InputSink::Default) => match discovered {
            Ok(devices) => Ok(devices.mic_source),
            Err(e) => Err(e),
        },
        AudioSink::Output(OutputSink::Default) => match discovered {
            Ok(devices) => Ok(devices.system_monitor),
            Err(e) => Err(e),
        },
    }
}

/// The label of the capture stream.
pub fn sink_label(sink: &AudioSink) -> (label: &'static str)
    ensures
        label@ == (match sink {
            AudioSink::Input(_) => "kitetsu-transcribe-input"@,
            AudioSink::Output(_) => "kitetsu-transcribe-output"@,
        }),
{
    match sink {
        AudioSink::Input(_) => "kitetsu-transcribe-input",
        AudioSink::Output(_) => "kitetsu-transcribe-output",
    }
}

/// A name that is given is the name that counts, for either direction; without one the
/// defaults decide, the microphone's for input and the monitor's for output.
pub proof fn law_given_name_counts(name: String, devices: Devices)
    ensures
        AudioSink::Input(InputSink::Custom(name)).given() == Some(name@),
        AudioSink::Output(OutputSink::Custom(name)).given() == Some(name@),
        AudioSink::Input(InputSink::Default).given() is None,
        AudioSink::Output(OutputSink::Default).given() is None,
        AudioSink::Input(InputSink::Default).pick(devices) == devices.mic_source@,
        AudioSink::Output(OutputSink::Default).pick(devices) == devices.system_monitor@,
{
}

} // verus!
