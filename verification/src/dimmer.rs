//! The potentiometer-driven dimmer: a 10-bit analog sample becomes an 8-bit
//! duty, and a zero duty switches the outputs off instead of driving them.

use vstd::prelude::*;

verus! {

/// What the dimmer loop does with one sample: switch the three outputs off,
/// or enable them and drive the same duty onto each.
#[derive(Clone, Copy, Debug, PartialEq, Eq, Structural)]
pub enum DimmerCommand {
    Off,
    On { duty: u8 },
}

/// The command one sample asks for: `Off` exactly when the scaled duty is
/// zero, otherwise the outputs enabled at that duty.
pub open spec fn dimmer_spec(sample: u16) -> DimmerCommand {
    if sample / 4 == 0 {
        DimmerCommand::Off
    } else {
        DimmerCommand::On { duty: (sample / 4) as u8 }
    }
}

/// Scales a 10-bit analog sample to an 8-bit duty by integer division by
/// four. This duty is also what the telemetry line reports.
pub fn scale_sample(sample: u16) -> (duty: u8)
    requires
        sample < 1024,
    ensures
        duty == sample / 4,
{
    (sample / 4) as u8
}

/// Decides what one loop iteration drives onto the outputs.
pub fn dimmer_command(sample: u16) -> (c: DimmerCommand)
    requires
        sample < 1024,
    ensures
        c == dimmer_spec(sample),
        c == DimmerCommand::Off <==> sample < 4,
{
    let duty = scale_sample(sample);
    if duty == 0 {
        DimmerCommand::Off
    } else {
        DimmerCommand::On { duty }
    }
}

} // verus!
