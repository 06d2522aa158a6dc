//! Selection of the capture target: which interface a capture run reads,
//! decided from the command-line arguments and the interfaces the
//! platform reports. Every error here is fatal to a capture run.

use vstd::prelude::*;
use crate::classify::{classifier_line, spec_classify, spec_tcp_line, Classification};
use crate::lister::Interface;

verus! {

/// Why a capture run cannot start.
#[derive(Clone, Copy, PartialEq, Eq, Structural, Debug)]
pub enum CaptureError {
    /// No interface name was given: the arguments hold nothing after the
    /// program name.
    MissingInterfaceName,
    /// No interface bears the given name.
    UnknownInterface,
}

/// Picks the interface to capture on: the first one whose name equals the
/// first argument after the program name. Without that argument the
/// selection fails before anything else is looked at; with it, it fails
/// exactly when no interface matches.
pub fn select_interface(args: &Vec<String>, ifaces: &Vec<Interface>) -> (r: Result<
    usize,
    CaptureError,
>)
    ensures
        (r == Result::<usize, CaptureError>::Err(CaptureError::MissingInterfaceName)) <==> args@.len()
            < 2,
        (r == Result::<usize, CaptureError>::Err(CaptureError::UnknownInterface)) <==> (args@.len()
            >= 2 && (forall|j: int| 0 <= j < ifaces@.len() ==> ifaces@[j].name@ != args@[1]@)),
        r matches Ok(i) ==> args@.len() >= 2 && i < ifaces@.len() && ifaces@[i as int].name@
            == args@[1]@ && (forall|j: int| 0 <= j < i ==> ifaces@[j].name@ != args@[1]@),
{
    if args.len() < 2 {
        return Err(CaptureError::MissingInterfaceName);
    }
    let wanted = &args[1];
    let n = ifaces.len();
    for k in 0..n
        invariant
            n == ifaces@.len(),
            args@.len() >= 2,
            wanted@ == args@[1]@,
            forall|j: int| 0 <= j < k ==> ifaces@[j].name@ != args@[1]@,
    {
        if ifaces[k].name == *wanted {
            return Ok(k);
        }
    }
    Err(CaptureError::UnknownInterface)
}

/// What one turn of the capture loop does, decided between reads.
#[derive(Debug, PartialEq)]
pub enum CaptureStep {
    /// The stop token was raised: the loop ends, and nothing else is
    /// looked at.
    Stop,
    /// The read failed. Fatal: the run is over.
    ReadFailed,
    /// The frame is shorter than an Ethernet header. Fatal: the run is
    /// over.
    ShortFrame,
    /// The line to print for the frame.
    Print(String),
    /// A malformed frame, dropped without a word.
    Silent,
}

/// Decides one turn of the capture loop from the stop token and from what
/// the read returned. A raised token ends the loop before anything else
/// is looked at; a failed read and a frame too short for an Ethernet
/// header are fatal; every other frame is classified, yielding its line
/// or a wordless drop.
pub fn capture_step(stop_requested: bool, read: Option<&[u8]>) -> (r: CaptureStep)
    ensures
        stop_requested <==> r is Stop,
        !stop_requested ==> match read {
            Option::None => r is ReadFailed,
            Option::Some(frame) => (if frame@.len() < 14 {
                r is ShortFrame
            } else {
                match spec_classify(frame@) {
                    Classification::Tcp { src, src_port, dst, dst_port } => (r matches CaptureStep::Print(
                        line,
                    ) && line@ == spec_tcp_line(src, src_port, dst, dst_port)),
                    Classification::NonTcp => (r matches CaptureStep::Print(line) && line@
                        == "Ignoring non TCP packet"@),
                    Classification::NonIpv4 => (r matches CaptureStep::Print(line) && line@
                        == "Ignoring non IPv4 packet"@),
                    Classification::Dropped => r is Silent,
                }
            }),
        },
{
    if stop_requested {
        return CaptureStep::Stop;
    }
    match read {
        None => CaptureStep::ReadFailed,
        Some(frame) => {
            if frame.len() < 14 {
                CaptureStep::ShortFrame
            } else {
                match classifier_line(frame) {
                    Some(line) => CaptureStep::Print(line),
                    None => CaptureStep::Silent,
                }
            }
        },
    }
}

} // verus!
