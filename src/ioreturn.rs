//! IOKit return codes of the device-interface backend: their names, and how
//! an open attempt's code steers the retry policy.
use vstd::prelude::*;
use crate::retry::OpenOutcome;

verus! {

pub const K_IO_RETURN_SUCCESS: u32 = 0;

/// The device is open in another process.
pub const K_IO_RETURN_EXCLUSIVE_ACCESS: u32 = 0xE00002C5;

pub const K_IO_RETURN_BUSY: u32 = 0xE00002D5;

pub const K_IO_RETURN_NOT_FOUND: u32 = 0xE00002F0;

/// The name of an IOKit error code, `None` for any other code (success
/// included).
pub open spec fn io_return_name_of(code: u32) -> Option<&'static str> {
    if code == 0xE00002BC {
        Some("kIOReturnError")
    } else if code == 0xE00002BD {
        Some("kIOReturnNoMemory")
    } else if code == 0xE00002BE {
        Some("kIOReturnNoResources")
    } else if code == 0xE00002BF {
        Some("kIOReturnIPCError")
    } else if code == 0xE00002C0 {
        Some("kIOReturnNoDevice")
    } else if code == 0xE00002C1 {
        Some("kIOReturnNotPrivileged")
    } else if code == 0xE00002C2 {
        Some("kIOReturnBadArgument")
    } else if code == 0xE00002C3 {
        Some("kIOReturnLockedRead")
    } else if code == 0xE00002C4 {
        Some("kIOReturnLockedWrite")
    } else if code == 0xE00002C5 {
        Some("kIOReturnExclusiveAccess")
    } else if code == 0xE00002C6 {
        Some("kIOReturnBadMessageID")
    } else if code == 0xE00002C7 {
        Some("kIOReturnUnsupported")
    } else if code == 0xE00002C8 {
        Some("kIOReturnVMError")
    } else if code == 0xE00002C9 {
        Some("kIOReturnInternalError")
    } else if code == 0xE00002CA {
        Some("kIOReturnIOError")
    } else if code == 0xE00002CC {
        Some("kIOReturnCannotLock")
    } else if code == 0xE00002CD {
        Some("kIOReturnNotOpen")
    } else if code == 0xE00002CE {
        Some("kIOReturnNotReadable")
    } else if code == 0xE00002CF {
        Some("kIOReturnNotWritable")
    } else if code == 0xE00002D0 {
        Some("kIOReturnNotAligned")
    } else if code == 0xE00002D1 {
        Some("kIOReturnBadMedia")
    } else if code == 0xE00002D2 {
        Some("kIOReturnStillOpen")
    } else if code == 0xE00002D3 {
        Some("kIOReturnRLDError")
    } else if code == 0xE00002D4 {
        Some("kIOReturnDMAError")
    } else if code == 0xE00002D5 {
        Some("kIOReturnBusy")
    } else if code == 0xE00002D6 {
        Some("kIOReturnTimeout")
    } else if code == 0xE00002D7 {
        Some("kIOReturnOffline")
    } else if code == 0xE00002D8 {
        Some("kIOReturnNotReady")
    } else if code == 0xE00002D9 {
        Some("kIOReturnNotAttached")
    } else if code == 0xE00002DA {
        Some("kIOReturnNoChannels")
    } else if code == 0xE00002DB {
        Some("kIOReturnNoSpace")
    } else if code == 0xE00002DD {
        Some("kIOReturnPortExists")
    } else if code == 0xE00002DE {
        Some("kIOReturnCannotWire")
    } else if code == 0xE00002DF {
        Some("kIOReturnNoInterrupt")
    } else if code == 0xE00002E0 {
        Some("kIOReturnNoFrames")
    } else if code == 0xE00002E1 {
        Some("kIOReturnMessageTooLarge")
    } else if code == 0xE00002E2 {
        Some("kIOReturnNotPermitted")
    } else if code == 0xE00002E3 {
        Some("kIOReturnNoPower")
    } else if code == 0xE00002E4 {
        Some("kIOReturnNoMedia")
    } else if code == 0xE00002E5 {
        Some("kIOReturnUnformattedMedia")
    } else if code == 0xE00002E6 {
        Some("kIOReturnUnsupportedMode")
    } else if code == 0xE00002E7 {
        Some("kIOReturnUnderrun")
    } else if code == 0xE00002E8 {
        Some("kIOReturnOverrun")
    } else if code == 0xE00002E9 {
        Some("kIOReturnDeviceError")
    } else if code == 0xE00002EA {
        Some("kIOReturnNoCompletion")
    } else if code == 0xE00002EB {
        Some("kIOReturnAborted")
    } else if code == 0xE00002EC {
        Some("kIOReturnNoBandwidth")
    } else if code == 0xE00002ED {
        Some("kIOReturnNotResponding")
    } else if code == 0xE00002EE {
        Some("kIOReturnIsoTooOld")
    } else if code == 0xE00002EF {
        Some("kIOReturnIsoTooNew")
    } else if code == 0xE00002F0 {
        Some("kIOReturnNotFound")
    } else if code == 0xE0000001 {
        Some("kIOReturnInvalid")
    } else {
        None
    }
}

/// The name of an IOKit error code.
pub fn io_return_name(code: u32) -> (r: Option<&'static str>)
    ensures
        r == io_return_name_of(code),
{
    if code == 0xE00002BC {
        Some("kIOReturnError")
    } else if code == 0xE00002BD {
        Some("kIOReturnNoMemory")
    } else if code == 0xE00002BE {
        Some("kIOReturnNoResources")
    } else if code == 0xE00002BF {
        Some("kIOReturnIPCError")
    } else if code == 0xE00002C0 {
        Some("kIOReturnNoDevice")
    } else if code == 0xE00002C1 {
        Some("kIOReturnNotPrivileged")
    } else if code == 0xE00002C2 {
        Some("kIOReturnBadArgument")
    } else if code == 0xE00002C3 {
        Some("kIOReturnLockedRead")
    } else if code == 0xE00002C4 {
        Some("kIOReturnLockedWrite")
    } else if code == 0xE00002C5 {
        Some("kIOReturnExclusiveAccess")
    } else if code == 0xE00002C6 {
        Some("kIOReturnBadMessageID")
    } else if code == 0xE00002C7 {
        Some("kIOReturnUnsupported")
    } else if code == 0xE00002C8 {
        Some("kIOReturnVMError")
    } else if code == 0xE00002C9 {
        Some("kIOReturnInternalError")
    } else if code == 0xE00002CA {
        Some("kIOReturnIOError")
    } else if code == 0xE00002CC {
        Some("kIOReturnCannotLock")
    } else if code == 0xE00002CD {
        Some("kIOReturnNotOpen")
    } else if code == 0xE00002CE {
        Some("kIOReturnNotReadable")
    } else if code == 0xE00002CF {
        Some("kIOReturnNotWritable")
    } else if code == 0xE00002D0 {
        Some("kIOReturnNotAligned")
    } else if code == 0xE00002D1 {
        Some("kIOReturnBadMedia")
    } else if code == 0xE00002D2 {
        Some("kIOReturnStillOpen")
    } else if code == 0xE00002D3 {
        Some("kIOReturnRLDError")
    } else if code == 0xE00002D4 {
        Some("kIOReturnDMAError")
    } else if code == 0xE00002D5 {
        Some("kIOReturnBusy")
    } else if code == 0xE00002D6 {
        Some("kIOReturnTimeout")
    } else if code == 0xE00002D7 {
        Some("kIOReturnOffline")
    } else if code == 0xE00002D8 {
        Some("kIOReturnNotReady")
    } else if code == 0xE00002D9 {
        Some("kIOReturnNotAttached")
    } else if code == 0xE00002DA {
        Some("kIOReturnNoChannels")
    } else if code == 0xE00002DB {
        Some("kIOReturnNoSpace")
    } else if code == 0xE00002DD {
        Some("kIOReturnPortExists")
    } else if code == 0xE00002DE {
        Some("kIOReturnCannotWire")
    } else if code == 0xE00002DF {
        Some("kIOReturnNoInterrupt")
    } else if code == 0xE00002E0 {
        Some("kIOReturnNoFrames")
    } else if code == 0xE00002E1 {
        Some("kIOReturnMessageTooLarge")
    } else if code == 0xE00002E2 {
        Some("kIOReturnNotPermitted")
    } else if code == 0xE00002E3 {
        Some("kIOReturnNoPower")
    } else if code == 0xE00002E4 {
        Some("kIOReturnNoMedia")
    } else if code == 0xE00002E5 {
        Some("kIOReturnUnformattedMedia")
    } else if code == 0xE00002E6 {
        Some("kIOReturnUnsupportedMode")
    } else if code == 0xE00002E7 {
        Some("kIOReturnUnderrun")
    } else if code == 0xE00002E8 {
        Some("kIOReturnOverrun")
    } else if code == 0xE00002E9 {
        Some("kIOReturnDeviceError")
    } else if code == 0xE00002EA {
        Some("kIOReturnNoCompletion")
    } else if code == 0xE00002EB {
        Some("kIOReturnAborted")
    } else if code == 0xE00002EC {
        Some("kIOReturnNoBandwidth")
    } else if code == 0xE00002ED {
        Some("kIOReturnNotResponding")
    } else if code == 0xE00002EE {
        Some("kIOReturnIsoTooOld")
    } else if code == 0xE00002EF {
        Some("kIOReturnIsoTooNew")
    } else if code == 0xE00002F0 {
        Some("kIOReturnNotFound")
    } else if code == 0xE0000001 {
        Some("kIOReturnInvalid")
    } else {
        None
    }
}

/// Names of the IOKit error codes, in ascending order of code but for the
/// generic "invalid" code, which comes last.
pub struct IoReturnNames {
    pub entries: Vec<(u32, &'static str)>,
}

/// Codes `0xE00002BC..=0xE00002F0` and `0xE0000001`, the range in which all
/// IOKit error codes lie.
pub open spec fn io_return_candidate(i: int) -> u32 {
    if i < 0x35 {
        (0xE00002BC + i) as u32
    } else {
        0xE0000001u32
    }
}

/// Position of a code among the candidates of `io_return_candidate`.
pub open spec fn candidate_index(code: u32) -> int {
    if code == 0xE0000001 {
        0x35
    } else {
        code - 0xE00002BC
    }
}

/// Builds the table of IOKit error names, each code once.
pub fn init_ior_errors() -> (r: IoReturnNames)
    ensures
        forall|i: int|
            0 <= i < r.entries@.len() ==> io_return_name_of(r.entries@[i].0) == Some(
                #[trigger] r.entries@[i].1,
            ),
        forall|code: u32|
            io_return_name_of(code) is Some ==> exists|i: int|
                0 <= i < r.entries@.len() && #[trigger] r.entries@[i].0 == code,
        forall|a: int, b: int| 0 <= a < b < r.entries@.len() ==> r.entries@[a].0 != r.entries@[b].0,
{
    let mut entries: Vec<(u32, &'static str)> = Vec::new();
    let mut i: u32 = 0;
    while i <= 0x35
        invariant
            i <= 0x36,
            forall|j: int|
                0 <= j < entries@.len() ==> io_return_name_of(entries@[j].0) == Some(#[trigger] entries@[j].1),
            forall|k: int|
                0 <= k < i && io_return_name_of(io_return_candidate(k)) is Some ==> exists|j: int|
                    0 <= j < entries@.len() && #[trigger] entries@[j].0 == io_return_candidate(k),
            forall|j: int|
                0 <= j < entries@.len() ==> candidate_index(#[trigger] entries@[j].0) < i
                    && io_return_candidate(candidate_index(entries@[j].0)) == entries@[j].0,
            forall|a: int, b: int| 0 <= a < b < entries@.len() ==> entries@[a].0 != entries@[b].0,
        decreases 0x36 - i,
    {
        let code: u32 = if i < 0x35 {
            0xE00002BC + i
        } else {
            0xE0000001
        };
        assert(code == io_return_candidate(i as int));
        assert(candidate_index(code) == i);
        let ghost before = entries@;
        match io_return_name(code) {
            Some(name) => {
                entries.push((code, name));
            },
            None => {},
        }
        assert forall|k: int|
            0 <= k < i + 1 && io_return_name_of(io_return_candidate(k)) is Some implies exists|j: int|
                0 <= j < entries@.len() && #[trigger] entries@[j].0 == io_return_candidate(k) by {
            if k < i {
                let j = choose|j: int| 0 <= j < before.len() && #[trigger] before[j].0 == io_return_candidate(k);
                assert(entries@[j] == before[j]);
            } else {
                assert(entries@[entries@.len() - 1].0 == code);
            }
        }
        i = i + 1;
    }
    assert forall|code: u32| io_return_name_of(code) is Some implies exists|j: int|
        0 <= j < entries@.len() && #[trigger] entries@[j].0 == code by {
        if code == 0xE0000001 {
            assert(io_return_candidate(0x35) == code);
        } else {
            assert(io_return_candidate(code - 0xE00002BC) == code);
        }
    }
    IoReturnNames { entries }
}

impl IoReturnNames {
    /// The name recorded for `code`, or "Unknown".
    pub fn describe(&self, code: u32) -> (r: &'static str)
        ensures
            (exists|i: int| 0 <= i < self.entries@.len() && #[trigger] self.entries@[i].0 == code) ==> exists|i: int|
                0 <= i < self.entries@.len() && self.entries@[i].0 == code && r == self.entries@[i].1
                    && forall|j: int| 0 <= j < i ==> #[trigger] self.entries@[j].0 != code,
            (forall|i: int| 0 <= i < self.entries@.len() ==> #[trigger] self.entries@[i].0 != code) ==> r
                == "Unknown",
    {
        let mut i: usize = 0;
        while i < self.entries.len()
            invariant
                i <= self.entries@.len(),
                forall|j: int| 0 <= j < i ==> #[trigger] self.entries@[j].0 != code,
            decreases self.entries@.len() - i,
        {
            if self.entries[i].0 == code {
                return self.entries[i].1;
            }
            i = i + 1;
        }
        "Unknown"
    }
}

/// How the result code of an open attempt steers the retry policy: success
/// opens, exclusive access is retried, anything else fails.
pub fn open_outcome_of(code: u32) -> (r: OpenOutcome)
    ensures
        r == (if code == K_IO_RETURN_SUCCESS {
            OpenOutcome::Opened
        } else if code == K_IO_RETURN_EXCLUSIVE_ACCESS {
            OpenOutcome::ExclusiveAccess
        } else {
            OpenOutcome::Failed
        }),
{
    if code == K_IO_RETURN_SUCCESS {
        OpenOutcome::Opened
    } else if code == K_IO_RETURN_EXCLUSIVE_ACCESS {
        OpenOutcome::ExclusiveAccess
    } else {
        OpenOutcome::Failed
    }
}

} // verus!
