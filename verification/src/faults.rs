//! The fault policy: two mutually exclusive protocol fault handlers sharing
//! one slot, and the single-owner handshake that swaps between them.
//!
//! During the handshake window the detection handler treats an
//! access-denied fault on the root input selection as proof that another
//! manager already owns the display, recording it in a flag that the caller
//! reads right after the forced synchronization.  Afterwards the steady-state
//! handler merely reports faults: no single protocol error may terminate the
//! process, so every handler returns the neutral code.

use vstd::prelude::*;

use crate::errors::WmError;

verus! {

/// The protocol error code meaning "resource already in use / access denied".
pub const ACCESS_DENIED_CODE: u8 = 10;

/// The neutral code a fault handler must return so the protocol library
/// carries on.
pub const NEUTRAL_CODE: i32 = 0;

/// Which fault handler owns the shared slot.
#[derive(Clone, Copy, PartialEq, Eq, Structural, Debug)]
pub enum HandlerMode {
    /// The narrow handshake window at startup.
    Detection,
    /// The remainder of the process lifetime.
    Steady,
}

/// What a fault handler asks the caller to log: the error code, the
/// originating request class, and the resource identifier involved.
#[derive(Clone, Copy, PartialEq, Eq, Structural, Debug)]
pub struct FaultRecord {
    pub error_code: u8,
    pub request_code: u8,
    pub resource_id: u64,
}

/// The process-wide fault handling state: the active handler and the
/// "another manager detected" flag, written only while handling a fault in
/// detection mode and read only by `finish_handshake`.
#[derive(Clone, Copy, PartialEq, Eq, Structural, Debug)]
pub struct FaultPolicy {
    pub mode: HandlerMode,
    pub detected: bool,
}

/// The fault policy after one fault is handled: in detection mode an
/// access-denied code sets the flag; nothing else ever changes the state.
pub open spec fn spec_after_fault(p: FaultPolicy, error_code: u8) -> FaultPolicy {
    match p.mode {
        HandlerMode::Detection => FaultPolicy {
            mode: HandlerMode::Detection,
            detected: p.detected || error_code == ACCESS_DENIED_CODE,
        },
        HandlerMode::Steady => p,
    }
}

/// The fault policy after a whole sequence of faults is handled.
pub open spec fn spec_after_faults(p: FaultPolicy, codes: Seq<u8>) -> FaultPolicy
    decreases codes.len(),
{
    if codes.len() == 0 {
        p
    } else {
        spec_after_fault(spec_after_faults(p, codes.drop_last()), codes.last())
    }
}

impl FaultPolicy {
    /// Begin the handshake: reset the flag and install the detection handler.
    pub fn new() -> (r: Self)
        ensures
            r.mode == HandlerMode::Detection,
            !r.detected,
    {
        FaultPolicy { mode: HandlerMode::Detection, detected: false }
    }

    /// Handle one server-reported fault.  Always returns the neutral code:
    /// aborting inside a fault handler is forbidden, and in steady state no
    /// single protocol error may terminate the process.
    ///
    /// The second component is what the caller must log: in steady state
    /// every fault, in detection mode only a code other than access denied
    /// (a defect in the narrow handshake window, not to be swallowed
    /// silently).
    pub fn on_fault(&mut self, error_code: u8, request_code: u8, resource_id: u64) -> (r: (
        i32,
        Option<FaultRecord>,
    ))
        ensures
            *final(self) == spec_after_fault(*old(self), error_code),
            r.0 == NEUTRAL_CODE,
            r.1 == match old(self).mode {
                HandlerMode::Detection => if error_code != ACCESS_DENIED_CODE {
                    Some(FaultRecord { error_code, request_code, resource_id })
                } else {
                    None::<FaultRecord>
                },
                HandlerMode::Steady => Some(FaultRecord { error_code, request_code, resource_id }),
            },
    {
        match self.mode {
            HandlerMode::Detection => {
                if error_code == ACCESS_DENIED_CODE {
                    self.detected = true;
                    (NEUTRAL_CODE, None)
                } else {
                    (
                        NEUTRAL_CODE,
                        Some(FaultRecord { error_code, request_code, resource_id }),
                    )
                }
            },
            HandlerMode::Steady => {
                (NEUTRAL_CODE, Some(FaultRecord { error_code, request_code, resource_id }))
            },
        }
    }

    /// Read the flag right after the forced synchronization.  When another
    /// manager was detected, startup must abort; otherwise the steady-state
    /// handler takes the slot and the manager proceeds.
    pub fn finish_handshake(&mut self) -> (r: Result<(), WmError>)
        requires
            old(self).mode == HandlerMode::Detection,
        ensures
            r == if old(self).detected {
                Err::<(), WmError>(WmError::AnotherManagerPresent)
            } else {
                Ok::<(), WmError>(())
            },
            final(self).detected == old(self).detected,
            final(self).mode == if old(self).detected {
                HandlerMode::Detection
            } else {
                HandlerMode::Steady
            },
    {
        if self.detected {
            Err(WmError::AnotherManagerPresent)
        } else {
            self.mode = HandlerMode::Steady;
            Ok(())
        }
    }
}

/// The detection handshake, over any sequence of faults delivered inside its
/// window: the flag is set exactly when some fault carried the access-denied
/// code, and the mode is still detection when the flag is then read.
pub proof fn lemma_handshake_detects(codes: Seq<u8>)
    ensures
        ({
            let p = spec_after_faults(
                FaultPolicy { mode: HandlerMode::Detection, detected: false },
                codes,
            );
            &&& p.mode == HandlerMode::Detection
            &&& p.detected <==> exists|i: int| 0 <= i < codes.len() && codes[i] == ACCESS_DENIED_CODE
        }),
{
    lemma_detection_preserved(FaultPolicy { mode: HandlerMode::Detection, detected: false }, codes);
}

/// In detection mode, a fault sequence leaves the mode alone and the flag is
/// its old value or-ed with "some code was access denied".
proof fn lemma_detection_preserved(p: FaultPolicy, codes: Seq<u8>)
    requires
        p.mode == HandlerMode::Detection,
    ensures
        spec_after_faults(p, codes).mode == HandlerMode::Detection,
        spec_after_faults(p, codes).detected <==> (p.detected || exists|i: int|
            0 <= i < codes.len() && codes[i] == ACCESS_DENIED_CODE),
    decreases codes.len(),
{
    if codes.len() > 0 {
        lemma_detection_preserved(p, codes.drop_last());
        let q = spec_after_faults(p, codes.drop_last());
        if q.detected && !p.detected {
            let i = choose|i: int|
                0 <= i < codes.drop_last().len() && codes.drop_last()[i] == ACCESS_DENIED_CODE;
            assert(codes[i] == ACCESS_DENIED_CODE);
        }
        if codes.last() == ACCESS_DENIED_CODE {
            assert(codes[codes.len() - 1] == ACCESS_DENIED_CODE);
        }
        if !q.detected && codes.last() != ACCESS_DENIED_CODE {
            if exists|i: int| 0 <= i < codes.len() && codes[i] == ACCESS_DENIED_CODE {
                let i = choose|i: int| 0 <= i < codes.len() && codes[i] == ACCESS_DENIED_CODE;
                assert(i < codes.len() - 1);
                assert(codes.drop_last()[i] == ACCESS_DENIED_CODE);
            }
        }
    }
}

/// In steady state a fault changes nothing: the handler only reports, and the
/// loop reads the next event undisturbed.
pub proof fn lemma_steady_faults_absorbed(p: FaultPolicy, codes: Seq<u8>)
    requires
        p.mode == HandlerMode::Steady,
    ensures
        spec_after_faults(p, codes) == p,
    decreases codes.len(),
{
    if codes.len() > 0 {
        lemma_steady_faults_absorbed(p, codes.drop_last());
    }
}

} // verus!
