//! Preparing the system environment: the local log is opened, then the
//! port's handlers and consoles are handed to the SDK one at a time, in a
//! fixed order, and the first failure stops the preparation with its return
//! code.

use vstd::prelude::*;
use crate::return_code::{T_DjiReturnCode, DJI_ERROR_SYSTEM_MODULE_CODE_SUCCESS, check, check_spec};

verus! {

/// One step of the preparation: opening the local log, or a registration
/// with the SDK.
#[derive(Clone, Copy, Debug, PartialEq, Eq, Structural)]
pub enum SetupStep {
    /// `local_log_init`: opens the log file of this start, before anything is
    /// registered, so that the local record console finds it open.
    OpenLocalLog,
    /// `DjiPlatform_RegOsalHandler` with the OSAL handler.
    RegisterOsalHandler,
    /// `DjiPlatform_RegHalUartHandler` with the UART handler.
    RegisterHalUartHandler,
    /// `DjiLogger_AddConsole` with the printing console.
    AddPrintConsole,
    /// `DjiLogger_AddConsole` with the local record console.
    AddLocalRecordConsole,
    /// `DjiPlatform_RegHalNetworkHandler` with the network handler.
    RegisterHalNetworkHandler,
    /// `DjiPlatform_RegSocketHandler` with the socket handler.
    RegisterSocketHandler,
    /// `DjiPlatform_RegFileSystemHandler` with the file system handler.
    RegisterFileSystemHandler,
}

/// How many steps the preparation takes.
pub const SETUP_STEP_COUNT: usize = 8;

/// The order of the steps: the local log first, then the registrations.
pub open spec fn setup_order() -> Seq<SetupStep> {
    seq![
        SetupStep::OpenLocalLog,
        SetupStep::RegisterOsalHandler,
        SetupStep::RegisterHalUartHandler,
        SetupStep::AddPrintConsole,
        SetupStep::AddLocalRecordConsole,
        SetupStep::RegisterHalNetworkHandler,
        SetupStep::RegisterSocketHandler,
        SetupStep::RegisterFileSystemHandler,
    ]
}

/// The state of the preparation: how many steps succeeded, and the return
/// code of the one that failed, if one did.
pub type SetupState = (nat, Option<T_DjiReturnCode>);

/// The step to take next, if any: none once all succeeded or one failed.
pub open spec fn next_step_spec(state: SetupState) -> Option<SetupStep> {
    if state.1 is None && state.0 < SETUP_STEP_COUNT {
        Some(setup_order()[state.0 as int])
    } else {
        None
    }
}

/// The state after the pending step ended with `code`; where nothing was
/// pending the state stays as it is.
pub open spec fn setup_next(state: SetupState, code: T_DjiReturnCode) -> SetupState {
    if next_step_spec(state) is None {
        state
    } else if code == DJI_ERROR_SYSTEM_MODULE_CODE_SUCCESS {
        (state.0 + 1, None)
    } else {
        (state.0, Some(code))
    }
}

/// The state after the steps ended with `codes`, one after another.
pub open spec fn setup_run(codes: Seq<T_DjiReturnCode>) -> SetupState
    decreases codes.len(),
{
    if codes.len() == 0 {
        (0, None)
    } else {
        setup_next(setup_run(codes.drop_last()), codes.last())
    }
}

/// The preparation has taken every step, and each succeeded.
pub open spec fn setup_done(state: SetupState) -> bool {
    state.0 == SETUP_STEP_COUNT && state.1 is None
}

/// The progress of the preparation of the system environment.
pub struct SystemSetup {
    completed: usize,
    failure: Option<T_DjiReturnCode>,
}

impl View for SystemSetup {
    type V = SetupState;

    closed spec fn view(&self) -> SetupState {
        (self.completed as nat, self.failure)
    }
}

impl SystemSetup {
    /// Every state of the preparation: no more steps than there are, and
    /// none after a failure.
    pub closed spec fn wf(&self) -> bool {
        &&& self.completed <= SETUP_STEP_COUNT
        &&& self.failure is Some ==> self.completed < SETUP_STEP_COUNT
    }

    /// A preparation that has taken no step yet.
    pub fn new() -> (s: Self)
        ensures
            s.wf(),
            s@ == setup_run(Seq::empty()),
    {
        SystemSetup { completed: 0, failure: None }
    }

    /// The step to take next; none once all succeeded or one failed.
    pub fn next_step(&self) -> (r: Option<SetupStep>)
        requires
            self.wf(),
        ensures
            r == next_step_spec(self@),
    {
        if self.failure.is_some() || self.completed >= SETUP_STEP_COUNT {
            return None;
        }
        let step = match self.completed {
            0 => SetupStep::OpenLocalLog,
            1 => SetupStep::RegisterOsalHandler,
            2 => SetupStep::RegisterHalUartHandler,
            3 => SetupStep::AddPrintConsole,
            4 => SetupStep::AddLocalRecordConsole,
            5 => SetupStep::RegisterHalNetworkHandler,
            6 => SetupStep::RegisterSocketHandler,
            _ => SetupStep::RegisterFileSystemHandler,
        };
        Some(step)
    }

    /// Records how the pending step ended (the SDK's answer to a
    /// registration; success for an opened log), and tells, as `check` does,
    /// whether it succeeded or with which code it failed.
    pub fn record_result(&mut self, code: T_DjiReturnCode) -> (r: Result<(), T_DjiReturnCode>)
        requires
            old(self).wf(),
            next_step_spec(old(self)@) is Some,
        ensures
            final(self).wf(),
            final(self)@ == setup_next(old(self)@, code),
            r == check_spec(code),
            r is Ok <==> code == DJI_ERROR_SYSTEM_MODULE_CODE_SUCCESS,
            r matches Err(e) ==> e == code,
            r is Ok <==> (final(self)@.0 == old(self)@.0 + 1 && final(self)@.1 is None),
            r is Err ==> final(self)@ == (old(self)@.0, Some(code)),
    {
        let r = check(code);
        match r {
            Ok(()) => {
                self.completed = self.completed + 1;
            },
            Err(e) => {
                self.failure = Some(e);
            },
        }
        r
    }

    /// Whether every step has been taken and succeeded.
    pub fn is_done(&self) -> (r: bool)
        requires
            self.wf(),
        ensures
            r == setup_done(self@),
    {
        self.failure.is_none() && self.completed == SETUP_STEP_COUNT
    }

    /// The return code of the step that failed, if one did.
    pub fn failure(&self) -> (r: Option<T_DjiReturnCode>)
        ensures
            r == self@.1,
    {
        self.failure
    }
}

/// The preparation succeeds exactly when each of its eight steps succeeds:
/// after any outcomes `codes`, every step has been taken and succeeded if
/// and only if the first eight outcomes are successes.
pub proof fn lemma_setup_done_iff_all_accepted(codes: Seq<T_DjiReturnCode>)
    ensures
        setup_done(setup_run(codes)) <==> (codes.len() >= SETUP_STEP_COUNT && forall|i: int|
            0 <= i < SETUP_STEP_COUNT ==> codes[i] == DJI_ERROR_SYSTEM_MODULE_CODE_SUCCESS),
    decreases codes.len(),
{
    lemma_setup_run_shape(codes);
}

/// The shape of the state after the answers `codes`: where the first
/// `SETUP_STEP_COUNT` answers hold no failure, it counts the successes
/// among them; where they hold one, it stops at the first failure and keeps
/// its code.
pub proof fn lemma_setup_run_shape(codes: Seq<T_DjiReturnCode>)
    ensures
        ({
            let n = if codes.len() < SETUP_STEP_COUNT {
                codes.len() as int
            } else {
                SETUP_STEP_COUNT as int
            };
            let state = setup_run(codes);
            &&& state.0 <= n
            &&& forall|i: int| 0 <= i < state.0 ==> codes[i] == DJI_ERROR_SYSTEM_MODULE_CODE_SUCCESS
            &&& state.1 is None ==> state.0 == n
            &&& state.1 matches Some(c) ==> state.0 < n && c == codes[state.0 as int] && c
                != DJI_ERROR_SYSTEM_MODULE_CODE_SUCCESS
        }),
    decreases codes.len(),
{
    if codes.len() > 0 {
        let prev = codes.drop_last();
        lemma_setup_run_shape(prev);
        assert forall|i: int| 0 <= i < prev.len() implies prev[i] == codes[i] by {}
    }
}

/// The first failure ends the preparation: where the first `i` steps
/// succeeded and step `i` failed with `code`, the preparation stops there
/// with that code, whatever outcomes follow, and takes no further step.
pub proof fn lemma_setup_stops_at_first_refusal(codes: Seq<T_DjiReturnCode>, i: int)
    requires
        0 <= i < codes.len(),
        i < SETUP_STEP_COUNT,
        forall|j: int| 0 <= j < i ==> codes[j] == DJI_ERROR_SYSTEM_MODULE_CODE_SUCCESS,
        codes[i] != DJI_ERROR_SYSTEM_MODULE_CODE_SUCCESS,
    ensures
        setup_run(codes) == (i as nat, Some(codes[i])),
        next_step_spec(setup_run(codes)) is None,
{
    lemma_setup_run_shape(codes);
    let state = setup_run(codes);
    if state.1 is None {
        assert(codes[i] == DJI_ERROR_SYSTEM_MODULE_CODE_SUCCESS);
    } else {
        if state.0 > i {
            assert(codes[i] == DJI_ERROR_SYSTEM_MODULE_CODE_SUCCESS);
        }
        assert(state.0 == i);
    }
}

/// The local log is opened before anything is registered: in every state
/// of the preparation whose next step is a registration, opening the log
/// has been taken and succeeded; and where opening the log fails, the
/// preparation ends with no registration made.
pub proof fn lemma_log_opened_before_registrations(codes: Seq<T_DjiReturnCode>)
    ensures
        next_step_spec(setup_run(codes)) matches Some(step) && step != SetupStep::OpenLocalLog
            ==> setup_run(codes).0 >= 1 && codes[0] == DJI_ERROR_SYSTEM_MODULE_CODE_SUCCESS,
        codes.len() > 0 && codes[0] != DJI_ERROR_SYSTEM_MODULE_CODE_SUCCESS ==> setup_run(codes)
            == (0nat, Some(codes[0])) && next_step_spec(setup_run(codes)) is None,
{
    lemma_setup_run_shape(codes);
    if codes.len() > 0 && codes[0] != DJI_ERROR_SYSTEM_MODULE_CODE_SUCCESS {
        lemma_setup_stops_at_first_refusal(codes, 0);
    }
}

} // verus!
