use vstd::prelude::*;

verus! {

/// The SDK's return code (`T_DjiReturnCode`, a 64-bit unsigned integer in C).
#[allow(non_camel_case_types)]
pub type T_DjiReturnCode = u64;

/// The return code by which the SDK and its callbacks report success.
pub const DJI_ERROR_SYSTEM_MODULE_CODE_SUCCESS: T_DjiReturnCode = 0x0000_0000;

/// The return code for a failure that has no more precise code.
pub const DJI_ERROR_SYSTEM_MODULE_CODE_UNKNOWN: T_DjiReturnCode = 0x0000_00FF;

/// What `check` gives for a return code: success, or the failing code itself.
pub open spec fn check_spec(err: T_DjiReturnCode) -> Result<(), T_DjiReturnCode> {
    if err == DJI_ERROR_SYSTEM_MODULE_CODE_SUCCESS {
        Ok(())
    } else {
        Err(err)
    }
}

/// Tells a successful return code of the SDK from a failing one; the failing
/// code is handed back so that the caller can report it.
pub fn check(err: T_DjiReturnCode) -> (r: Result<(), T_DjiReturnCode>)
    ensures
        r == check_spec(err),
        r is Ok <==> err == DJI_ERROR_SYSTEM_MODULE_CODE_SUCCESS,
        r matches Err(e) ==> e == err,
{
    if err != DJI_ERROR_SYSTEM_MODULE_CODE_SUCCESS {
        Err(err)
    } else {
        Ok(())
    }
}

/// Only success passes the check: for every return code, `check_spec`
/// accepts it exactly when it is the success code, and reports every other
/// code as a failure carrying that very code.
pub proof fn lemma_check_reports_every_failure(err: T_DjiReturnCode)
    ensures
        check_spec(err) is Ok <==> err == DJI_ERROR_SYSTEM_MODULE_CODE_SUCCESS,
        err != DJI_ERROR_SYSTEM_MODULE_CODE_SUCCESS ==> check_spec(err) == Err::<(), T_DjiReturnCode>(
            err,
        ),
{
}

} // verus!
