//! System reset (SBI SRST extension).
//!
//! Both raw parameters of a reset call are validated before a reset backend
//! is queried or invoked. Reset types and reasons follow the RISC-V SBI SRST
//! extension; values reserved by the specification are rejected.
use vstd::prelude::*;
use crate::sbi_ret::SbiRet;

verus! {

/// Shutdown as a reset type.
pub const RESET_TYPE_SHUTDOWN: u32 = 0;

/// Cold reboot as a reset type.
pub const RESET_TYPE_COLD_REBOOT: u32 = 1;

/// Warm reboot as a reset type.
pub const RESET_TYPE_WARM_REBOOT: u32 = 2;

/// No reason as reset reason.
pub const RESET_REASON_NO_REASON: u32 = 0;

/// System failure as reset reason.
pub const RESET_REASON_SYSTEM_FAILURE: u32 = 1;

/// Kind of reset that a request asks for.
#[derive(Debug, Clone, Copy, PartialEq, Eq, Structural)]
pub enum ResetType {
    /// Power down the system.
    Shutdown,
    /// Power cycle the entire system.
    ColdReboot,
    /// Power cycle the main processor and parts of the system.
    WarmReboot,
    /// A vendor or platform specific reset type (`0xf000_0000` and above).
    VendorSpecific(u32),
}

/// Reason given with a reset request.
#[derive(Debug, Clone, Copy, PartialEq, Eq, Structural)]
pub enum ResetReason {
    /// No reason.
    NoReason,
    /// The system failed.
    SystemFailure,
    /// A reason specific to the SBI implementation (`0xe000_0000..=0xefff_ffff`).
    SbiSpecific(u32),
    /// A vendor or platform specific reason (`0xf000_0000` and above).
    VendorSpecific(u32),
}

/// A validated system reset request.
#[derive(Debug, Clone, Copy, PartialEq, Eq, Structural)]
pub struct ResetRequest {
    /// What kind of reset to perform.
    pub reset_type: ResetType,
    /// Why the reset is performed.
    pub reset_reason: ResetReason,
}

/// Why a reset backend returned instead of resetting the system.
#[derive(Debug, Clone, Copy, PartialEq, Eq, Structural)]
pub enum ResetError {
    /// The backend does not support the requested reset.
    NotSupported,
    /// The reset failed.
    Failed,
}

/// Reset type that the raw SRST value `reset_type` denotes, if any.
pub open spec fn spec_reset_type(reset_type: u32) -> Option<ResetType> {
    if reset_type == RESET_TYPE_SHUTDOWN {
        Some(ResetType::Shutdown)
    } else if reset_type == RESET_TYPE_COLD_REBOOT {
        Some(ResetType::ColdReboot)
    } else if reset_type == RESET_TYPE_WARM_REBOOT {
        Some(ResetType::WarmReboot)
    } else if 0xf000_0000 <= reset_type {
        Some(ResetType::VendorSpecific(reset_type))
    } else {
        None
    }
}

/// Reset reason that the raw SRST value `reset_reason` denotes, if any.
pub open spec fn spec_reset_reason(reset_reason: u32) -> Option<ResetReason> {
    if reset_reason == RESET_REASON_NO_REASON {
        Some(ResetReason::NoReason)
    } else if reset_reason == RESET_REASON_SYSTEM_FAILURE {
        Some(ResetReason::SystemFailure)
    } else if 0xe000_0000 <= reset_reason <= 0xefff_ffff {
        Some(ResetReason::SbiSpecific(reset_reason))
    } else if 0xf000_0000 <= reset_reason {
        Some(ResetReason::VendorSpecific(reset_reason))
    } else {
        None
    }
}

/// Request that the raw SRST arguments denote, if both are valid.
pub open spec fn spec_parse_request(reset_type: u32, reset_reason: u32) -> Option<ResetRequest> {
    match (spec_reset_type(reset_type), spec_reset_reason(reset_reason)) {
        (Some(t), Some(r)) => Some(ResetRequest { reset_type: t, reset_reason: r }),
        _ => None,
    }
}

/// SBI return for what a reset backend answered.
pub open spec fn spec_reset_ret(outcome: Option<ResetError>) -> SbiRet {
    match outcome {
        None => SbiRet::spec_invalid_param(),
        Some(ResetError::NotSupported) => SbiRet::spec_not_supported(),
        Some(ResetError::Failed) => SbiRet::spec_failed(),
    }
}

/// Raw SRST value of a reset type.
pub open spec fn reset_type_code(reset_type: ResetType) -> u32 {
    match reset_type {
        ResetType::Shutdown => 0,
        ResetType::ColdReboot => 1,
        ResetType::WarmReboot => 2,
        ResetType::VendorSpecific(code) => code,
    }
}

/// Raw SRST value of a reset reason.
pub open spec fn reset_reason_code(reset_reason: ResetReason) -> u32 {
    match reset_reason {
        ResetReason::NoReason => 0,
        ResetReason::SystemFailure => 1,
        ResetReason::SbiSpecific(code) => code,
        ResetReason::VendorSpecific(code) => code,
    }
}

/// Validation is two independent checks: a pair of raw values is accepted
/// exactly when the type is one of the three standard types or vendor
/// specific (`0xf000_0000` and above), and the reason is one of the two
/// standard reasons or SBI or vendor specific (`0xe000_0000` and above).
pub proof fn law_parse_accepts_exactly_valid_pairs(reset_type: u32, reset_reason: u32)
    ensures
        spec_parse_request(reset_type, reset_reason) is Some <==> ((reset_type <= 2 || 0xf000_0000
            <= reset_type) && (reset_reason <= 1 || 0xe000_0000 <= reset_reason)),
{
}

/// An accepted request encodes back to the raw values it came from: its
/// type has the raw type's code and its reason the raw reason's code.
pub proof fn law_parse_request_round_trips(reset_type: u32, reset_reason: u32)
    ensures
        spec_parse_request(reset_type, reset_reason) matches Some(req) ==> {
            &&& reset_type_code(req.reset_type) == reset_type
            &&& reset_reason_code(req.reset_reason) == reset_reason
        },
{
}

/// The type of an accepted request depends on the raw type alone, and its
/// reason on the raw reason alone.
pub proof fn law_parse_type_and_reason_independent(t1: u32, r1: u32, t2: u32, r2: u32)
    ensures
        spec_parse_request(t1, r1) matches Some(q1) ==> (spec_parse_request(t2, r2) matches Some(
            q2,
        ) ==> {
            &&& (t1 == t2 ==> q1.reset_type == q2.reset_type)
            &&& (r1 == r2 ==> q1.reset_reason == q2.reset_reason)
        }),
{
}

/// A reason in `0xe000_0000..=0xefff_ffff` is SBI specific and one from
/// `0xf000_0000` on is vendor specific; a type from `0xf000_0000` on is
/// vendor specific.
pub proof fn law_parse_vendor_and_sbi_ranges(reset_type: u32, reset_reason: u32)
    ensures
        spec_parse_request(reset_type, reset_reason) matches Some(req) ==> {
            &&& (0xf000_0000 <= reset_type <==> req.reset_type is VendorSpecific)
            &&& (0xe000_0000 <= reset_reason <= 0xefff_ffff <==> req.reset_reason is SbiSpecific)
            &&& (0xf000_0000 <= reset_reason <==> req.reset_reason is VendorSpecific)
        },
{
}

/// Validates both raw parameters before querying or invoking a reset backend.
pub fn parse_request(reset_type: u32, reset_reason: u32) -> (r: Option<ResetRequest>)
    ensures
        r == spec_parse_request(reset_type, reset_reason),
{
    let reset_type = if reset_type == RESET_TYPE_SHUTDOWN {
        ResetType::Shutdown
    } else if reset_type == RESET_TYPE_COLD_REBOOT {
        ResetType::ColdReboot
    } else if reset_type == RESET_TYPE_WARM_REBOOT {
        ResetType::WarmReboot
    } else if 0xf000_0000 <= reset_type {
        ResetType::VendorSpecific(reset_type)
    } else {
        return None;
    };
    let reset_reason = if reset_reason == RESET_REASON_NO_REASON {
        ResetReason::NoReason
    } else if reset_reason == RESET_REASON_SYSTEM_FAILURE {
        ResetReason::SystemFailure
    } else if 0xe000_0000 <= reset_reason && reset_reason <= 0xefff_ffff {
        ResetReason::SbiSpecific(reset_reason)
    } else if 0xf000_0000 <= reset_reason {
        ResetReason::VendorSpecific(reset_reason)
    } else {
        return None;
    };
    Some(ResetRequest { reset_type, reset_reason })
}

/// SBI return for what a reset backend answered: `None` means the backend
/// rejected the request's parameters.
pub fn reset_ret(outcome: Option<ResetError>) -> (r: SbiRet)
    ensures
        r == spec_reset_ret(outcome),
{
    match outcome {
        None => SbiRet::invalid_param(),
        Some(ResetError::NotSupported) => SbiRet::not_supported(),
        Some(ResetError::Failed) => SbiRet::failed(),
    }
}

/// A platform device that can reset the system.
///
/// Implemented by board support code; the firmware only validates requests
/// and reports what the device answered.
pub trait ResetDevice {
    /// Performs `req`. Returns only when the reset did not happen: `None` when
    /// the device rejects the request's parameters, otherwise the reason.
    fn reset(&mut self, req: ResetRequest) -> Option<ResetError>;
}

impl<T: ResetDevice + ?Sized> ResetDevice for Box<T> {
    /// Resets through the box: the answer is one that the boxed type's
    /// `reset` gives for the same request.
    fn reset(&mut self, req: ResetRequest) -> (outcome: Option<ResetError>)
        ensures
            exists|device: &mut T| #[trigger] call_ensures(T::reset, (device, req), outcome),
    {
        let device: &mut T = &mut **self;
        T::reset(device, req)
    }
}

/// `spin::mutex::Mutex`, the spin lock that guards the reset device; carried
/// through verified code as an opaque value.
#[verifier::external_type_specification]
#[verifier::external_body]
#[verifier::reject_recursive_types(T)]
#[verifier::reject_recursive_types(R)]
pub struct ExSpinMutex<T: ?Sized, R = spin::relax::Spin>(spin::mutex::Mutex<T, R>);

/// `spin::relax::Spin`, the default relax strategy of `spin::mutex::Mutex`.
#[verifier::external_type_specification]
#[verifier::external_body]
pub struct ExSpinRelax(spin::relax::Spin);

/// Locks `dev` with `spin::Mutex::lock` and hands `req` to the device.
///
/// The device decides what comes back; the contract states only that the
/// outcome is an answer of the device's `reset` to `req`, not which device
/// state answered it.
#[verifier::external_body]
fn reset_locked<D: ResetDevice>(dev: &spin::mutex::Mutex<D>, req: ResetRequest) -> (outcome:
    Option<ResetError>)
    ensures
        exists|d: &mut D| #[trigger] call_ensures(D::reset, (d, req), outcome),
{
    dev.lock().reset(req)
}

/// `r` is the SBI return for an answer that a device of type `D` may give
/// when its `reset` is handed `req`.
pub open spec fn answers_request<D: ResetDevice>(req: ResetRequest, r: SbiRet) -> bool {
    exists|d: &mut D, outcome: Option<ResetError>|
        #[trigger] call_ensures(D::reset, (d, req), outcome) && r == spec_reset_ret(outcome)
}

/// The request issued when the firmware reports a failure: shut down, with
/// system failure as the reason.
pub open spec fn failure_request() -> ResetRequest {
    ResetRequest { reset_type: ResetType::Shutdown, reset_reason: ResetReason::SystemFailure }
}

/// SBI system-reset extension service.
#[verifier::reject_recursive_types(D)]
pub struct SbiReset<D> {
    /// The reset device, shared between harts.
    pub reset_dev: spin::mutex::Mutex<D>,
}

impl<D: ResetDevice> SbiReset<D> {
    /// Creates the service around a reset device.
    pub fn new(reset_dev: spin::mutex::Mutex<D>) -> (s: Self)
        ensures
            s.reset_dev == reset_dev,
    {
        Self { reset_dev }
    }

    /// Hands a validated request to the device and reports its answer.
    fn reset(&self, req: ResetRequest) -> (r: SbiRet)
        ensures
            answers_request::<D>(req, r),
    {
        let outcome = reset_locked(&self.reset_dev, req);
        reset_ret(outcome)
    }

    /// Requests a shutdown for a system failure.
    ///
    /// Returns only when the device did not reset the system, with the SBI
    /// return for its answer; the caller then stops the hart.
    pub fn fail(&self) -> (r: SbiRet)
        ensures
            answers_request::<D>(failure_request(), r),
    {
        self.reset(
            ResetRequest {
                reset_type: ResetType::Shutdown,
                reset_reason: ResetReason::SystemFailure,
            },
        )
    }

    /// Resets the system as the SRST `system_reset` call asks.
    ///
    /// Invalid raw parameters give `invalid_param` without touching the
    /// device; otherwise the result is the SBI return for the device's answer.
    pub fn system_reset(&self, reset_type: u32, reset_reason: u32) -> (r: SbiRet)
        ensures
            spec_parse_request(reset_type, reset_reason) is None ==> r
                == SbiRet::spec_invalid_param(),
            spec_parse_request(reset_type, reset_reason) matches Some(req) ==> answers_request::<D>(
                req,
                r,
            ),
    {
        match parse_request(reset_type, reset_reason) {
            Some(req) => self.reset(req),
            None => SbiRet::invalid_param(),
        }
    }
}

} // verus!
