use std::sync::{Arc, Mutex};

use prototyper::reset::{
    parse_request, reset_ret, ResetDevice, ResetError, ResetReason, ResetRequest, ResetType,
    SbiReset, RESET_REASON_NO_REASON, RESET_REASON_SYSTEM_FAILURE, RESET_TYPE_COLD_REBOOT,
    RESET_TYPE_SHUTDOWN, RESET_TYPE_WARM_REBOOT,
};
use sbi_spec::srst;
use prototyper::sbi_ret::{self, SbiRet};

struct Recorder {
    seen: Arc<Mutex<Vec<ResetRequest>>>,
    answer: Option<ResetError>,
}

impl ResetDevice for Recorder {
    fn reset(&mut self, req: ResetRequest) -> Option<ResetError> {
        self.seen.lock().unwrap().push(req);
        self.answer
    }
}

fn service(answer: Option<ResetError>) -> (SbiReset<Recorder>, Arc<Mutex<Vec<ResetRequest>>>) {
    let seen = Arc::new(Mutex::new(Vec::new()));
    let dev = Recorder { seen: seen.clone(), answer };
    (SbiReset::new(spin::Mutex::new(dev)), seen)
}

#[test]
fn parse_request_accepts_defined_values() {
    assert_eq!(
        parse_request(0, 0),
        Some(ResetRequest { reset_type: ResetType::Shutdown, reset_reason: ResetReason::NoReason })
    );
    assert_eq!(
        parse_request(1, 1),
        Some(ResetRequest {
            reset_type: ResetType::ColdReboot,
            reset_reason: ResetReason::SystemFailure
        })
    );
    assert_eq!(
        parse_request(2, 0xe000_0000),
        Some(ResetRequest {
            reset_type: ResetType::WarmReboot,
            reset_reason: ResetReason::SbiSpecific(0xe000_0000)
        })
    );
    assert_eq!(
        parse_request(0xf000_0000, 0xefff_ffff),
        Some(ResetRequest {
            reset_type: ResetType::VendorSpecific(0xf000_0000),
            reset_reason: ResetReason::SbiSpecific(0xefff_ffff)
        })
    );
    assert_eq!(
        parse_request(0xffff_ffff, 0xf000_0000),
        Some(ResetRequest {
            reset_type: ResetType::VendorSpecific(0xffff_ffff),
            reset_reason: ResetReason::VendorSpecific(0xf000_0000)
        })
    );
}

#[test]
fn parse_request_rejects_reserved_values() {
    assert_eq!(parse_request(3, 0), None);
    assert_eq!(parse_request(0xefff_ffff, 0), None);
    assert_eq!(parse_request(0, 2), None);
    assert_eq!(parse_request(0, 0xdfff_ffff), None);
    assert_eq!(parse_request(3, 2), None);
}

#[test]
fn constants_match_sbi_spec() {
    assert_eq!(RESET_TYPE_SHUTDOWN, srst::RESET_TYPE_SHUTDOWN);
    assert_eq!(RESET_TYPE_COLD_REBOOT, srst::RESET_TYPE_COLD_REBOOT);
    assert_eq!(RESET_TYPE_WARM_REBOOT, srst::RESET_TYPE_WARM_REBOOT);
    assert_eq!(RESET_REASON_NO_REASON, srst::RESET_REASON_NO_REASON);
    assert_eq!(RESET_REASON_SYSTEM_FAILURE, srst::RESET_REASON_SYSTEM_FAILURE);
    assert_eq!(sbi_ret::RET_SUCCESS, sbi_spec::binary::RET_SUCCESS);
    assert_eq!(sbi_ret::RET_ERR_FAILED, sbi_spec::binary::RET_ERR_FAILED);
    assert_eq!(sbi_ret::RET_ERR_NOT_SUPPORTED, sbi_spec::binary::RET_ERR_NOT_SUPPORTED);
    assert_eq!(sbi_ret::RET_ERR_INVALID_PARAM, sbi_spec::binary::RET_ERR_INVALID_PARAM);
}

#[test]
fn sbi_ret_constructors_match_sbi_spec() {
    type Spec = sbi_spec::binary::SbiRet;
    let pairs = [
        (SbiRet::success(5), Spec::success(5)),
        (SbiRet::failed(), Spec::failed()),
        (SbiRet::not_supported(), Spec::not_supported()),
        (SbiRet::invalid_param(), Spec::invalid_param()),
    ];
    for (ours, theirs) in pairs {
        assert_eq!(ours.error, theirs.error);
        assert_eq!(ours.value, theirs.value);
    }
}

#[test]
fn reset_ret_maps_device_answers() {
    assert_eq!(reset_ret(None), SbiRet::invalid_param());
    assert_eq!(reset_ret(Some(ResetError::NotSupported)), SbiRet::not_supported());
    assert_eq!(reset_ret(Some(ResetError::Failed)), SbiRet::failed());
}

#[test]
fn system_reset_rejects_invalid_parameters_without_device() {
    let (svc, seen) = service(Some(ResetError::Failed));
    assert_eq!(svc.system_reset(5, 0), SbiRet::invalid_param());
    assert_eq!(svc.system_reset(0, 7), SbiRet::invalid_param());
    assert!(seen.lock().unwrap().is_empty());
}

#[test]
fn system_reset_reports_device_answer() {
    let (svc, seen) = service(Some(ResetError::NotSupported));
    assert_eq!(svc.system_reset(1, 0), SbiRet::not_supported());
    assert_eq!(
        &*seen.lock().unwrap(),
        &[ResetRequest { reset_type: ResetType::ColdReboot, reset_reason: ResetReason::NoReason }]
    );
    let (svc, _) = service(Some(ResetError::Failed));
    assert_eq!(svc.system_reset(2, 1), SbiRet::failed());
    let (svc, _) = service(None);
    assert_eq!(svc.system_reset(0xf000_0001, 0xf000_0002), SbiRet::invalid_param());
}

#[test]
fn fail_requests_shutdown_for_system_failure() {
    let (svc, seen) = service(Some(ResetError::Failed));
    assert_eq!(svc.fail(), SbiRet::failed());
    assert_eq!(
        &*seen.lock().unwrap(),
        &[ResetRequest {
            reset_type: ResetType::Shutdown,
            reset_reason: ResetReason::SystemFailure
        }]
    );
}

#[test]
fn boxed_devices_forward_requests() {
    let seen = Arc::new(Mutex::new(Vec::new()));
    let dev: Box<dyn ResetDevice + Send> =
        Box::new(Recorder { seen: seen.clone(), answer: Some(ResetError::NotSupported) });
    let svc = SbiReset::new(spin::Mutex::new(dev));
    assert_eq!(svc.system_reset(0, 0), SbiRet::not_supported());
    assert_eq!(seen.lock().unwrap().len(), 1);
}
