use cellular_data_ani::bridge::{self, DataConnectState, DataFlowType};
use cellular_data_ani::business_error::BusinessError;
use cellular_data_ani::cellulardata::{
    disable_cellular_data_roaming_sync, disable_cellular_data_sync,
    enable_cellular_data_roaming_sync, enable_cellular_data_sync, get_active_apn_name_sync,
    get_cellular_data_flow_type_sync, get_cellular_data_state,
    get_default_cellular_data_sim_id_sync, get_default_cellular_data_slot_id_sync,
    is_cellular_data_roaming_enabled_sync, is_cellulardata_enabled_sync, query_all_apns_sync,
    query_apn_ids_sync, set_default_cellular_data_slot_id_sync, set_preferred_apn_sync,
};
use cellular_data_ani::wrapper::ffi;
use cellular_data_ani::wrapper::{ArktsError, TELEPHONY_SUCCESS};

fn success() -> ArktsError {
    ArktsError { errorCode: TELEPHONY_SUCCESS, errorMessage: String::new() }
}

fn failure(code: i32, message: &str) -> ArktsError {
    ArktsError { errorCode: code, errorMessage: message.to_string() }
}

fn failed(code: i32, message: &str) -> BusinessError {
    BusinessError::new(code, message.to_string())
}

fn native(fields: [&str; 8]) -> ffi::ApnInfo {
    ffi::ApnInfo {
        apnName: fields[0].to_string(),
        apn: fields[1].to_string(),
        mcc: fields[2].to_string(),
        mnc: fields[3].to_string(),
        user: fields[4].to_string(),
        type_: fields[5].to_string(),
        proxy: fields[6].to_string(),
        mmsproxy: fields[7].to_string(),
    }
}

fn present(fields: [&str; 8]) -> bridge::ApnInfo {
    bridge::ApnInfo {
        apnName: fields[0].to_string(),
        apn: fields[1].to_string(),
        mcc: fields[2].to_string(),
        mnc: fields[3].to_string(),
        user: Some(fields[4].to_string()),
        type_: Some(fields[5].to_string()),
        proxy: Some(fields[6].to_string()),
        mmsproxy: Some(fields[7].to_string()),
    }
}

#[test]
fn connection_state_two_with_success_is_connected() {
    assert_eq!(get_cellular_data_state(success(), 2), Ok(DataConnectState::DataStateConnected));
}

#[test]
fn connection_state_decodes_every_code_on_success() {
    assert_eq!(get_cellular_data_state(success(), 0), Ok(DataConnectState::DataStateDisconnected));
    assert_eq!(get_cellular_data_state(success(), 1), Ok(DataConnectState::DataStateConnecting));
    assert_eq!(get_cellular_data_state(success(), 3), Ok(DataConnectState::DataStateSuspended));
    assert_eq!(get_cellular_data_state(success(), -1), Ok(DataConnectState::DataStateUnknown));
    assert_eq!(get_cellular_data_state(success(), 4), Ok(DataConnectState::DataStateUnknown));
}

#[test]
fn connection_state_failure_returns_no_state() {
    assert_eq!(
        get_cellular_data_state(failure(8300003, "SYSTEM_ERROR"), 2),
        Err(failed(8300003, "SYSTEM_ERROR"))
    );
}

#[test]
fn enable_data_fails_with_the_native_code_and_message() {
    assert_eq!(
        enable_cellular_data_sync(failure(8300001, "RADIO_NOT_AVAILABLE")),
        Err(failed(8300001, "RADIO_NOT_AVAILABLE"))
    );
}

#[test]
fn enable_data_succeeds_on_the_success_code() {
    assert_eq!(enable_cellular_data_sync(success()), Ok(()));
    assert_eq!(
        enable_cellular_data_sync(failure(TELEPHONY_SUCCESS, "a message with the success code")),
        Ok(())
    );
}

#[test]
fn disable_data_follows_the_sentinel() {
    assert_eq!(disable_cellular_data_sync(success()), Ok(()));
    assert_eq!(
        disable_cellular_data_sync(failure(201, "Permission denied.")),
        Err(failed(201, "Permission denied."))
    );
}

#[test]
fn is_data_enabled_returns_the_native_flag_on_success() {
    assert_eq!(is_cellulardata_enabled_sync(success(), true), Ok(true));
    assert_eq!(is_cellulardata_enabled_sync(success(), false), Ok(false));
}

#[test]
fn is_data_enabled_failure_returns_no_flag() {
    assert_eq!(
        is_cellulardata_enabled_sync(failure(8300002, "SERVICE_CONNECTION_FAILED"), true),
        Err(failed(8300002, "SERVICE_CONNECTION_FAILED"))
    );
    assert_eq!(is_cellulardata_enabled_sync(failure(0, ""), false), Err(failed(0, "")));
}

#[test]
fn roaming_handlers_follow_the_sentinel() {
    assert_eq!(enable_cellular_data_roaming_sync(success()), Ok(()));
    assert_eq!(disable_cellular_data_roaming_sync(success()), Ok(()));
    assert_eq!(
        enable_cellular_data_roaming_sync(failure(8300001, "Invalid parameter value.")),
        Err(failed(8300001, "Invalid parameter value."))
    );
    assert_eq!(
        disable_cellular_data_roaming_sync(failure(-1, "slot rejected")),
        Err(failed(-1, "slot rejected"))
    );
}

#[test]
fn is_roaming_enabled_returns_the_native_flag_on_success() {
    assert_eq!(is_cellular_data_roaming_enabled_sync(success(), true), Ok(true));
    assert_eq!(is_cellular_data_roaming_enabled_sync(success(), false), Ok(false));
    assert_eq!(
        is_cellular_data_roaming_enabled_sync(failure(8300004, "NO_SIM"), true),
        Err(failed(8300004, "NO_SIM"))
    );
}

#[test]
fn set_default_slot_follows_the_sentinel() {
    assert_eq!(set_default_cellular_data_slot_id_sync(success()), Ok(()));
    assert_eq!(
        set_default_cellular_data_slot_id_sync(failure(8300999, "UNKNOWN")),
        Err(failed(8300999, "UNKNOWN"))
    );
}

#[test]
fn set_preferred_apn_returns_the_native_flag_on_success() {
    assert_eq!(set_preferred_apn_sync(success(), true), Ok(true));
    assert_eq!(set_preferred_apn_sync(success(), false), Ok(false));
    assert_eq!(
        set_preferred_apn_sync(failure(i32::MAX, "out of range"), true),
        Err(failed(i32::MAX, "out of range"))
    );
}

#[test]
fn default_slot_and_sim_pass_the_native_integer_through() {
    for value in [0, 1, -1, 7, i32::MIN, i32::MAX] {
        assert_eq!(get_default_cellular_data_slot_id_sync(value), Ok(value));
        assert_eq!(get_default_cellular_data_sim_id_sync(value), Ok(value));
    }
}

#[test]
fn flow_type_is_decoded_and_never_fails() {
    assert_eq!(get_cellular_data_flow_type_sync(0), Ok(DataFlowType::DataFlowTypeNone));
    assert_eq!(get_cellular_data_flow_type_sync(1), Ok(DataFlowType::DataFlowTypeDown));
    assert_eq!(get_cellular_data_flow_type_sync(2), Ok(DataFlowType::DataFlowTypeUp));
    assert_eq!(get_cellular_data_flow_type_sync(3), Ok(DataFlowType::DataFlowTypeUpDown));
    assert_eq!(get_cellular_data_flow_type_sync(4), Ok(DataFlowType::DataFlowTypeDormant));
    assert_eq!(get_cellular_data_flow_type_sync(5), Ok(DataFlowType::DataFlowTypeNone));
    assert_eq!(get_cellular_data_flow_type_sync(-3), Ok(DataFlowType::DataFlowTypeNone));
}

#[test]
fn query_apn_ids_returns_the_native_ids_in_order() {
    assert_eq!(
        query_apn_ids_sync(success(), vec![7, 3, 3, 0, u32::MAX]),
        Ok(vec![7, 3, 3, 0, u32::MAX])
    );
}

#[test]
fn query_apn_ids_with_no_match_is_an_empty_success() {
    assert_eq!(query_apn_ids_sync(success(), vec![]), Ok(vec![]));
}

#[test]
fn query_apn_ids_failure_returns_no_ids() {
    assert_eq!(
        query_apn_ids_sync(failure(8300001, "Invalid parameter value."), vec![1, 2]),
        Err(failed(8300001, "Invalid parameter value."))
    );
}

#[test]
fn query_all_apns_on_an_empty_native_result_is_an_empty_success() {
    assert_eq!(query_all_apns_sync(success(), vec![]), Ok(vec![]));
}

#[test]
fn query_all_apns_decodes_every_record_in_order() {
    let natives = vec![
        native(["China Mobile", "cmnet", "460", "00", "", "default", "", ""]),
        native(["China Mobile MMS", "cmwap", "460", "00", "", "mms", "10.0.0.172", "10.0.0.172"]),
        native(["", "", "", "", "", "", "", ""]),
    ];
    let expected = vec![
        present(["China Mobile", "cmnet", "460", "00", "", "default", "", ""]),
        present(["China Mobile MMS", "cmwap", "460", "00", "", "mms", "10.0.0.172", "10.0.0.172"]),
        present(["", "", "", "", "", "", "", ""]),
    ];
    assert_eq!(query_all_apns_sync(success(), natives), Ok(expected));
}

#[test]
fn query_all_apns_failure_returns_no_records() {
    let natives = vec![native(["a", "b", "c", "d", "e", "f", "g", "h"])];
    assert_eq!(
        query_all_apns_sync(failure(8300002, "SERVICE_CONNECTION_FAILED"), natives),
        Err(failed(8300002, "SERVICE_CONNECTION_FAILED"))
    );
}

#[test]
fn active_apn_name_is_returned_as_the_native_call_wrote_it() {
    assert_eq!(get_active_apn_name_sync(success(), "cmnet".to_string()), Ok("cmnet".to_string()));
    assert_eq!(get_active_apn_name_sync(success(), String::new()), Ok(String::new()));
}

#[test]
fn active_apn_name_failure_returns_no_name() {
    assert_eq!(
        get_active_apn_name_sync(failure(8300003, "SYSTEM_ERROR"), "cmnet".to_string()),
        Err(failed(8300003, "SYSTEM_ERROR"))
    );
}

#[test]
fn every_error_reporting_handler_fails_on_a_code_one_off_the_success_code() {
    for code in [TELEPHONY_SUCCESS - 1, TELEPHONY_SUCCESS + 1] {
        assert_eq!(is_cellulardata_enabled_sync(failure(code, "m"), true), Err(failed(code, "m")));
        assert_eq!(enable_cellular_data_sync(failure(code, "m")), Err(failed(code, "m")));
        assert_eq!(disable_cellular_data_sync(failure(code, "m")), Err(failed(code, "m")));
        assert_eq!(get_cellular_data_state(failure(code, "m"), 2), Err(failed(code, "m")));
        assert_eq!(disable_cellular_data_roaming_sync(failure(code, "m")), Err(failed(code, "m")));
        assert_eq!(enable_cellular_data_roaming_sync(failure(code, "m")), Err(failed(code, "m")));
        assert_eq!(
            is_cellular_data_roaming_enabled_sync(failure(code, "m"), true),
            Err(failed(code, "m"))
        );
        assert_eq!(
            set_default_cellular_data_slot_id_sync(failure(code, "m")),
            Err(failed(code, "m"))
        );
        assert_eq!(set_preferred_apn_sync(failure(code, "m"), true), Err(failed(code, "m")));
        assert_eq!(query_apn_ids_sync(failure(code, "m"), vec![1]), Err(failed(code, "m")));
        assert_eq!(query_all_apns_sync(failure(code, "m"), vec![]), Err(failed(code, "m")));
        assert_eq!(
            get_active_apn_name_sync(failure(code, "m"), "n".to_string()),
            Err(failed(code, "m"))
        );
    }
}
