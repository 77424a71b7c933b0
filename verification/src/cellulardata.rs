//! The handlers of the cellular data operations. Each one takes what the
//! native call of its operation handed back, the sentinel and the value
//! written to the output parameter, and gives what the managed runtime
//! receives: the payload, or the native failure.

use crate::bridge;
use crate::business_error::{BusinessError, Diagnostic};
use crate::wrapper;
use crate::wrapper::ArktsError;
use vstd::prelude::*;
use vstd::std_specs::convert::FromSpecImpl;

verus! {

impl From<i32> for bridge::DataConnectState {
    /// Decodes a native state code. The codes 0 to 3 give the state that
    /// has that code; every other integer gives the unknown state.
    fn from(value: i32) -> (state: Self)
        ensures
            state == bridge::DataConnectState::from_code(value as int),
            0 <= value <= 3 ==> state.spec_code() == value,
            !(0 <= value <= 3) ==> state == bridge::DataConnectState::DataStateUnknown,
    {
        match value {
            0 => bridge::DataConnectState::DataStateDisconnected,
            1 => bridge::DataConnectState::DataStateConnecting,
            2 => bridge::DataConnectState::DataStateConnected,
            3 => bridge::DataConnectState::DataStateSuspended,
            _ => bridge::DataConnectState::DataStateUnknown,
        }
    }
}

impl FromSpecImpl<i32> for bridge::DataConnectState {
    open spec fn obeys_from_spec() -> bool {
        true
    }

    open spec fn from_spec(value: i32) -> Self {
        bridge::DataConnectState::from_code(value as int)
    }
}

impl From<i32> for bridge::DataFlowType {
    /// Decodes a native flow type code. The codes 0 to 4 give the flow type
    /// that has that code; every other integer gives the flow type none.
    fn from(value: i32) -> (flow: Self)
        ensures
            flow == bridge::DataFlowType::from_code(value as int),
            0 <= value <= 4 ==> flow.spec_code() == value,
            !(0 <= value <= 4) ==> flow == bridge::DataFlowType::DataFlowTypeNone,
    {
        match value {
            0 => bridge::DataFlowType::DataFlowTypeNone,
            1 => bridge::DataFlowType::DataFlowTypeDown,
            2 => bridge::DataFlowType::DataFlowTypeUp,
            3 => bridge::DataFlowType::DataFlowTypeUpDown,
            4 => bridge::DataFlowType::DataFlowTypeDormant,
            _ => bridge::DataFlowType::DataFlowTypeNone,
        }
    }
}

impl FromSpecImpl<i32> for bridge::DataFlowType {
    open spec fn obeys_from_spec() -> bool {
        true
    }

    open spec fn from_spec(value: i32) -> Self {
        bridge::DataFlowType::from_code(value as int)
    }
}

/// Whether cellular data is enabled, as the native call wrote it.
pub fn is_cellulardata_enabled_sync(arkts_error: ArktsError, data_enabled: bool) -> (result:
    Result<bool, BusinessError>)
    ensures
        wrapper::result_view(result) == wrapper::surfaced(arkts_error@, data_enabled),
{
    if arkts_error.is_error() {
        return Err(BusinessError::from(arkts_error));
    }
    Ok(data_enabled)
}

/// The outcome of enabling cellular data.
pub fn enable_cellular_data_sync(arkts_error: ArktsError) -> (result: Result<(), BusinessError>)
    ensures
        wrapper::result_view(result) == wrapper::surfaced(arkts_error@, ()),
{
    if arkts_error.is_error() {
        return Err(BusinessError::from(arkts_error));
    }
    Ok(())
}

/// The outcome of disabling cellular data.
pub fn disable_cellular_data_sync(arkts_error: ArktsError) -> (result: Result<(), BusinessError>)
    ensures
        wrapper::result_view(result) == wrapper::surfaced(arkts_error@, ()),
{
    if arkts_error.is_error() {
        return Err(BusinessError::from(arkts_error));
    }
    Ok(())
}

/// The slot that cellular data uses by default. The native call reports no
/// error, so its answer is always a success.
pub fn get_default_cellular_data_slot_id_sync(slot_id: i32) -> (result: Result<i32, BusinessError>)
    ensures
        wrapper::result_view(result) == Ok::<i32, Diagnostic>(slot_id),
{
    Ok(slot_id)
}

/// The state of the cellular data connection, decoded from its native code.
pub fn get_cellular_data_state(arkts_error: ArktsError, cellular_data_state: i32) -> (result:
    Result<bridge::DataConnectState, BusinessError>)
    ensures
        wrapper::result_view(result) == wrapper::surfaced(
            arkts_error@,
            bridge::DataConnectState::from_code(cellular_data_state as int),
        ),
{
    if arkts_error.is_error() {
        return Err(BusinessError::from(arkts_error));
    }
    Ok(bridge::DataConnectState::from(cellular_data_state))
}

/// The outcome of disabling data roaming on a slot.
pub fn disable_cellular_data_roaming_sync(arkts_error: ArktsError) -> (result: Result<
    (),
    BusinessError,
>)
    ensures
        wrapper::result_view(result) == wrapper::surfaced(arkts_error@, ()),
{
    if arkts_error.is_error() {
        return Err(BusinessError::from(arkts_error));
    }
    Ok(())
}

/// The outcome of enabling data roaming on a slot.
pub fn enable_cellular_data_roaming_sync(arkts_error: ArktsError) -> (result: Result<
    (),
    BusinessError,
>)
    ensures
        wrapper::result_view(result) == wrapper::surfaced(arkts_error@, ()),
{
    if arkts_error.is_error() {
        return Err(BusinessError::from(arkts_error));
    }
    Ok(())
}

/// Whether data roaming is enabled on a slot, as the native call wrote it.
pub fn is_cellular_data_roaming_enabled_sync(
    arkts_error: ArktsError,
    data_enabled: bool,
) -> (result: Result<bool, BusinessError>)
    ensures
        wrapper::result_view(result) == wrapper::surfaced(arkts_error@, data_enabled),
{
    if arkts_error.is_error() {
        return Err(BusinessError::from(arkts_error));
    }
    Ok(data_enabled)
}

/// The outcome of making a slot the default for cellular data.
pub fn set_default_cellular_data_slot_id_sync(arkts_error: ArktsError) -> (result: Result<
    (),
    BusinessError,
>)
    ensures
        wrapper::result_view(result) == wrapper::surfaced(arkts_error@, ()),
{
    if arkts_error.is_error() {
        return Err(BusinessError::from(arkts_error));
    }
    Ok(())
}

/// The direction in which cellular data flows, decoded from its native
/// code. The native call reports no error, so its answer is always a success.
pub fn get_cellular_data_flow_type_sync(flow_type: i32) -> (result: Result<
    bridge::DataFlowType,
    BusinessError,
>)
    ensures
        wrapper::result_view(result) == Ok::<bridge::DataFlowType, Diagnostic>(
            bridge::DataFlowType::from_code(flow_type as int),
        ),
{
    Ok(bridge::DataFlowType::from(flow_type))
}

/// Whether the access point was made the preferred one, as the native call
/// wrote it.
pub fn set_preferred_apn_sync(arkts_error: ArktsError, ret: bool) -> (result: Result<
    bool,
    BusinessError,
>)
    ensures
        wrapper::result_view(result) == wrapper::surfaced(arkts_error@, ret),
{
    if arkts_error.is_error() {
        return Err(BusinessError::from(arkts_error));
    }
    Ok(ret)
}

/// The SIM that cellular data uses by default. The native call reports no
/// error, so its answer is always a success.
pub fn get_default_cellular_data_sim_id_sync(sim_id: i32) -> (result: Result<i32, BusinessError>)
    ensures
        wrapper::result_view(result) == Ok::<i32, Diagnostic>(sim_id),
{
    Ok(sim_id)
}

/// The identifiers of the access points that match a filter, in the order in
/// which the native call listed them. No match is a success with no
/// identifiers.
pub fn query_apn_ids_sync(arkts_error: ArktsError, ret: Vec<u32>) -> (result: Result<
    Vec<u32>,
    BusinessError,
>)
    ensures
        wrapper::result_view(result) == wrapper::surfaced(arkts_error@, ret@),
{
    if arkts_error.is_error() {
        return Err(BusinessError::from(arkts_error));
    }
    assert(ret.deep_view() =~= ret@);
    Ok(ret)
}

/// All access points, each decoded from its native record, in the order in
/// which the native call listed them. An empty list is a success.
pub fn query_all_apns_sync(arkts_error: ArktsError, ret: Vec<wrapper::ffi::ApnInfo>) -> (result:
    Result<Vec<bridge::ApnInfo>, BusinessError>)
    ensures
        wrapper::result_view(result) == wrapper::surfaced(
            arkts_error@,
            wrapper::decode_apns(ret.deep_view()),
        ),
        result matches Ok(apns) ==> apns.len() == ret.len(),
{
    if arkts_error.is_error() {
        return Err(BusinessError::from(arkts_error));
    }
    let ghost natives = ret.deep_view();
    let mut apns: Vec<bridge::ApnInfo> = Vec::new();
    for native in records: ret.into_iter()
        invariant
            records.seq().len() == natives.len(),
            forall|i: int|
                0 <= i < natives.len() ==> (#[trigger] records.seq()[i])@ == natives[i],
            apns.len() == records.index(),
            forall|i: int|
                0 <= i < apns.len() ==> (#[trigger] apns[i])@ == wrapper::decode_apn(natives[i]),
    {
        apns.push(bridge::ApnInfo::from(native));
    }
    assert(apns.deep_view() =~= wrapper::decode_apns(natives));
    Ok(apns)
}

/// The name of the access point in use, as the native call wrote it.
pub fn get_active_apn_name_sync(arkts_error: ArktsError, ret: String) -> (result: Result<
    String,
    BusinessError,
>)
    ensures
        wrapper::result_view(result) == wrapper::surfaced(arkts_error@, ret@),
{
    if arkts_error.is_error() {
        return Err(BusinessError::from(arkts_error));
    }
    Ok(ret)
}

} // verus!
