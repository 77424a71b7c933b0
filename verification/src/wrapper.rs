//! Marshalling between the native and the managed form of each value, and
//! the typed failure that a native error sentinel becomes.

pub mod ffi;

use crate::bridge;
use crate::business_error::{BusinessError, Diagnostic};
use vstd::prelude::*;
use vstd::std_specs::convert::FromSpecImpl;

pub use ffi::ArktsError;

verus! {

/// The one code with which a native call reports success.
pub const TELEPHONY_SUCCESS: i32 = 8300000;

impl ArktsError {
    /// Whether the sentinel reports a failure: its code is not the success code.
    pub open spec fn spec_is_error(&self) -> bool {
        self.errorCode != TELEPHONY_SUCCESS
    }

    /// Whether the sentinel reports a failure.
    #[verifier::when_used_as_spec(spec_is_error)]
    pub fn is_error(&self) -> (failed: bool)
        ensures
            failed == (self.errorCode != TELEPHONY_SUCCESS),
    {
        if self.errorCode != TELEPHONY_SUCCESS {
            return true;
        }
        false
    }
}

/// The managed form of a native record: every string is kept as it is, and
/// each of the four optional fields is present, whether or not it is empty.
pub open spec fn decode_apn(native: ffi::ApnInfoView) -> bridge::ApnInfoView {
    bridge::ApnInfoView {
        apnName: native.apnName,
        apn: native.apn,
        mcc: native.mcc,
        mnc: native.mnc,
        user: Some(native.user),
        type_: Some(native.type_),
        proxy: Some(native.proxy),
        mmsproxy: Some(native.mmsproxy),
    }
}

/// The string that stands for an optional field on the native side: its
/// value where it is present, the empty string where it is absent.
pub open spec fn present_or_empty(field: Option<Seq<char>>) -> Seq<char> {
    match field {
        Some(value) => value,
        None => Seq::empty(),
    }
}

/// The native form of a managed record.
pub open spec fn encode_apn(managed: bridge::ApnInfoView) -> ffi::ApnInfoView {
    ffi::ApnInfoView {
        apnName: managed.apnName,
        apn: managed.apn,
        mcc: managed.mcc,
        mnc: managed.mnc,
        user: present_or_empty(managed.user),
        type_: present_or_empty(managed.type_),
        proxy: present_or_empty(managed.proxy),
        mmsproxy: present_or_empty(managed.mmsproxy),
    }
}

/// The managed forms of a sequence of native records, in the same order.
pub open spec fn decode_apns(natives: Seq<ffi::ApnInfoView>) -> Seq<bridge::ApnInfoView> {
    natives.map_values(|native: ffi::ApnInfoView| decode_apn(native))
}

impl From<ffi::ApnInfo> for bridge::ApnInfo {
    /// Decodes a native record.
    fn from(handle: ffi::ApnInfo) -> (managed: Self)
        ensures
            managed@ == decode_apn(handle@),
    {
        bridge::ApnInfo {
            apnName: handle.apnName,
            apn: handle.apn,
            mcc: handle.mcc,
            mnc: handle.mnc,
            user: Some(handle.user),
            type_: Some(handle.type_),
            proxy: Some(handle.proxy),
            mmsproxy: Some(handle.mmsproxy),
        }
    }
}

impl FromSpecImpl<ffi::ApnInfo> for bridge::ApnInfo {
    open spec fn obeys_from_spec() -> bool {
        true
    }

    open spec fn from_spec(handle: ffi::ApnInfo) -> Self {
        bridge::ApnInfo {
            apnName: handle.apnName,
            apn: handle.apn,
            mcc: handle.mcc,
            mnc: handle.mnc,
            user: Some(handle.user),
            type_: Some(handle.type_),
            proxy: Some(handle.proxy),
            mmsproxy: Some(handle.mmsproxy),
        }
    }
}

impl From<bridge::ApnInfo> for ffi::ApnInfo {
    /// Encodes a managed record.
    fn from(handle: bridge::ApnInfo) -> (native: Self)
        ensures
            native@ == encode_apn(handle@),
    {
        ffi::ApnInfo {
            apnName: handle.apnName,
            apn: handle.apn,
            mcc: handle.mcc,
            mnc: handle.mnc,
            user: handle.user.unwrap_or_default(),
            type_: handle.type_.unwrap_or_default(),
            proxy: handle.proxy.unwrap_or_default(),
            mmsproxy: handle.mmsproxy.unwrap_or_default(),
        }
    }
}

impl FromSpecImpl<bridge::ApnInfo> for ffi::ApnInfo {
    /// An empty string has no name among the values of `String`, only among
    /// their views, so what `from` returns is stated over views alone.
    open spec fn obeys_from_spec() -> bool {
        false
    }

    open spec fn from_spec(handle: bridge::ApnInfo) -> Self {
        choose|native: ffi::ApnInfo| native@ == encode_apn(handle@)
    }
}

impl From<ArktsError> for BusinessError {
    /// Carries the code and the message of a sentinel over, unchanged.
    fn from(value: ArktsError) -> (error: Self)
        ensures
            error@ == value@,
    {
        BusinessError::new(value.errorCode, value.errorMessage)
    }
}

impl FromSpecImpl<ArktsError> for BusinessError {
    open spec fn obeys_from_spec() -> bool {
        true
    }

    open spec fn from_spec(value: ArktsError) -> Self {
        BusinessError { code: value.errorCode, message: value.errorMessage }
    }
}

/// What the managed runtime is given for the reply of an error-reporting
/// native call: the payload where the sentinel holds the success code, and
/// otherwise a failure with the sentinel's own code and message.
pub open spec fn surfaced<P>(sentinel: Diagnostic, payload: P) -> Result<P, Diagnostic> {
    if sentinel.code == TELEPHONY_SUCCESS {
        Ok(payload)
    } else {
        Err(sentinel)
    }
}

/// The mathematical content of what a handler returns.
pub open spec fn result_view<T: DeepView>(result: Result<T, BusinessError>) -> Result<
    T::V,
    Diagnostic,
> {
    match result {
        Ok(payload) => Ok(payload.deep_view()),
        Err(error) => Err(error@),
    }
}

/// A reply whose sentinel holds the success code surfaces as its payload,
/// with no failure. A reply with any other sentinel surfaces as a failure
/// that carries the sentinel's own code and message, with no payload.
pub proof fn lemma_surfaced_by_sentinel<P>(sentinel: Diagnostic, payload: P)
    ensures
        sentinel.code == TELEPHONY_SUCCESS ==> surfaced(sentinel, payload) == Ok::<P, Diagnostic>(
            payload,
        ),
        sentinel.code != TELEPHONY_SUCCESS ==> surfaced(sentinel, payload) == Err::<P, Diagnostic>(
            Diagnostic { code: sentinel.code, message: sentinel.message },
        ),
{
}

/// Decoding a native record and encoding it again gives the record back,
/// in all eight fields. The decoded record has every optional field
/// present, also where the native string is empty.
pub proof fn lemma_decode_then_encode(native: ffi::ApnInfoView)
    ensures
        encode_apn(decode_apn(native)) == native,
        decode_apn(native).fully_present(),
{
}

/// The native side cannot tell an absent optional field from one that is
/// present and empty: whichever of the two a managed record holds in one of
/// its optional fields, its native form is the same.
pub proof fn lemma_absent_and_empty_encode_alike(managed: bridge::ApnInfoView)
    ensures
        encode_apn(bridge::ApnInfoView { user: None, ..managed }) == encode_apn(
            bridge::ApnInfoView { user: Some(Seq::empty()), ..managed },
        ),
        encode_apn(bridge::ApnInfoView { type_: None, ..managed }) == encode_apn(
            bridge::ApnInfoView { type_: Some(Seq::empty()), ..managed },
        ),
        encode_apn(bridge::ApnInfoView { proxy: None, ..managed }) == encode_apn(
            bridge::ApnInfoView { proxy: Some(Seq::empty()), ..managed },
        ),
        encode_apn(bridge::ApnInfoView { mmsproxy: None, ..managed }) == encode_apn(
            bridge::ApnInfoView { mmsproxy: Some(Seq::empty()), ..managed },
        ),
{
}

/// Encoding a managed record and decoding it again keeps the four required
/// fields and every optional field that is present; an optional field that
/// is absent comes back present and empty. So a record with all four
/// optional fields present comes back as it was.
pub proof fn lemma_encode_then_decode(managed: bridge::ApnInfoView)
    ensures
        decode_apn(encode_apn(managed)) == (bridge::ApnInfoView {
            user: Some(present_or_empty(managed.user)),
            type_: Some(present_or_empty(managed.type_)),
            proxy: Some(present_or_empty(managed.proxy)),
            mmsproxy: Some(present_or_empty(managed.mmsproxy)),
            ..managed
        }),
        managed.fully_present() ==> decode_apn(encode_apn(managed)) == managed,
        managed.user is None ==> decode_apn(encode_apn(managed)).user == Some(Seq::<char>::empty()),
        managed.type_ is None ==> decode_apn(encode_apn(managed)).type_ == Some(
            Seq::<char>::empty(),
        ),
        managed.proxy is None ==> decode_apn(encode_apn(managed)).proxy == Some(
            Seq::<char>::empty(),
        ),
        managed.mmsproxy is None ==> decode_apn(encode_apn(managed)).mmsproxy == Some(
            Seq::<char>::empty(),
        ),
{
}

} // verus!
