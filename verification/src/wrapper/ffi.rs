//! The values of the boundary in the form the native service hands them over.

use crate::business_error::Diagnostic;
use vstd::prelude::*;
use vstd::std_specs::cmp::PartialEqSpecImpl;

verus! {

/// What every error-reporting native call returns: a code and a message.
#[allow(non_snake_case)]
#[derive(Debug)]
pub struct ArktsError {
    pub errorCode: i32,
    pub errorMessage: String,
}

impl View for ArktsError {
    type V = Diagnostic;

    open spec fn view(&self) -> Diagnostic {
        Diagnostic { code: self.errorCode as int, message: self.errorMessage@ }
    }
}

impl DeepView for ArktsError {
    type V = Diagnostic;

    open spec fn deep_view(&self) -> Diagnostic {
        self@
    }
}

/// An access point record as the native service holds it: eight strings,
/// where an empty string stands for a field that has no value.
#[allow(non_snake_case)]
#[derive(Debug)]
pub struct ApnInfo {
    pub apnName: String,
    pub apn: String,
    pub mcc: String,
    pub mnc: String,
    pub user: String,
    pub type_: String,
    pub proxy: String,
    pub mmsproxy: String,
}

/// What a native [`ApnInfo`] holds, as sequences of characters.
#[allow(non_snake_case)]
pub struct ApnInfoView {
    pub apnName: Seq<char>,
    pub apn: Seq<char>,
    pub mcc: Seq<char>,
    pub mnc: Seq<char>,
    pub user: Seq<char>,
    pub type_: Seq<char>,
    pub proxy: Seq<char>,
    pub mmsproxy: Seq<char>,
}

impl View for ApnInfo {
    type V = ApnInfoView;

    open spec fn view(&self) -> ApnInfoView {
        ApnInfoView {
            apnName: self.apnName@,
            apn: self.apn@,
            mcc: self.mcc@,
            mnc: self.mnc@,
            user: self.user@,
            type_: self.type_@,
            proxy: self.proxy@,
            mmsproxy: self.mmsproxy@,
        }
    }
}

impl DeepView for ApnInfo {
    type V = ApnInfoView;

    open spec fn deep_view(&self) -> ApnInfoView {
        self@
    }
}

impl PartialEq for ArktsError {
    fn eq(&self, other: &Self) -> (same: bool) {
        self.errorCode == other.errorCode && self.errorMessage == other.errorMessage
    }
}

impl PartialEqSpecImpl for ArktsError {
    open spec fn obeys_eq_spec() -> bool {
        true
    }

    open spec fn eq_spec(&self, other: &Self) -> bool {
        self@ == other@
    }
}

impl PartialEq for ApnInfo {
    fn eq(&self, other: &Self) -> (same: bool) {
        self.apnName == other.apnName && self.apn == other.apn && self.mcc == other.mcc
            && self.mnc == other.mnc && self.user == other.user && self.type_ == other.type_
            && self.proxy == other.proxy && self.mmsproxy == other.mmsproxy
    }
}

impl PartialEqSpecImpl for ApnInfo {
    open spec fn obeys_eq_spec() -> bool {
        true
    }

    open spec fn eq_spec(&self, other: &Self) -> bool {
        self@ == other@
    }
}

} // verus!
