//! The values of the boundary in the form the managed runtime sees.

use vstd::prelude::*;
use vstd::std_specs::cmp::PartialEqSpecImpl;

verus! {

/// State of the cellular data connection.
#[derive(Clone, Copy, Debug, PartialEq, Eq, Structural)]
pub enum DataConnectState {
    DataStateUnknown,
    DataStateDisconnected,
    DataStateConnecting,
    DataStateConnected,
    DataStateSuspended,
}

impl DataConnectState {
    /// The integer that stands for this state on the wire.
    pub open spec fn spec_code(self) -> int {
        match self {
            DataConnectState::DataStateUnknown => -1,
            DataConnectState::DataStateDisconnected => 0,
            DataConnectState::DataStateConnecting => 1,
            DataConnectState::DataStateConnected => 2,
            DataConnectState::DataStateSuspended => 3,
        }
    }

    /// The state that a wire integer stands for: the state with that code,
    /// and the unknown state where no state has it.
    pub open spec fn from_code(code: int) -> DataConnectState {
        if code == 0 {
            DataConnectState::DataStateDisconnected
        } else if code == 1 {
            DataConnectState::DataStateConnecting
        } else if code == 2 {
            DataConnectState::DataStateConnected
        } else if code == 3 {
            DataConnectState::DataStateSuspended
        } else {
            DataConnectState::DataStateUnknown
        }
    }

    /// The integer that stands for this state on the wire.
    pub fn code(self) -> (c: i32)
        ensures
            c == self.spec_code(),
    {
        match self {
            DataConnectState::DataStateUnknown => -1,
            DataConnectState::DataStateDisconnected => 0,
            DataConnectState::DataStateConnecting => 1,
            DataConnectState::DataStateConnected => 2,
            DataConnectState::DataStateSuspended => 3,
        }
    }
}

/// The codes 0 to 3 each stand for the state that has that code, every other
/// integer stands for the unknown state, and every state is the one that
/// its own code stands for.
pub proof fn lemma_connect_state_codes(code: int, state: DataConnectState)
    ensures
        0 <= code <= 3 ==> DataConnectState::from_code(code).spec_code() == code,
        !(0 <= code <= 3) ==> DataConnectState::from_code(code)
            == DataConnectState::DataStateUnknown,
        DataConnectState::from_code(state.spec_code()) == state,
{
}

impl View for DataConnectState {
    type V = DataConnectState;

    open spec fn view(&self) -> DataConnectState {
        *self
    }
}

impl DeepView for DataConnectState {
    type V = DataConnectState;

    open spec fn deep_view(&self) -> DataConnectState {
        *self
    }
}

/// Direction in which cellular data is flowing.
#[derive(Clone, Copy, Debug, PartialEq, Eq, Structural)]
pub enum DataFlowType {
    DataFlowTypeNone,
    DataFlowTypeDown,
    DataFlowTypeUp,
    DataFlowTypeUpDown,
    DataFlowTypeDormant,
}

impl DataFlowType {
    /// The integer that stands for this flow type on the wire.
    pub open spec fn spec_code(self) -> int {
        match self {
            DataFlowType::DataFlowTypeNone => 0,
            DataFlowType::DataFlowTypeDown => 1,
            DataFlowType::DataFlowTypeUp => 2,
            DataFlowType::DataFlowTypeUpDown => 3,
            DataFlowType::DataFlowTypeDormant => 4,
        }
    }

    /// The flow type that a wire integer stands for: the flow type with that
    /// code, and none where no flow type has it.
    pub open spec fn from_code(code: int) -> DataFlowType {
        if code == 1 {
            DataFlowType::DataFlowTypeDown
        } else if code == 2 {
            DataFlowType::DataFlowTypeUp
        } else if code == 3 {
            DataFlowType::DataFlowTypeUpDown
        } else if code == 4 {
            DataFlowType::DataFlowTypeDormant
        } else {
            DataFlowType::DataFlowTypeNone
        }
    }

    /// The integer that stands for this flow type on the wire.
    pub fn code(self) -> (c: i32)
        ensures
            c == self.spec_code(),
    {
        match self {
            DataFlowType::DataFlowTypeNone => 0,
            DataFlowType::DataFlowTypeDown => 1,
            DataFlowType::DataFlowTypeUp => 2,
            DataFlowType::DataFlowTypeUpDown => 3,
            DataFlowType::DataFlowTypeDormant => 4,
        }
    }
}

/// The codes 0 to 4 each stand for the flow type that has that code, every
/// other integer stands for the flow type none, and every flow type is the
/// one that its own code stands for.
pub proof fn lemma_flow_type_codes(code: int, flow: DataFlowType)
    ensures
        0 <= code <= 4 ==> DataFlowType::from_code(code).spec_code() == code,
        !(0 <= code <= 4) ==> DataFlowType::from_code(code) == DataFlowType::DataFlowTypeNone,
        DataFlowType::from_code(flow.spec_code()) == flow,
{
}

impl View for DataFlowType {
    type V = DataFlowType;

    open spec fn view(&self) -> DataFlowType {
        *self
    }
}

impl DeepView for DataFlowType {
    type V = DataFlowType;

    open spec fn deep_view(&self) -> DataFlowType {
        *self
    }
}

/// An access point record as the managed runtime holds it: four fields that
/// are always there and four that may be absent.
#[allow(non_snake_case)]
#[derive(Debug)]
pub struct ApnInfo {
    pub apnName: String,
    pub apn: String,
    pub mcc: String,
    pub mnc: String,
    pub user: Option<String>,
    pub type_: Option<String>,
    pub proxy: Option<String>,
    pub mmsproxy: Option<String>,
}

/// What an [`ApnInfo`] holds, as sequences of characters.
#[allow(non_snake_case)]
pub struct ApnInfoView {
    pub apnName: Seq<char>,
    pub apn: Seq<char>,
    pub mcc: Seq<char>,
    pub mnc: Seq<char>,
    pub user: Option<Seq<char>>,
    pub type_: Option<Seq<char>>,
    pub proxy: Option<Seq<char>>,
    pub mmsproxy: Option<Seq<char>>,
}

impl ApnInfoView {
    /// All four optional fields are present.
    pub open spec fn fully_present(self) -> bool {
        self.user is Some && self.type_ is Some && self.proxy is Some && self.mmsproxy is Some
    }
}

impl View for ApnInfo {
    type V = ApnInfoView;

    open spec fn view(&self) -> ApnInfoView {
        ApnInfoView {
            apnName: self.apnName@,
            apn: self.apn@,
            mcc: self.mcc@,
            mnc: self.mnc@,
            user: self.user.deep_view(),
            type_: self.type_.deep_view(),
            proxy: self.proxy.deep_view(),
            mmsproxy: self.mmsproxy.deep_view(),
        }
    }
}

impl DeepView for ApnInfo {
    type V = ApnInfoView;

    open spec fn deep_view(&self) -> ApnInfoView {
        self@
    }
}

/// Whether two optional strings are both absent or hold the same characters.
fn same_optional(a: &Option<String>, b: &Option<String>) -> (same: bool)
    ensures
        same == (a.deep_view() == b.deep_view()),
{
    match a {
        Some(x) => match b {
            Some(y) => *x == *y,
            None => false,
        },
        None => b.is_none(),
    }
}

impl PartialEq for ApnInfo {
    fn eq(&self, other: &Self) -> (same: bool) {
        self.apnName == other.apnName && self.apn == other.apn && self.mcc == other.mcc
            && self.mnc == other.mnc && same_optional(&self.user, &other.user) && same_optional(
            &self.type_,
            &other.type_,
        ) && same_optional(&self.proxy, &other.proxy) && same_optional(
            &self.mmsproxy,
            &other.mmsproxy,
        )
    }
}

impl PartialEqSpecImpl for ApnInfo {
    open spec fn obeys_eq_spec() -> bool {
        true
    }

    open spec fn eq_spec(&self, other: &Self) -> bool {
        self@ == other@
    }
}

} // verus!
