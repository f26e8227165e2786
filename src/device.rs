use vstd::prelude::*;

verus! {

/// Why a device refused, or did not answer, a request.
#[derive(Clone, Copy, Debug, PartialEq, Eq, Structural)]
pub enum DeviceError {
    /// The arguments are malformed.
    InvalidInput,
    /// Too few or too many arguments.
    WrongArgumentCount,
    /// The action produced no data; write-style actions answer this on
    /// success.
    NoOutput,
}

#[derive(Clone, Copy, Debug, PartialEq, Eq, Structural)]
pub enum DeviceType {
    Ram,
    Cpu,
    Disk,
    Display,
}

/// What a device header holds.
pub struct DeviceHeaderView {
    pub dev_type: DeviceType,
    pub id: u16,
    pub info: Seq<u32>,
}

/// A device's kind, its id, and auxiliary data some devices keep (a ram
/// device keeps its size).
pub struct DeviceHeader {
    dev_type: DeviceType,
    id: u16,
    info: Vec<u32>,
}

impl View for DeviceHeader {
    type V = DeviceHeaderView;

    closed spec fn view(&self) -> DeviceHeaderView {
        DeviceHeaderView { dev_type: self.dev_type, id: self.id, info: self.info@ }
    }
}

impl DeviceHeader {
    pub fn new(dev_type: DeviceType, id: u16, info: &[u32]) -> (r: Self)
        ensures
            r@ == (DeviceHeaderView { dev_type, id, info: info@ }),
    {
        DeviceHeader { dev_type, id, info: vstd::slice::slice_to_vec(info) }
    }

    pub fn dev_type(&self) -> (r: DeviceType)
        ensures
            r == self@.dev_type,
    {
        self.dev_type
    }

    pub fn id(&self) -> (r: u16)
        ensures
            r == self@.id,
    {
        self.id
    }

    pub fn info(&self) -> (r: &[u32])
        ensures
            r@ == self@.info,
    {
        self.info.as_slice()
    }
}

/// A peripheral the cpu addresses: it has a header with a stable id, a
/// read-like primary action and a write-like secondary action, all stated
/// over the device's view.
pub trait Device: Sized + View {
    /// The id a device in state `v` answers to.
    spec fn spec_id(v: Self::V) -> u16;

    /// What the primary action answers for `arg`.
    spec fn spec_primary(v: Self::V, arg: u16) -> Result<u16, DeviceError>;

    /// What the secondary action answers for `value` and `arg`.
    spec fn spec_secondary(v: Self::V, value: u16, arg: u16) -> Result<(), DeviceError>;

    /// The state after the secondary action with `value` and `arg`.
    spec fn spec_after_secondary(v: Self::V, value: u16, arg: u16) -> Self::V;

    fn header(&self) -> (r: &DeviceHeader)
        ensures
            r@.id == Self::spec_id(self@),
    ;

    fn act_primary(&self, arg: u16) -> (r: Result<u16, DeviceError>)
        ensures
            r == Self::spec_primary(self@, arg),
    ;

    fn act_secondary(&mut self, value: u16, arg: u16) -> (r: Result<(), DeviceError>)
        ensures
            r == Self::spec_secondary(old(self)@, value, arg),
            final(self)@ == Self::spec_after_secondary(old(self)@, value, arg),
            Self::spec_id(final(self)@) == Self::spec_id(old(self)@),
    ;
}

} // verus!
