use vstd::prelude::*;

verus! {

/// Why an operation of this library was refused.
#[derive(Clone, Copy, Debug, PartialEq, Eq, Structural)]
pub enum Error {
    /// The kernel does not guarantee that completions are never dropped.
    RequireNodrop,
    /// The ring was set up without a submission index array.
    NoSqArray,
    /// The kernel cannot register a ring descriptor.
    RequireRegRing,
    /// The ring descriptor is registered already.
    RingRegistered,
    /// The kernel registered another number of descriptors than the one asked for.
    RegisterFailed,
    /// A cursor or entry count reported for the kernel's side lies outside the ring.
    Protocol,
    /// The kernel refused a call; the value is its error number.
    Os(i32),
}

impl Error {
    /// What went wrong, in words.
    pub open spec fn spec_message(&self) -> Seq<char> {
        match self {
            Error::RequireNodrop => "Require feature IORING_FEAT_NODROP"@,
            Error::NoSqArray => "IoUring setup with IORING_SETUP_NO_SQARRAY flag"@,
            Error::RequireRegRing => "Feature REG_REG_RING Invalid"@,
            Error::RingRegistered => "Ring fd registered"@,
            Error::RegisterFailed => "Failed to register ring fd"@,
            Error::Protocol => "Ring cursor out of range"@,
            Error::Os(_) => "Kernel call failed"@,
        }
    }

    /// What went wrong, in words.
    pub fn message(&self) -> (text: &'static str)
        ensures
            text@ == self.spec_message(),
    {
        match self {
            Error::RequireNodrop => "Require feature IORING_FEAT_NODROP",
            Error::NoSqArray => "IoUring setup with IORING_SETUP_NO_SQARRAY flag",
            Error::RequireRegRing => "Feature REG_REG_RING Invalid",
            Error::RingRegistered => "Ring fd registered",
            Error::RegisterFailed => "Failed to register ring fd",
            Error::Protocol => "Ring cursor out of range",
            Error::Os(_) => "Kernel call failed",
        }
    }
}

} // verus!
