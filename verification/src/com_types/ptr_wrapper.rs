//! The aliasing wrapper: a non-null address of externally owned data.

use vstd::prelude::*;

verus! {

/// A non-null address of data that is owned, and kept alive, by the caller.
/// The wrapper never owns what it aliases: its validity window is exactly
/// that of the external storage, which this core cannot check.
///
/// Two wrappers are equal exactly when they alias the identical address;
/// the contents behind the address play no part in equality.
#[derive(Clone, Copy, Debug, PartialEq, Eq, Structural)]
pub struct PtrWrapper {
    addr: u64,
}

impl PtrWrapper {
    /// A wrapper always holds a non-null address.
    #[verifier::type_invariant]
    pub closed spec fn inv(self) -> bool {
        self.addr != 0
    }

    /// The aliased address.
    pub closed spec fn addr_spec(self) -> u64 {
        self.addr
    }

    /// The aliased address; never null.
    pub fn addr(&self) -> (a: u64)
        ensures
            a == self.addr_spec(),
            a != 0,
    {
        proof {
            use_type_invariant(self);
        }
        self.addr
    }

    /// Wraps `addr`, failing exactly when it is null.
    pub fn try_from(addr: u64) -> (r: Result<PtrWrapper, ()>)
        ensures
            r is Err <==> addr == 0,
            r matches Ok(p) ==> p.addr_spec() == addr,
    {
        if addr == 0 {
            Err(())
        } else {
            Ok(PtrWrapper { addr })
        }
    }

    /// Wraps an address already known not to be null.
    pub fn from_nonzero(addr: u64) -> (p: PtrWrapper)
        requires
            addr != 0,
        ensures
            p.addr_spec() == addr,
    {
        PtrWrapper { addr }
    }
}

/// A reference-counted opaque interface handle, held as the non-null
/// address of the referenced object.  One value of this type stands for
/// exactly one counted reference, which moves with the value: decoding
/// takes the reference over from the wire value and encoding transfers it
/// back, neither changing the count.  A null handle is represented as
/// `None` at every use site, a state distinct from any failure.
#[derive(Debug, PartialEq, Eq, Structural)]
pub struct InterfaceHandle {
    addr: u64,
}

impl InterfaceHandle {
    /// A handle always holds a non-null address.
    #[verifier::type_invariant]
    pub closed spec fn inv(self) -> bool {
        self.addr != 0
    }

    /// The address of the referenced object.
    pub closed spec fn addr_spec(self) -> u64 {
        self.addr
    }

    /// The address of the referenced object; never null.
    pub fn addr(&self) -> (a: u64)
        ensures
            a == self.addr_spec(),
            a != 0,
    {
        proof {
            use_type_invariant(self);
        }
        self.addr
    }

    /// A handle to the object at `addr`, standing for one counted
    /// reference that the caller already holds.
    pub fn from_nonzero(addr: u64) -> (h: InterfaceHandle)
        requires
            addr != 0,
        ensures
            h.addr_spec() == addr,
    {
        InterfaceHandle { addr }
    }
}

} // verus!
