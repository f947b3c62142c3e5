use vstd::prelude::*;

verus! {

/// The identity of a participant: a vault authority, a depositor, or any
/// other signer known to the system.
#[derive(Clone, Copy, PartialEq, Eq, Structural, Debug)]
pub struct AccountId {
    pub id: u64,
}

/// The location of a vault: the raw bytes of a derived sub-account address.
#[derive(PartialEq, Eq, Debug)]
pub struct VaultAddress {
    pub bytes: Vec<u8>,
}

impl View for VaultAddress {
    type V = Seq<u8>;

    open spec fn view(&self) -> Seq<u8> {
        self.bytes@
    }
}

impl Clone for VaultAddress {
    /// Cloning an address keeps its bytes.
    fn clone(&self) -> (r: Self)
        ensures
            r@ == self@,
    {
        VaultAddress { bytes: vstd::slice::slice_to_vec(self.bytes.as_slice()) }
    }
}

} // verus!
