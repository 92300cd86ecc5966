//! Plain data carried through the orchestrator: ledger addresses, instruction
//! descriptions, and the local identity pair.

use vstd::prelude::*;

verus! {

/// A 32-byte ledger address (a public key or a program-derived address).
#[derive(Clone, Copy, Debug, PartialEq, Eq)]
pub struct Addr {
    pub bytes: [u8; 32],
}

impl View for Addr {
    type V = Seq<u8>;

    open spec fn view(&self) -> Seq<u8> {
        self.bytes@
    }
}

impl Addr {
    pub fn new(bytes: [u8; 32]) -> (r: Addr)
        ensures
            r@ == bytes@,
    {
        Addr { bytes }
    }

    /// Byte-for-byte equality of two addresses.
    pub fn same_as(&self, other: &Addr) -> (r: bool)
        ensures
            r <==> self@ == other@,
    {
        let mut i: usize = 0;
        while i < 32
            invariant
                i <= 32,
                forall|q: int| 0 <= q < i ==> self@[q] == other@[q],
            decreases 32 - i,
        {
            if self.bytes[i] != other.bytes[i] {
                proof {
                    assert(self@[i as int] != other@[i as int]);
                }
                return false;
            }
            i = i + 1;
        }
        proof {
            assert(self@ =~= other@);
        }
        true
    }
}

/// Mathematical image of one account slot of an instruction.
pub ghost struct IxAccountView {
    pub addr: Seq<u8>,
    pub is_signer: bool,
    pub is_writable: bool,
}

/// One account an instruction touches, and how.
#[derive(Clone, Debug)]
pub struct IxAccount {
    pub addr: Addr,
    pub is_signer: bool,
    pub is_writable: bool,
}

impl View for IxAccount {
    type V = IxAccountView;

    open spec fn view(&self) -> IxAccountView {
        IxAccountView { addr: self.addr@, is_signer: self.is_signer, is_writable: self.is_writable }
    }
}

/// Mathematical image of an instruction.
pub ghost struct IxView {
    pub program_id: Seq<u8>,
    pub accounts: Seq<IxAccountView>,
    pub data: Seq<u8>,
}

/// One ledger instruction: the program asked to run, the accounts it may
/// read or write, and its argument bytes.
#[derive(Clone, Debug)]
pub struct Ix {
    pub program_id: Addr,
    pub accounts: Vec<IxAccount>,
    pub data: Vec<u8>,
}

impl View for Ix {
    type V = IxView;

    open spec fn view(&self) -> IxView {
        IxView {
            program_id: self.program_id@,
            accounts: Seq::new(self.accounts@.len(), |i: int| self.accounts@[i]@),
            data: self.data@,
        }
    }
}

/// The mathematical images of a sequence of instructions.
pub open spec fn views_of_ixs(s: Seq<Ix>) -> Seq<IxView> {
    Seq::new(s.len(), |i: int| s[i]@)
}

/// The public half of the local identity: the signing key's address and the
/// persisted ephemeral create key's address. The create key seeds the
/// multisig derivation; regenerating it would change the derived address and
/// strand prior on-chain state, so it is persisted once and reused.
#[derive(Clone, Copy, Debug)]
pub struct Multisig {
    pub creator: Addr,
    pub create_key: Addr,
}

} // verus!
