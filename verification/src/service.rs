//! Record-keeping hooks of the service layer, and the capability view
//! a voting investor gets of a group handle.

use vstd::prelude::*;

use crate::addr::Addr;
use crate::resolver::MultisigHandle;

verus! {

/// Local record-keeping hook invoked after a group update. The ledger
/// is the source of truth for all group state, so there is nothing to
/// keep here; the hook stands where a durable store would plug in.
pub fn update_dao() {
}

/// The narrow view of a group handle an investor works through:
/// address lookups only; votes go through the vote workflow.
pub trait InvestorMultisigTrait {
    /// The group's address.
    spec fn multisig_pda_view(&self) -> Seq<u8>;

    /// The group's vault address.
    spec fn vault_pda_view(&self) -> Seq<u8>;

    fn get_multisig_pda(&self) -> (r: Addr)
        ensures
            r@ == self.multisig_pda_view(),
    ;

    fn get_vault_pda(&self) -> (r: Addr)
        ensures
            r@ == self.vault_pda_view(),
    ;
}

impl InvestorMultisigTrait for MultisigHandle {
    open spec fn multisig_pda_view(&self) -> Seq<u8> {
        self.multisig_pda@
    }

    open spec fn vault_pda_view(&self) -> Seq<u8> {
        self.vault_pda@
    }

    fn get_multisig_pda(&self) -> (r: Addr) {
        self.multisig_pda
    }

    fn get_vault_pda(&self) -> (r: Addr) {
        self.vault_pda
    }
}

} // verus!
