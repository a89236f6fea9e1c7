//! Who may call a contract, and when: the admin's authorization and the pause
//! manager's hold.

use crate::host::{Abort, Address, Invocation};
use vstd::prelude::*;

verus! {

impl Invocation {
    /// The abort of a call that a pause manager, where `configured`, holds.
    pub open spec fn pause_abort(self, configured: bool) -> Option<Abort> {
        if configured && self.paused {
            Some(Abort::Paused)
        } else {
            None
        }
    }

    /// The abort of a call that needs the authorization of `admin`.
    pub open spec fn admin_abort(self, admin: Option<Address>) -> Option<Abort> {
        match admin {
            None => Some(Abort::NotInitialized),
            Some(address) => if self.authorized_by(address) {
                None
            } else {
                Some(Abort::NotAuthorized)
            },
        }
    }

    /// The abort of a call that a pause holds and that needs the admin: the
    /// pause is asked first.
    pub open spec fn guard_abort(self, configured: bool, admin: Option<Address>) -> Option<Abort> {
        match self.pause_abort(configured) {
            Some(abort) => Some(abort),
            None => self.admin_abort(admin),
        }
    }

    /// The abort of a call that makes `admin` the admin, where one is `present`
    /// or not.
    pub open spec fn initialize_abort(self, present: bool, admin: Address) -> Option<Abort> {
        if present {
            Some(Abort::AlreadyInitialized)
        } else if !self.authorized_by(admin) {
            Some(Abort::NotAuthorized)
        } else {
            None
        }
    }

    /// Asks the pause manager, where one is `configured`.
    pub fn check_pause(&self, configured: bool) -> (result: Result<(), Abort>)
        ensures
            result == (match self.pause_abort(configured) {
                Some(abort) => Err(abort),
                None => Ok(()),
            }),
    {
        if configured && self.paused {
            Err(Abort::Paused)
        } else {
            Ok(())
        }
    }

    /// Asks for the authorization of `admin`.
    pub fn check_admin(&self, admin: Option<Address>) -> (result: Result<(), Abort>)
        ensures
            result == (match self.admin_abort(admin) {
                Some(abort) => Err(abort),
                None => Ok(()),
            }),
    {
        match admin {
            None => Err(Abort::NotInitialized),
            Some(address) => {
                if self.is_authorized_by(&address) {
                    Ok(())
                } else {
                    Err(Abort::NotAuthorized)
                }
            },
        }
    }

    /// Asks whether `admin` may become the admin, where one is `present` or not.
    pub fn check_initialize(&self, present: bool, admin: &Address) -> (result: Result<(), Abort>)
        ensures
            result == (match self.initialize_abort(present, *admin) {
                Some(abort) => Err(abort),
                None => Ok(()),
            }),
    {
        if present {
            Err(Abort::AlreadyInitialized)
        } else if self.is_authorized_by(admin) {
            Ok(())
        } else {
            Err(Abort::NotAuthorized)
        }
    }
}

/// Who a guard lets through, said of the invocation's own fields: a configured
/// pause manager that answers "paused" stops the call; then a missing admin;
/// then an admin who is not among the authorizers.
pub proof fn lemma_guards(call: Invocation, configured: bool, admin: Option<Address>)
    ensures
        call.pause_abort(configured) == (if configured && call.paused {
            Some(Abort::Paused)
        } else {
            None::<Abort>
        }),
        admin matches Some(address) ==> {
            &&& call.admin_abort(admin) is None <==> call.authorizers@.contains(address)
            &&& call.admin_abort(admin) is Some ==> call.admin_abort(admin) == Some(
                Abort::NotAuthorized,
            )
        },
        admin is None ==> call.admin_abort(admin) == Some(Abort::NotInitialized),
        configured && call.paused ==> call.guard_abort(configured, admin) == Some(Abort::Paused),
        !(configured && call.paused) ==> call.guard_abort(configured, admin) == call.admin_abort(
            admin,
        ),
{
}

/// Who may become the admin: someone among the authorizers, where there is no
/// admin yet. An admin that is there is told first.
pub proof fn lemma_initialization_guard(call: Invocation, present: bool, admin: Address)
    ensures
        call.initialize_abort(present, admin) is None <==> !present && call.authorizers@.contains(
            admin,
        ),
        call.initialize_abort(present, admin) == Some(Abort::AlreadyInitialized) <==> present,
        call.initialize_abort(present, admin) == Some(Abort::NotAuthorized) <==> !present
            && !call.authorizers@.contains(admin),
{
}

} // verus!
