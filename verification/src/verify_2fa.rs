//! The enrollment-verification flow: the only path that turns an account's
//! second factor on. The `enabled` flag is a one-way latch — a second
//! verification is refused whatever code it carries — and a wrong code
//! changes nothing.

use vstd::prelude::*;
use crate::store::{AuthState, has_user_with_id, is_first_with_id, lemma_first_with_id_unique,
    users_wf, with_enabled};
use crate::totp::totp_check_current;

verus! {

/// An enrollment-verification request.
pub struct Verify2FaJSONBody {
    pub id: String,
    pub code: String,
}

/// The enrollment-verification response.
pub struct Verify2FaJSONResponse {
    pub success: bool,
    pub message: Option<String>,
}

/// Why an enrollment verification failed.
pub enum EnrollmentError {
    NotFound,
    AlreadyEnabled,
    InvalidCode,
}

impl AuthState {
    /// Commits the outcome of a code check for the still-disabled account at
    /// `i`: a valid code sets the latch and nothing else; an invalid one
    /// changes nothing and is refused with `InvalidCode`.
    pub fn apply_enrollment(&mut self, i: usize, code_ok: bool) -> (r: Result<(), EnrollmentError>)
        requires
            old(self).wf(),
            i < old(self).users@.len(),
            !old(self).users@[i as int].two_factor_state.enabled,
        ensures
            final(self).wf(),
            code_ok ==> r is Ok && final(self).users@ == old(self).users@.update(
                i as int,
                with_enabled(old(self).users@[i as int]),
            ),
            !code_ok ==> (r matches Err(EnrollmentError::InvalidCode)) && *final(self) == *old(
                self,
            ),
            final(self).sessions == old(self).sessions,
            final(self).id_generator == old(self).id_generator,
    {
        if code_ok {
            self.users[i].two_factor_state.enabled = true;
            proof {
                assert(self.users@ =~= old(self).users@.update(
                    i as int,
                    with_enabled(old(self).users@[i as int]),
                ));
                assert(users_wf(self.users@));
            }
            Ok(())
        } else {
            Err(EnrollmentError::InvalidCode)
        }
    }

    /// Verifies enrollment for the account `id`. `NotFound` exactly when no
    /// account has that identifier; `AlreadyEnabled` exactly when it exists
    /// with the latch already set, whatever the code. Otherwise the code is
    /// checked against the account's TOTP instance and the outcome committed
    /// through `apply_enrollment`: on success only that account's latch is
    /// set; on `InvalidCode` nothing changes.
    pub fn verify_enrollment(&mut self, id: &str, code: &str) -> (r: Result<(), EnrollmentError>)
        requires
            old(self).wf(),
        ensures
            final(self).wf(),
            (r matches Err(EnrollmentError::NotFound)) <==> !has_user_with_id(
                old(self).users@,
                id@,
            ),
            (r matches Err(EnrollmentError::AlreadyEnabled)) <==> (exists|i: int|
                is_first_with_id(old(self).users@, id@, i) && old(
                    self,
                ).users@[i].two_factor_state.enabled),
            r is Err ==> *final(self) == *old(self),
            r is Ok ==> (exists|i: int|
                is_first_with_id(old(self).users@, id@, i) && !old(
                    self,
                ).users@[i].two_factor_state.enabled && final(self).users@ == old(
                    self,
                ).users@.update(i, with_enabled(old(self).users@[i]))),
            (r matches Err(EnrollmentError::InvalidCode)) ==> (exists|i: int|
                is_first_with_id(old(self).users@, id@, i) && !old(
                    self,
                ).users@[i].two_factor_state.enabled),
            final(self).sessions == old(self).sessions,
            final(self).id_generator == old(self).id_generator,
    {
        match self.find_by_id(id) {
            None => Err(EnrollmentError::NotFound),
            Some(i) => {
                if self.users[i].two_factor_state.enabled {
                    return Err(EnrollmentError::AlreadyEnabled);
                }
                let code_ok = totp_check_current(&self.users[i].totp, code);
                self.apply_enrollment(i, code_ok)
            },
        }
    }

    /// The enrollment-verification flow behind the verification route: maps
    /// the outcome of `verify_enrollment` to the wire response and its fixed
    /// messages.
    pub fn handle_verify_2fa(&mut self, body: &Verify2FaJSONBody) -> (resp: Verify2FaJSONResponse)
        requires
            old(self).wf(),
        ensures
            final(self).wf(),
            !resp.success ==> *final(self) == *old(self),
            !has_user_with_id(old(self).users@, body.id@) ==> !resp.success
                && (resp.message matches Some(m) && m@ == "User not found"@),
            (exists|i: int|
                is_first_with_id(old(self).users@, body.id@, i) && old(
                    self,
                ).users@[i].two_factor_state.enabled) ==> !resp.success && (resp.message
                matches Some(m) && m@ == "2FA is already enabled"@),
            ((exists|i: int|
                #[trigger] is_first_with_id(old(self).users@, body.id@, i) && !old(
                    self,
                ).users@[i].two_factor_state.enabled) && !resp.success) ==> (resp.message
                matches Some(m) && m@ == "Invalid 2FA code"@),
            resp.success ==> resp.message is None && (exists|i: int|
                is_first_with_id(old(self).users@, body.id@, i) && !old(
                    self,
                ).users@[i].two_factor_state.enabled && final(self).users@ == old(
                    self,
                ).users@.update(i, with_enabled(old(self).users@[i]))),
            final(self).sessions == old(self).sessions,
    {
        match self.verify_enrollment(body.id.as_str(), body.code.as_str()) {
            Ok(()) => Verify2FaJSONResponse { success: true, message: None },
            Err(EnrollmentError::AlreadyEnabled) => {
                proof {
                    if exists|i: int|
                        #[trigger] is_first_with_id(old(self).users@, body.id@, i) && !old(
                            self,
                        ).users@[i].two_factor_state.enabled {
                        let i = choose|i: int|
                            #[trigger] is_first_with_id(old(self).users@, body.id@, i) && !old(
                                self,
                            ).users@[i].two_factor_state.enabled;
                        let j = choose|j: int|
                            is_first_with_id(old(self).users@, body.id@, j) && old(
                                self,
                            ).users@[j].two_factor_state.enabled;
                        lemma_first_with_id_unique(old(self).users@, body.id@, i, j);
                    }
                }
                Verify2FaJSONResponse {
                    success: false,
                    message: Some(String::from_str("2FA is already enabled")),
                }
            },
            Err(EnrollmentError::InvalidCode) => Verify2FaJSONResponse {
                success: false,
                message: Some(String::from_str("Invalid 2FA code")),
            },
            Err(EnrollmentError::NotFound) => {
                proof {
                    if exists|i: int|
                        #[trigger] is_first_with_id(old(self).users@, body.id@, i) && !old(
                            self,
                        ).users@[i].two_factor_state.enabled {
                        let i = choose|i: int|
                            #[trigger] is_first_with_id(old(self).users@, body.id@, i) && !old(
                                self,
                            ).users@[i].two_factor_state.enabled;
                        assert(has_user_with_id(old(self).users@, body.id@));
                    }
                }
                Verify2FaJSONResponse {
                    success: false,
                    message: Some(String::from_str("User not found")),
                }
            },
        }
    }
}

/// The latch is one-way: once an account's second factor is enabled, a later
/// enrollment verification for its identifier is refused with
/// `AlreadyEnabled`, whatever code it carries (`verify_enrollment` ties that
/// error to this state).
pub proof fn lemma_enrollment_is_one_way(users: Seq<crate::account::User>, id: Seq<char>, i: int)
    requires
        is_first_with_id(users, id, i),
        users[i].two_factor_state.enabled,
    ensures
        exists|j: int|
            is_first_with_id(users, id, j) && users[j].two_factor_state.enabled,
        !(exists|j: int|
            is_first_with_id(users, id, j) && !users[j].two_factor_state.enabled),
{
    assert forall|j: int|
        is_first_with_id(users, id, j) implies j == i by {
        if j < i {
            assert(users[j].id@ != id);
        } else if j > i {
            assert(users[i].id@ != id);
        }
    }
}

} // verus!
