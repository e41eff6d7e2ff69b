use vstd::prelude::*;

use crate::keychain::Keychain;
use crate::nodes::{NodeIndex, Round, SessionId};
use crate::units::{unit_signed, SignedUnit, SignedUnitView, UncheckedSignedUnit};

verus! {

/// Why a unit was not admitted.
#[derive(Clone, Copy, Debug, PartialEq, Eq, Structural)]
pub enum ValidationError {
    /// The signature is not the creator's signature of the unit.
    WrongSignature,
    /// The unit belongs to another session.
    WrongSession(SessionId),
    /// The unit's round is above the highest admitted round.
    RoundTooHigh(Round),
    /// The creator is not a committee member.
    WrongCreator(NodeIndex),
}

/// The outcome of validating `u`: the first rule it breaks, if any.
pub open spec fn validation_result<K: Keychain>(
    session_id: SessionId,
    max_round: Round,
    n_members: nat,
    u: SignedUnitView,
) -> Result<(), ValidationError> {
    if !unit_signed::<K>(u) {
        Err(ValidationError::WrongSignature)
    } else if u.unit.session_id != session_id {
        Err(ValidationError::WrongSession(u.unit.session_id))
    } else if u.unit.pre_unit.round > max_round {
        Err(ValidationError::RoundTooHigh(u.unit.pre_unit.round))
    } else if u.unit.pre_unit.creator.0 >= n_members {
        Err(ValidationError::WrongCreator(u.unit.pre_unit.creator))
    } else {
        Ok(())
    }
}

/// Decides whether a unit may be admitted.
#[derive(Debug)]
pub struct Validator<K> {
    pub session_id: SessionId,
    pub keychain: K,
    pub max_round: Round,
}

impl<K: Keychain> Validator<K> {
    pub fn new(session_id: SessionId, keychain: K, max_round: Round) -> (r: Validator<K>)
        ensures
            r == (Validator { session_id, keychain, max_round }),
    {
        Validator { session_id, keychain, max_round }
    }

    /// The outcome of validating `u` with this validator.
    pub open spec fn result(&self, u: SignedUnitView) -> Result<(), ValidationError> {
        validation_result::<K>(
            self.session_id,
            self.max_round,
            self.keychain.spec_node_count().0 as nat,
            u,
        )
    }

    /// Checks the signature against the creator, the session, the round bound and the
    /// creator's index, in this order.
    pub fn validate_unit(&self, uu: UncheckedSignedUnit) -> (r: Result<SignedUnit, ValidationError>)
        ensures
            r is Ok <==> self.result(uu@) is Ok,
            r matches Ok(su) ==> su@ == uu@,
            r matches Err(e) ==> self.result(uu@) == Err::<(), ValidationError>(e),
    {
        let su = match uu.check(&self.keychain) {
            Ok(su) => su,
            Err(_) => {
                return Err(ValidationError::WrongSignature);
            },
        };
        let full_unit = su.as_signable();
        if full_unit.session_id() != self.session_id {
            return Err(ValidationError::WrongSession(full_unit.session_id()));
        }
        if full_unit.round() > self.max_round {
            return Err(ValidationError::RoundTooHigh(full_unit.round()));
        }
        if full_unit.creator().0 >= self.keychain.node_count().0 {
            return Err(ValidationError::WrongCreator(full_unit.creator()));
        }
        Ok(su)
    }
}

} // verus!
