use vstd::prelude::*;

verus! {

/// Which side of the obstacle a vault proceeds to, along the obstacle's
/// transverse axis.
#[derive(Clone, Copy, Debug, PartialEq, Eq, Structural)]
pub enum VaultDirection {
    Pos,
    Neg,
}

impl VaultDirection {
    /// The sign that this direction stands for: `1` or `-1`.
    pub open spec fn sign(self) -> int {
        match self {
            VaultDirection::Pos => 1,
            VaultDirection::Neg => -1,
        }
    }

    /// The direction that a nonzero signed value picks; zero picks none.
    pub open spec fn spec_from_component(s: int) -> Option<VaultDirection> {
        if s > 0 {
            Some(VaultDirection::Pos)
        } else if s < 0 {
            Some(VaultDirection::Neg)
        } else {
            None
        }
    }

    /// Derives the direction from the transverse component of a contact
    /// normal. A zero component is degenerate and is rejected with `None`.
    pub fn from_component(s: i64) -> (r: Option<VaultDirection>)
        ensures
            r == Self::spec_from_component(s as int),
            r == Some(VaultDirection::Pos) <==> s > 0,
            r == Some(VaultDirection::Neg) <==> s < 0,
            r is None <==> s == 0,
    {
        if s > 0 {
            Some(VaultDirection::Pos)
        } else if s < 0 {
            Some(VaultDirection::Neg)
        } else {
            None
        }
    }

    /// Folds the direction's sign into `rhs`: `rhs` for `Pos`, `-rhs` for
    /// `Neg`.
    pub fn mul(self, rhs: i64) -> (r: i64)
        requires
            rhs > i64::MIN,
        ensures
            r == self.sign() * rhs,
            self == VaultDirection::Pos ==> r == rhs,
            self == VaultDirection::Neg ==> r == -rhs,
    {
        match self {
            VaultDirection::Pos => rhs,
            VaultDirection::Neg => -rhs,
        }
    }
}

/// A direction is picked from a signed value by its sign alone: `Pos`
/// exactly for positive values, `Neg` exactly for negative ones, and none
/// for zero.
pub proof fn lemma_direction_derivation(s: int)
    ensures
        VaultDirection::spec_from_component(s) == Some(VaultDirection::Pos) <==> s > 0,
        VaultDirection::spec_from_component(s) == Some(VaultDirection::Neg) <==> s < 0,
        VaultDirection::spec_from_component(s) is None <==> s == 0,
{
}

/// Folding a sign leaves a value unchanged for `Pos` and negates it for
/// `Neg`.
pub proof fn lemma_sign_fold(x: int)
    ensures
        VaultDirection::Pos.sign() * x == x,
        VaultDirection::Neg.sign() * x == -x,
{
}

} // verus!
