//! The proof object that a prover hands to the verifier.
//!
//! A proof is a plain record. It is built once and never changed, and the
//! verifier reads every field of it.

use crate::integer::Integer;
use vstd::prelude::*;

verus! {

/// The recursive part of a proof: one pair of intermediate commitments for
/// each level of the recursion, the left ones in `L` and the right ones in
/// `R`.
#[allow(non_snake_case)]
#[derive(Debug, Clone)]
pub struct IppProof {
    pub L: Vec<Integer>,
    pub R: Vec<Integer>,
}

/// A range proof.
#[allow(non_snake_case)]
#[derive(Debug, Clone)]
pub struct Cuproof {
    /// Commitment to the bit decomposition of the value.
    pub A: Integer,
    /// Commitment to the blinding vectors.
    pub S: Integer,
    /// Commitment to the first coefficient of the polynomial.
    pub T1: Integer,
    /// Commitment to the second coefficient of the polynomial.
    pub T2: Integer,
    /// Blinding factor that ties the commitments to the evaluation.
    pub tau_x: Integer,
    /// The claimed value of the polynomial at the challenge.
    pub t_hat: Integer,
    /// Commitment to the value.
    pub C: Integer,
    /// Commitment to the first auxiliary part of the value.
    pub C_v1: Integer,
    /// Commitment to the second auxiliary part of the value.
    pub C_v2: Integer,
    /// Constant coefficient of the polynomial.
    pub t0: Integer,
    /// First coefficient of the polynomial, committed to by `T1`.
    pub t1: Integer,
    /// Second coefficient of the polynomial, committed to by `T2`.
    pub t2: Integer,
    /// Blinding factor of `T1`.
    pub tau1: Integer,
    /// Blinding factor of `T2`.
    pub tau2: Integer,
    /// The recursive part.
    pub ipp_proof: IppProof,
}

/// What an [`IppProof`] stands for.
#[allow(non_snake_case)]
pub struct IppProofView {
    pub L: Seq<int>,
    pub R: Seq<int>,
}

/// What a [`Cuproof`] stands for: the value of each field.
#[allow(non_snake_case)]
pub struct CuproofView {
    pub A: int,
    pub S: int,
    pub T1: int,
    pub T2: int,
    pub tau_x: int,
    pub t_hat: int,
    pub C: int,
    pub C_v1: int,
    pub C_v2: int,
    pub t0: int,
    pub t1: int,
    pub t2: int,
    pub tau1: int,
    pub tau2: int,
    pub ipp_proof: IppProofView,
}

impl View for IppProof {
    type V = IppProofView;

    open spec fn view(&self) -> IppProofView {
        IppProofView {
            L: self.L@.map_values(|x: Integer| x@),
            R: self.R@.map_values(|x: Integer| x@),
        }
    }
}

impl View for Cuproof {
    type V = CuproofView;

    open spec fn view(&self) -> CuproofView {
        CuproofView {
            A: self.A@,
            S: self.S@,
            T1: self.T1@,
            T2: self.T2@,
            tau_x: self.tau_x@,
            t_hat: self.t_hat@,
            C: self.C@,
            C_v1: self.C_v1@,
            C_v2: self.C_v2@,
            t0: self.t0@,
            t1: self.t1@,
            t2: self.t2@,
            tau1: self.tau1@,
            tau2: self.tau2@,
            ipp_proof: self.ipp_proof@,
        }
    }
}

} // verus!
