//! Protocol parameters supplied at start-up.
use vstd::prelude::*;

verus! {

/// Public key material of the deployment; a certificate authority would
/// provide it in a real deployment.
#[derive(Clone, Copy, Debug, PartialEq, Eq)]
pub struct PublicKeys {}

/// The number of moderators and the two thresholds.
#[derive(Clone, Copy, Debug, PartialEq, Eq)]
pub struct GlobalParameters {
    pub n: usize,
    pub t_enc: usize,
    pub t_sig: usize,
    pub keys: PublicKeys,
}

/// The moderator count used where none is configured.
pub const DEFAULT_N: usize = 5;

/// The signing threshold used where none is configured.
pub const DEFAULT_T_SIG: usize = 5;

/// The decryption threshold used where none is configured.
pub const DEFAULT_T_ENC: usize = 3;

impl GlobalParameters {
    /// The configured values, each replaced by its default where it is
    /// missing.
    pub fn with_defaults(n: Option<usize>, t_sig: Option<usize>, t_enc: Option<usize>) -> (r: GlobalParameters)
        ensures
            r.n == match n {
                Some(v) => v,
                None => DEFAULT_N,
            },
            r.t_sig == match t_sig {
                Some(v) => v,
                None => DEFAULT_T_SIG,
            },
            r.t_enc == match t_enc {
                Some(v) => v,
                None => DEFAULT_T_ENC,
            },
    {
        GlobalParameters {
            n: match n {
                Some(v) => v,
                None => DEFAULT_N,
            },
            t_sig: match t_sig {
                Some(v) => v,
                None => DEFAULT_T_SIG,
            },
            t_enc: match t_enc {
                Some(v) => v,
                None => DEFAULT_T_ENC,
            },
            keys: PublicKeys {},
        }
    }
}

} // verus!
