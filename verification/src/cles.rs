//! Key delegation protocol: a newly created group carries an attached,
//! signed decryption key that must be accepted by the external key custodian
//! before the group row is committed.
//!
//! The request/response exchange itself is performed by the surrounding
//! process; this module interprets its outcome.  The interaction is strictly
//! at-most-once: no retry is attempted here.
use vstd::prelude::*;

use crate::common::view_opt_string;
use crate::erreurs::ErreurDocuments;

verus! {

/// Generic command acknowledgment of the platform, as the custodian sends it.
#[derive(Debug, PartialEq)]
pub struct ReponseCommande {
    pub ok: Option<bool>,
    pub message: Option<String>,
    pub err: Option<String>,
}

/// Outcome of the key-attachment round trip, as observed on the wire.
#[derive(Debug, PartialEq)]
pub enum IssueTransmissionCle {
    /// The custodian answered with a well-formed acknowledgment.
    Reponse(ReponseCommande),
    /// The custodian answered with something that is not an acknowledgment.
    MauvaisTypeReponse,
    /// No response arrived in time.
    Timeout,
}

/// Interprets the custodian's outcome.  An explicit success lets the save
/// proceed; an explicit failure aborts with its own message; an answer out of
/// protocol and a timeout abort with the fixed codes 2 and 1 respectively.
pub fn interpreter_reponse_cle(issue: IssueTransmissionCle) -> (r: Result<(), ErreurDocuments>)
    ensures
        r is Ok <==> (issue matches IssueTransmissionCle::Reponse(rep) && rep.ok == Some(true)),
        match issue {
            IssueTransmissionCle::Reponse(rep) => rep.ok != Some(true) ==> (r matches Err(
                ErreurDocuments::SauvegardeCle { code, message, err },
            ) && code == 3 && message == rep.message && err == rep.err),
            IssueTransmissionCle::MauvaisTypeReponse => r matches Err(
                ErreurDocuments::SauvegardeCle { code, message, err },
            ) && code == 2 && message is None && view_opt_string(&err) == Some(
                "Erreur sauvegarde cle"@,
            ),
            IssueTransmissionCle::Timeout => r matches Err(
                ErreurDocuments::SauvegardeCle { code, message, err },
            ) && code == 1 && message is None && view_opt_string(&err) == Some("Timeout"@),
        },
{
    match issue {
        IssueTransmissionCle::Reponse(rep) => {
            let succes = match rep.ok {
                Some(true) => true,
                _ => false,
            };
            if succes {
                Ok(())
            } else {
                Err(ErreurDocuments::SauvegardeCle {
                    code: 3,
                    message: rep.message,
                    err: rep.err,
                })
            }
        },
        IssueTransmissionCle::MauvaisTypeReponse => Err(ErreurDocuments::SauvegardeCle {
            code: 2,
            message: None,
            err: Some("Erreur sauvegarde cle".to_owned()),
        }),
        IssueTransmissionCle::Timeout => Err(ErreurDocuments::SauvegardeCle {
            code: 1,
            message: None,
            err: Some("Timeout".to_owned()),
        }),
    }
}

} // verus!
