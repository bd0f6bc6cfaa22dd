//! Error taxonomy of the domain.  Every negative outcome that reaches a
//! requester is one of these typed values; the surrounding process turns it
//! into a well-formed error response (numeric code plus text) and never raises.
use vstd::prelude::*;

verus! {

/// Typed rejection returned by the domain logic.
#[derive(Debug, PartialEq)]
pub enum ErreurDocuments {
    /// The sender fails the authorization gate; the request is dropped.
    NonAutorise,
    /// A query arrived without an owner id in the certificate.
    AccesRefuse,
    /// The certificate carries no owner id although one is required.
    UserIdAbsent,
    /// A category id was given without a version.
    VersionManquante,
    /// The category already stores this version or a later one.
    VersionExiste,
    /// The category of an existing group cannot be changed.
    CategorieChangee,
    /// The group of an existing document cannot be changed.
    GroupeChange,
    /// A new group was saved without an attached decryption key.
    CleManquante,
    /// The document is already soft-deleted.
    DocumentDejaSupprime,
    /// The document is already restored.
    DocumentDejaRecupere,
    /// The group is already soft-deleted.
    GroupeDejaSupprime,
    /// The group is already restored.
    GroupeDejaRecupere,
    /// No document carries the requested id for this owner.
    DocumentInconnu,
    /// No group carries the requested id for this owner.
    GroupeInconnu,
    /// The key custodian rejected, answered out of protocol, or timed out.
    SauvegardeCle { code: u32, message: Option<String>, err: Option<String> },
    /// The action name of the message is not part of the domain.
    ActionInconnue,
}

impl ErreurDocuments {
    /// Numeric code carried by the error response, as the platform knows it.
    pub fn code(&self) -> (r: u32)
        ensures
            r == self.spec_code(),
    {
        match self {
            ErreurDocuments::NonAutorise => 0,
            ErreurDocuments::AccesRefuse => 0,
            ErreurDocuments::UserIdAbsent => 0,
            ErreurDocuments::VersionManquante => 0,
            ErreurDocuments::VersionExiste => 0,
            ErreurDocuments::CategorieChangee => 0,
            ErreurDocuments::GroupeChange => 0,
            ErreurDocuments::CleManquante => 0,
            ErreurDocuments::DocumentDejaSupprime => 1,
            ErreurDocuments::DocumentDejaRecupere => 1,
            ErreurDocuments::GroupeDejaSupprime => 1,
            ErreurDocuments::GroupeDejaRecupere => 1,
            ErreurDocuments::DocumentInconnu => 404,
            ErreurDocuments::GroupeInconnu => 404,
            ErreurDocuments::SauvegardeCle { code, .. } => *code,
            ErreurDocuments::ActionInconnue => 0,
        }
    }

    /// Specification of [`Self::code`].
    pub open spec fn spec_code(&self) -> u32 {
        match self {
            ErreurDocuments::DocumentDejaSupprime => 1,
            ErreurDocuments::DocumentDejaRecupere => 1,
            ErreurDocuments::GroupeDejaSupprime => 1,
            ErreurDocuments::GroupeDejaRecupere => 1,
            ErreurDocuments::DocumentInconnu => 404,
            ErreurDocuments::GroupeInconnu => 404,
            ErreurDocuments::SauvegardeCle { code, .. } => *code,
            _ => 0,
        }
    }

    /// Human-readable reason placed in the error response.
    pub fn libelle(&self) -> (r: &'static str)
        ensures
            r@ == self.spec_libelle(),
    {
        match self {
            ErreurDocuments::NonAutorise => "Acces refuse",
            ErreurDocuments::AccesRefuse => "Access denied",
            ErreurDocuments::UserIdAbsent => "User_id absent du certificat",
            ErreurDocuments::VersionManquante => "Categorie_id present sans version",
            ErreurDocuments::VersionExiste => "Version categorie existe deja",
            ErreurDocuments::CategorieChangee => "La categorie ne peut pas etre changee",
            ErreurDocuments::GroupeChange => "Le groupe ne peut pas etre changee",
            ErreurDocuments::CleManquante => "Cle manquante",
            ErreurDocuments::DocumentDejaSupprime => "Document already deleted",
            ErreurDocuments::DocumentDejaRecupere => "Document already restored",
            ErreurDocuments::GroupeDejaSupprime => "Group already deleted",
            ErreurDocuments::GroupeDejaRecupere => "Group already restored",
            ErreurDocuments::DocumentInconnu => "Unknown document",
            ErreurDocuments::GroupeInconnu => "Unknown Group",
            ErreurDocuments::SauvegardeCle { .. } => "Erreur sauvegarde cle",
            ErreurDocuments::ActionInconnue => "Action inconnue",
        }
    }

    /// Specification of [`Self::libelle`].
    pub open spec fn spec_libelle(&self) -> Seq<char> {
        match self {
            ErreurDocuments::NonAutorise => "Acces refuse"@,
            ErreurDocuments::AccesRefuse => "Access denied"@,
            ErreurDocuments::UserIdAbsent => "User_id absent du certificat"@,
            ErreurDocuments::VersionManquante => "Categorie_id present sans version"@,
            ErreurDocuments::VersionExiste => "Version categorie existe deja"@,
            ErreurDocuments::CategorieChangee => "La categorie ne peut pas etre changee"@,
            ErreurDocuments::GroupeChange => "Le groupe ne peut pas etre changee"@,
            ErreurDocuments::CleManquante => "Cle manquante"@,
            ErreurDocuments::DocumentDejaSupprime => "Document already deleted"@,
            ErreurDocuments::DocumentDejaRecupere => "Document already restored"@,
            ErreurDocuments::GroupeDejaSupprime => "Group already deleted"@,
            ErreurDocuments::GroupeDejaRecupere => "Group already restored"@,
            ErreurDocuments::DocumentInconnu => "Unknown document"@,
            ErreurDocuments::GroupeInconnu => "Unknown Group"@,
            ErreurDocuments::SauvegardeCle { .. } => "Erreur sauvegarde cle"@,
            ErreurDocuments::ActionInconnue => "Action inconnue"@,
        }
    }
}

} // verus!
