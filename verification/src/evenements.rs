//! Change notifier: after every successful mutation the domain emits one
//! partitioned event per affected scope.  The events are built here as plain
//! values; the surrounding process publishes them on the domain's topic and
//! propagates any transport failure to the caller without retrying.
use vstd::prelude::*;

use crate::autorisation::Securite;
use crate::common::{
    DocCategorieUsager, DocCategorieUsagerView, DocDocument, DocDocumentView, DocGroupeUsager,
    DocGroupeUsagerView, TransactionSauvegarderCategorieUsager, TransactionSauvegarderDocument,
    TransactionSauvegarderGroupeUsager,
};

verus! {

/// Action name under which an event is routed.
#[derive(Clone, Copy, Debug, PartialEq, Eq, Structural)]
pub enum ActionEvenement {
    SauvegarderCategorieUsager,
    SauvegarderGroupeUsager,
    SauvegarderDocument,
    UpdateCatGroup,
    UpdateGroupDocument,
}

impl ActionEvenement {
    /// Routing-key segment of the action.
    pub fn nom(&self) -> (r: &'static str)
        ensures
            r@ == self.spec_nom(),
    {
        match self {
            ActionEvenement::SauvegarderCategorieUsager => "sauvegarderCategorieUsager",
            ActionEvenement::SauvegarderGroupeUsager => "sauvegarderGroupeUsager",
            ActionEvenement::SauvegarderDocument => "sauvegarderDocument",
            ActionEvenement::UpdateCatGroup => "updateCatGroup",
            ActionEvenement::UpdateGroupDocument => "updateGroupDocument",
        }
    }

    /// Specification of [`Self::nom`].
    pub open spec fn spec_nom(&self) -> Seq<char> {
        match self {
            ActionEvenement::SauvegarderCategorieUsager => "sauvegarderCategorieUsager"@,
            ActionEvenement::SauvegarderGroupeUsager => "sauvegarderGroupeUsager"@,
            ActionEvenement::SauvegarderDocument => "sauvegarderDocument"@,
            ActionEvenement::UpdateCatGroup => "updateCatGroup"@,
            ActionEvenement::UpdateGroupDocument => "updateGroupDocument"@,
        }
    }
}

/// Combined category/group update notification sent to cache subscribers.
#[derive(Debug)]
pub struct EvenementMaj {
    pub category: Option<TransactionSauvegarderCategorieUsager>,
    pub group: Option<TransactionSauvegarderGroupeUsager>,
}

/// Document update notification sent to cache subscribers.
#[derive(Debug)]
pub struct EvenementDocumentMaj {
    pub document: TransactionSauvegarderDocument,
}

/// Document tombstone-toggle notification.
#[derive(Debug, PartialEq)]
pub struct EvenementDocumentSupprime {
    pub doc_id: String,
    pub supprime: bool,
}

/// Group tombstone-toggle notification.
#[derive(Debug, PartialEq)]
pub struct EvenementGroupeSupprime {
    pub groupe_id: String,
    pub supprime: bool,
}

/// Payload carried by an emitted event.
#[derive(Debug)]
pub enum ContenuEvenement {
    /// Stored category row, after a replayed category transaction.
    Categorie(DocCategorieUsager),
    /// Stored group row, after a replayed group transaction.
    Groupe(DocGroupeUsager),
    /// Stored document row, after a replayed document transaction.
    Document(DocDocument),
    /// Category/group command applied.
    Maj(EvenementMaj),
    /// Document command applied.
    DocumentMaj(EvenementDocumentMaj),
    /// Document tombstone toggled.
    DocumentSupprime(EvenementDocumentSupprime),
    /// Group tombstone toggled.
    GroupeSupprime(EvenementGroupeSupprime),
}

/// One event to publish: action, partition key and payload.  Every event of
/// this domain is published on the private trust tier.
#[derive(Debug)]
pub struct Evenement {
    pub action: ActionEvenement,
    pub partition: String,
    pub contenu: ContenuEvenement,
}

impl Evenement {
    /// Trust tier every event of this domain is published on.
    pub fn exchange(&self) -> (r: Securite)
        ensures
            r == Securite::L2Prive,
    {
        Securite::L2Prive
    }
}

/// Composite partition key `owner_id + "_" + group_id` used by document
/// events, distinct from the plain owner partition of group events.
pub fn partition_usager_groupe(user_id: &String, groupe_id: &String) -> (r: String)
    ensures
        r@ == user_id@ + "_"@ + groupe_id@,
{
    let r = user_id.clone().concat("_").concat(groupe_id.as_str());
    r
}

/// The domain consumes no events: any event routed to it is an unknown
/// action.
pub fn consommer_evenement(_action: &String) -> (r: Result<(), crate::erreurs::ErreurDocuments>)
    ensures
        r == Err::<(), crate::erreurs::ErreurDocuments>(
            crate::erreurs::ErreurDocuments::ActionInconnue,
        ),
{
    Err(crate::erreurs::ErreurDocuments::ActionInconnue)
}

/// Event emitted after a replayed category transaction: the stored row,
/// partitioned by its owner.
pub fn evenement_transaction_categorie(user_id: &String, document: DocCategorieUsager) -> (ev:
    Evenement)
    ensures
        ev.action == ActionEvenement::SauvegarderCategorieUsager,
        ev.partition@ == user_id@,
        ev.contenu matches ContenuEvenement::Categorie(d) && d@ == document@,
{
    let ghost vue = document@;
    let ev = Evenement {
        action: ActionEvenement::SauvegarderCategorieUsager,
        partition: user_id.clone(),
        contenu: ContenuEvenement::Categorie(document),
    };
    ev
}

/// Event emitted after a replayed group transaction: the stored row,
/// partitioned by its owner.
pub fn evenement_transaction_groupe(user_id: &String, document: DocGroupeUsager) -> (ev: Evenement)
    ensures
        ev.action == ActionEvenement::SauvegarderGroupeUsager,
        ev.partition@ == user_id@,
        ev.contenu matches ContenuEvenement::Groupe(d) && d@ == document@,
{
    Evenement {
        action: ActionEvenement::SauvegarderGroupeUsager,
        partition: user_id.clone(),
        contenu: ContenuEvenement::Groupe(document),
    }
}

/// Event emitted after a replayed document transaction: the stored row,
/// partitioned by its owner.
pub fn evenement_transaction_document(user_id: &String, document: DocDocument) -> (ev: Evenement)
    ensures
        ev.action == ActionEvenement::SauvegarderDocument,
        ev.partition@ == user_id@,
        ev.contenu matches ContenuEvenement::Document(d) && d@ == document@,
{
    Evenement {
        action: ActionEvenement::SauvegarderDocument,
        partition: user_id.clone(),
        contenu: ContenuEvenement::Document(document),
    }
}

} // verus!
