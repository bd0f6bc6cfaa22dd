//! Transaction routing: the action names of the domain form a closed set of
//! variants, matched exhaustively with an explicit unknown-action terminal
//! case, and a replayed transaction is dispatched to its store operation.
use vstd::prelude::*;

use crate::autorisation::{spec_autoriser_transaction, Enveloppe};
use crate::categories::{
    contient_categorie, contient_version, idx_categorie, idx_version, ligne_categorie,
    sauvegarde_categorie_acceptee, spec_categorie_id, spec_version_categorie,
    CollectionCategories,
};
use crate::commandes::{
    ReponseSauvegarderCategorie, ReponseSauvegarderDocument, ReponseSauvegarderGroupe,
};
use crate::common::{
    chaine_egale, TransactionSauvegarderCategorieUsager, TransactionSauvegarderDocument,
    TransactionSauvegarderGroupeUsager, TransactionSupprimerDocument,
};
use crate::documents::{
    contient_document, idx_document, ligne_document_maj, ligne_document_nouvelle,
    ligne_document_supprimee, spec_doc_id, CollectionDocuments,
};
use crate::erreurs::ErreurDocuments;
use crate::evenements::{
    evenement_transaction_categorie, evenement_transaction_document, evenement_transaction_groupe,
    ActionEvenement, ContenuEvenement, Evenement,
};
use crate::groupes::{
    contient_groupe, idx_groupe, ligne_groupe_maj, ligne_groupe_nouvelle, spec_groupe_id,
    CollectionGroupes,
};

verus! {

/// Actions replayable as transactions of this domain.  Group tombstone
/// toggles are command-only and are not part of the replay set.
#[derive(Clone, Copy, Debug, PartialEq, Eq, Structural)]
pub enum ActionTransaction {
    SauvegarderCategorieUsager,
    SauvegarderGroupeUsager,
    SauvegarderDocument,
    SupprimerDocument,
    RecupererDocument,
    Inconnue,
}

/// Routing of a transaction action name.
pub open spec fn spec_router_transaction(a: Seq<char>) -> ActionTransaction {
    if a == "sauvegarderCategorieUsager"@ {
        ActionTransaction::SauvegarderCategorieUsager
    } else if a == "sauvegarderGroupeUsager"@ {
        ActionTransaction::SauvegarderGroupeUsager
    } else if a == "sauvegarderDocument"@ {
        ActionTransaction::SauvegarderDocument
    } else if a == "supprimerDocument"@ {
        ActionTransaction::SupprimerDocument
    } else if a == "recupererDocument"@ {
        ActionTransaction::RecupererDocument
    } else {
        ActionTransaction::Inconnue
    }
}

/// Maps a transaction action name onto the closed variant set.
pub fn router_transaction(action: &String) -> (r: ActionTransaction)
    ensures
        r == spec_router_transaction(action@),
{
    if chaine_egale(action, "sauvegarderCategorieUsager") {
        ActionTransaction::SauvegarderCategorieUsager
    } else if chaine_egale(action, "sauvegarderGroupeUsager") {
        ActionTransaction::SauvegarderGroupeUsager
    } else if chaine_egale(action, "sauvegarderDocument") {
        ActionTransaction::SauvegarderDocument
    } else if chaine_egale(action, "supprimerDocument") {
        ActionTransaction::SupprimerDocument
    } else if chaine_egale(action, "recupererDocument") {
        ActionTransaction::RecupererDocument
    } else {
        ActionTransaction::Inconnue
    }
}

/// Gate of the transaction queue: the action must belong to the domain and
/// the message must arrive on the most secure tier (such transactions are
/// validated upstream by a command).
pub fn consommer_transaction(enveloppe: &Enveloppe, action: &String) -> (r: Result<
    ActionTransaction,
    ErreurDocuments,
>)
    ensures
        spec_router_transaction(action@) == ActionTransaction::Inconnue ==> r == Err::<
            ActionTransaction,
            ErreurDocuments,
        >(ErreurDocuments::ActionInconnue),
        spec_router_transaction(action@) != ActionTransaction::Inconnue
            && !spec_autoriser_transaction(enveloppe) ==> r == Err::<
            ActionTransaction,
            ErreurDocuments,
        >(ErreurDocuments::NonAutorise),
        spec_router_transaction(action@) != ActionTransaction::Inconnue
            && spec_autoriser_transaction(enveloppe) ==> r == Ok::<
            ActionTransaction,
            ErreurDocuments,
        >(spec_router_transaction(action@)),
{
    let route = router_transaction(action);
    if let ActionTransaction::Inconnue = route {
        return Err(ErreurDocuments::ActionInconnue);
    }
    if !enveloppe.autoriser_transaction() {
        return Err(ErreurDocuments::NonAutorise);
    }
    Ok(route)
}

/// A replayed transaction with its payload.
#[derive(Debug)]
pub enum TransactionDocuments {
    SauvegarderCategorieUsager(TransactionSauvegarderCategorieUsager),
    SauvegarderGroupeUsager(TransactionSauvegarderGroupeUsager),
    SauvegarderDocument(TransactionSauvegarderDocument),
    SupprimerDocument(TransactionSupprimerDocument),
    RecupererDocument(TransactionSupprimerDocument),
}

/// Response returned by a replayed transaction.
#[derive(Debug)]
pub enum ReponseTransaction {
    Categorie(ReponseSauvegarderCategorie),
    Groupe(ReponseSauvegarderGroupe),
    Document(ReponseSauvegarderDocument),
}

/// Dispatches a replayed transaction to its store operation, exhaustively
/// over the closed variant set.  Returns the typed response and, for the
/// save transactions, the change event to publish; tombstone toggles emit
/// their event on the command path only.
pub fn aiguillage_transaction(
    categories: &mut CollectionCategories,
    groupes: &mut CollectionGroupes,
    documents: &mut CollectionDocuments,
    user_id: &String,
    id_transaction: &String,
    transaction: TransactionDocuments,
    now: i64,
) -> (r: Result<(ReponseTransaction, Option<Evenement>), ErreurDocuments>)
    requires
        old(categories).inv(),
        old(groupes).inv(),
        old(documents).inv(),
    ensures
        final(categories).inv(),
        final(groupes).inv(),
        final(documents).inv(),
        !(transaction is SauvegarderCategorieUsager) ==> crate::commandes::categories_inchangees(
            *old(categories),
            *final(categories),
        ),
        !(transaction is SauvegarderGroupeUsager) ==> crate::commandes::groupes_inchanges(
            *old(groupes),
            *final(groupes),
        ),
        (transaction is SauvegarderCategorieUsager || transaction is SauvegarderGroupeUsager)
            ==> crate::commandes::documents_inchanges(*old(documents), *final(documents)),
        transaction matches TransactionDocuments::SauvegarderCategorieUsager(t) ==> {
            let user = user_id@;
            let cid = spec_categorie_id(t@, id_transaction@);
            let v = spec_version_categorie(t@);
            let courantes0 = old(categories).courantes.deep_view();
            let versions0 = old(categories).versions.deep_view();
            let ligne = ligne_categorie(user, cid, t@);
            &&& (r is Ok <==> sauvegarde_categorie_acceptee(courantes0, user, cid, v))
            &&& (r is Err ==> r == Err::<(ReponseTransaction, Option<Evenement>), ErreurDocuments>(
                ErreurDocuments::VersionExiste,
            ) && crate::commandes::categories_inchangees(*old(categories), *final(categories)))
            &&& (r matches Ok(ok) ==> {
                let (rep, ev) = ok;
                &&& (rep matches ReponseTransaction::Categorie(rc) && rc.ok == true
                    && rc.category_id@ == cid)
                &&& final(categories).courantes.deep_view() == (if contient_categorie(
                    courantes0,
                    user,
                    cid,
                ) {
                    courantes0.update(idx_categorie(courantes0, user, cid), ligne)
                } else {
                    courantes0.push(ligne)
                })
                &&& final(categories).versions.deep_view() == (if contient_version(
                    versions0,
                    user,
                    cid,
                    v,
                ) {
                    versions0.update(idx_version(versions0, user, cid, v), ligne)
                } else {
                    versions0.push(ligne)
                })
                &&& (ev matches Some(e) && e.action
                    == ActionEvenement::SauvegarderCategorieUsager && e.partition@ == user
                    && (e.contenu matches ContenuEvenement::Categorie(d) && d@ == ligne))
            })
        },
        transaction matches TransactionDocuments::SauvegarderGroupeUsager(t) ==> {
            let user = user_id@;
            let gid = spec_groupe_id(t@, id_transaction@);
            let rows0 = old(groupes).groupes.deep_view();
            let ligne = if contient_groupe(rows0, user, gid) {
                ligne_groupe_maj(rows0[idx_groupe(rows0, user, gid)], t@, now)
            } else {
                ligne_groupe_nouvelle(user, gid, t@, now)
            };
            &&& r is Ok
            &&& (r matches Ok(ok) ==> {
                let (rep, ev) = ok;
                &&& (rep matches ReponseTransaction::Groupe(rg) && rg.ok == true && rg.group_id@
                    == gid)
                &&& final(groupes).groupes.deep_view() == (if contient_groupe(rows0, user, gid) {
                    rows0.update(idx_groupe(rows0, user, gid), ligne)
                } else {
                    rows0.push(ligne)
                })
                &&& (ev matches Some(e) && e.action == ActionEvenement::SauvegarderGroupeUsager
                    && e.partition@ == user && (e.contenu matches ContenuEvenement::Groupe(d) && d@
                    == ligne.groupe))
            })
        },
        transaction matches TransactionDocuments::SauvegarderDocument(t) ==> {
            let user = user_id@;
            let did = spec_doc_id(t@, id_transaction@);
            let rows0 = old(documents).documents.deep_view();
            let ligne = if contient_document(rows0, user, did) {
                ligne_document_maj(rows0[idx_document(rows0, user, did)], t@, now)
            } else {
                ligne_document_nouvelle(user, did, t@, now)
            };
            &&& r is Ok
            &&& (r matches Ok(ok) ==> {
                let (rep, ev) = ok;
                &&& (rep matches ReponseTransaction::Document(rd) && rd.ok == true && rd.doc_id@
                    == did)
                &&& final(documents).documents.deep_view() == (if contient_document(
                    rows0,
                    user,
                    did,
                ) {
                    rows0.update(idx_document(rows0, user, did), ligne)
                } else {
                    rows0.push(ligne)
                })
                &&& (ev matches Some(e) && e.action == ActionEvenement::SauvegarderDocument
                    && e.partition@ == user && (e.contenu matches ContenuEvenement::Document(d)
                    && d@ == ligne.document))
            })
        },
        transaction matches TransactionDocuments::SupprimerDocument(t) ==> bascule_conforme(
            *old(documents),
            *final(documents),
            user_id@,
            t.doc_id@,
            true,
            now,
            r,
        ),
        transaction matches TransactionDocuments::RecupererDocument(t) ==> bascule_conforme(
            *old(documents),
            *final(documents),
            user_id@,
            t.doc_id@,
            false,
            now,
            r,
        ),
{
    match transaction {
        TransactionDocuments::SauvegarderCategorieUsager(t) => {
            match categories.transaction_sauvegarder_categorie_usager(user_id, id_transaction, t) {
                Ok((category_id, document)) => {
                    let ev = evenement_transaction_categorie(user_id, document);
                    Ok(
                        (
                            ReponseTransaction::Categorie(
                                ReponseSauvegarderCategorie { ok: true, category_id },
                            ),
                            Some(ev),
                        ),
                    )
                },
                Err(e) => Err(e),
            }
        },
        TransactionDocuments::SauvegarderGroupeUsager(t) => {
            let (group_id, document) = groupes.transaction_sauvegarder_groupe_usager(
                user_id,
                id_transaction,
                t,
                now,
            );
            let ev = evenement_transaction_groupe(user_id, document);
            Ok(
                (
                    ReponseTransaction::Groupe(ReponseSauvegarderGroupe { ok: true, group_id }),
                    Some(ev),
                ),
            )
        },
        TransactionDocuments::SauvegarderDocument(t) => {
            let (doc_id, document) = documents.transaction_sauvegarder_document(
                user_id,
                id_transaction,
                t,
                now,
            );
            let ev = evenement_transaction_document(user_id, document);
            Ok(
                (
                    ReponseTransaction::Document(ReponseSauvegarderDocument { ok: true, doc_id }),
                    Some(ev),
                ),
            )
        },
        TransactionDocuments::SupprimerDocument(t) => {
            match documents.transaction_supprimer_document(user_id, &t.doc_id, true, now) {
                Ok(_) => Ok(
                    (
                        ReponseTransaction::Document(
                            ReponseSauvegarderDocument { ok: true, doc_id: t.doc_id },
                        ),
                        None,
                    ),
                ),
                Err(e) => Err(e),
            }
        },
        TransactionDocuments::RecupererDocument(t) => {
            match documents.transaction_supprimer_document(user_id, &t.doc_id, false, now) {
                Ok(_) => Ok(
                    (
                        ReponseTransaction::Document(
                            ReponseSauvegarderDocument { ok: true, doc_id: t.doc_id },
                        ),
                        None,
                    ),
                ),
                Err(e) => Err(e),
            }
        },
    }
}

/// Outcome of a replayed document tombstone toggle: unknown id and
/// already-in-state are typed rejections that leave the store unchanged;
/// otherwise the flag is flipped, stamped, and acknowledged without an event.
pub open spec fn bascule_conforme(
    avant: CollectionDocuments,
    apres: CollectionDocuments,
    user: Seq<char>,
    doc_id: Seq<char>,
    supprime: bool,
    now: i64,
    r: Result<(ReponseTransaction, Option<Evenement>), ErreurDocuments>,
) -> bool {
    let rows0 = avant.documents.deep_view();
    if !contient_document(rows0, user, doc_id) {
        r == Err::<(ReponseTransaction, Option<Evenement>), ErreurDocuments>(
            ErreurDocuments::DocumentInconnu,
        ) && apres.documents.deep_view() == rows0
    } else {
        let i = idx_document(rows0, user, doc_id);
        if (rows0[i].document.supprime == Some(true)) == supprime {
            &&& r == Err::<(ReponseTransaction, Option<Evenement>), ErreurDocuments>(
                if supprime {
                    ErreurDocuments::DocumentDejaSupprime
                } else {
                    ErreurDocuments::DocumentDejaRecupere
                },
            )
            &&& apres.documents.deep_view() == rows0
        } else {
            &&& (r matches Ok(ok) && (ok.0 matches ReponseTransaction::Document(rd) && rd.ok
                == true && rd.doc_id@ == doc_id) && ok.1 is None)
            &&& apres.documents.deep_view() == rows0.update(
                i,
                ligne_document_supprimee(rows0[i], supprime, now),
            )
        }
    }
}

} // verus!
