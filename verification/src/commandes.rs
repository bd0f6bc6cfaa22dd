//! Command handlers: authorization, validation and conflict checks in front
//! of the store mutations, plus the change events emitted on success.
//!
//! A handler returns either a typed response together with the events to
//! publish, or a typed rejection; it never mutates the stores on a rejection.
use vstd::prelude::*;

use crate::autorisation::{spec_autoriser_action_usager, Enveloppe};
use crate::categories::{
    contient_categorie, idx_categorie, ligne_categorie, sauvegarde_categorie_acceptee,
    spec_categorie_id, spec_version_categorie, CollectionCategories,
};
use crate::common::{
    TransactionSauvegarderCategorieUsager, TransactionSauvegarderCategorieUsagerView,
    TransactionSauvegarderDocument, TransactionSauvegarderDocumentView,
    TransactionSauvegarderGroupeUsager, TransactionSupprimerDocument, TransactionSupprimerGroupe,
};
use crate::documents::{
    contient_document, idx_document, ligne_document_maj, ligne_document_nouvelle,
    ligne_document_supprimee, spec_doc_id, CollectionDocuments,
};
use crate::erreurs::ErreurDocuments;
use crate::evenements::{
    partition_usager_groupe, ActionEvenement, ContenuEvenement, Evenement, EvenementDocumentMaj,
    EvenementDocumentSupprime, EvenementGroupeSupprime, EvenementMaj,
    evenement_transaction_categorie, evenement_transaction_document,
};
use crate::groupes::{contient_groupe, idx_groupe, CollectionGroupes};

verus! {

/// Actions accepted as commands of this domain.
#[derive(Clone, Copy, Debug, PartialEq, Eq, Structural)]
pub enum ActionCommande {
    SauvegarderCategorieUsager,
    SauvegarderGroupeUsager,
    SauvegarderDocument,
    SupprimerDocument,
    RecupererDocument,
    SupprimerGroupe,
    RecupererGroupe,
    Inconnue,
}

/// Routing of a command action name.
pub open spec fn spec_router_commande(a: Seq<char>) -> ActionCommande {
    if a == "sauvegarderCategorieUsager"@ {
        ActionCommande::SauvegarderCategorieUsager
    } else if a == "sauvegarderGroupeUsager"@ {
        ActionCommande::SauvegarderGroupeUsager
    } else if a == "sauvegarderDocument"@ {
        ActionCommande::SauvegarderDocument
    } else if a == "supprimerDocument"@ {
        ActionCommande::SupprimerDocument
    } else if a == "recupererDocument"@ {
        ActionCommande::RecupererDocument
    } else if a == "supprimerGroupe"@ {
        ActionCommande::SupprimerGroupe
    } else if a == "recupererGroupe"@ {
        ActionCommande::RecupererGroupe
    } else {
        ActionCommande::Inconnue
    }
}

/// Maps a command action name onto the closed variant set.
pub fn router_commande(action: &String) -> (r: ActionCommande)
    ensures
        r == spec_router_commande(action@),
{
    if crate::common::chaine_egale(action, "sauvegarderCategorieUsager") {
        ActionCommande::SauvegarderCategorieUsager
    } else if crate::common::chaine_egale(action, "sauvegarderGroupeUsager") {
        ActionCommande::SauvegarderGroupeUsager
    } else if crate::common::chaine_egale(action, "sauvegarderDocument") {
        ActionCommande::SauvegarderDocument
    } else if crate::common::chaine_egale(action, "supprimerDocument") {
        ActionCommande::SupprimerDocument
    } else if crate::common::chaine_egale(action, "recupererDocument") {
        ActionCommande::RecupererDocument
    } else if crate::common::chaine_egale(action, "supprimerGroupe") {
        ActionCommande::SupprimerGroupe
    } else if crate::common::chaine_egale(action, "recupererGroupe") {
        ActionCommande::RecupererGroupe
    } else {
        ActionCommande::Inconnue
    }
}

/// Gate of the volatile queue for commands: the sender must pass the command
/// authorization rule, and the action must belong to the domain.
pub fn consommer_commande(enveloppe: &Enveloppe, action: &String) -> (r: Result<
    ActionCommande,
    ErreurDocuments,
>)
    ensures
        !crate::autorisation::spec_autoriser_commande(enveloppe) ==> r == Err::<
            ActionCommande,
            ErreurDocuments,
        >(ErreurDocuments::NonAutorise),
        crate::autorisation::spec_autoriser_commande(enveloppe) && spec_router_commande(action@)
            == ActionCommande::Inconnue ==> r == Err::<ActionCommande, ErreurDocuments>(
            ErreurDocuments::ActionInconnue,
        ),
        crate::autorisation::spec_autoriser_commande(enveloppe) && spec_router_commande(action@)
            != ActionCommande::Inconnue ==> r == Ok::<ActionCommande, ErreurDocuments>(
            spec_router_commande(action@),
        ),
{
    if !enveloppe.autoriser_commande() {
        return Err(ErreurDocuments::NonAutorise);
    }
    let route = router_commande(action);
    if let ActionCommande::Inconnue = route {
        return Err(ErreurDocuments::ActionInconnue);
    }
    Ok(route)
}

/// Response to a category save.
#[derive(Debug, PartialEq)]
pub struct ReponseSauvegarderCategorie {
    pub ok: bool,
    pub category_id: String,
}

/// Response to a group save.
#[derive(Debug, PartialEq)]
pub struct ReponseSauvegarderGroupe {
    pub ok: bool,
    pub group_id: String,
}

/// Response to a document save or tombstone toggle.
#[derive(Debug, PartialEq)]
pub struct ReponseSauvegarderDocument {
    pub ok: bool,
    pub doc_id: String,
}

/// Response to a group tombstone toggle.
#[derive(Debug, PartialEq)]
pub struct ReponseSupprimerGroupe {
    pub ok: bool,
    pub groupe_id: String,
}

/// Owner id of the sender (meaningful only when the certificate carries one).
pub open spec fn spec_user_id(env: &Enveloppe) -> Seq<char> {
    match env.user_id {
        Some(u) => u@,
        None => Seq::<char>::empty(),
    }
}

/// The sender may run owner commands: identified and allowed.
pub open spec fn spec_commande_admissible(env: &Enveloppe) -> bool {
    env.user_id is Some && spec_autoriser_action_usager(env)
}

/// Both category tables are unchanged between two store values.
pub open spec fn categories_inchangees(avant: CollectionCategories, apres: CollectionCategories) -> bool {
    apres.courantes.deep_view() == avant.courantes.deep_view() && apres.versions.deep_view()
        == avant.versions.deep_view()
}

/// The document table is unchanged between two store values.
pub open spec fn documents_inchanges(avant: CollectionDocuments, apres: CollectionDocuments) -> bool {
    apres.documents.deep_view() == avant.documents.deep_view()
}

/// The group table is unchanged between two store values.
pub open spec fn groupes_inchanges(avant: CollectionGroupes, apres: CollectionGroupes) -> bool {
    apres.groupes.deep_view() == avant.groupes.deep_view()
}

/// Command view with the recorded category id filled in.
pub open spec fn commande_categorie_avec_id(
    t: TransactionSauvegarderCategorieUsagerView,
    categorie_id: Seq<char>,
) -> TransactionSauvegarderCategorieUsagerView {
    TransactionSauvegarderCategorieUsagerView { categorie_id: Some(categorie_id), ..t }
}

/// Command view with the recorded document id filled in.
pub open spec fn commande_document_avec_id(
    t: TransactionSauvegarderDocumentView,
    doc_id: Seq<char>,
) -> TransactionSauvegarderDocumentView {
    TransactionSauvegarderDocumentView { doc_id: Some(doc_id), ..t }
}

/// Creates or updates a category schema on behalf of the sender.
///
/// Rejections, in the order they are checked: the certificate must carry an
/// owner id; the sender must pass the per-command gate; a category id without
/// a version is a caller error; a version at or below the stored one is a
/// conflict that leaves the store unchanged.  On success the store is
/// upserted, and the stored row plus a category/group update notification
/// (both partitioned by the owner) are returned for publication.
pub fn commande_sauvegader_categorie(
    categories: &mut CollectionCategories,
    enveloppe: &Enveloppe,
    message_id: &String,
    commande: TransactionSauvegarderCategorieUsager,
) -> (r: Result<(ReponseSauvegarderCategorie, Evenement, Evenement), ErreurDocuments>)
    requires
        old(categories).inv(),
    ensures
        final(categories).inv(),
        r is Err ==> categories_inchangees(*old(categories), *final(categories)),
        enveloppe.user_id is None ==> r == Err::<
            (ReponseSauvegarderCategorie, Evenement, Evenement),
            ErreurDocuments,
        >(ErreurDocuments::UserIdAbsent),
        enveloppe.user_id is Some && !spec_autoriser_action_usager(enveloppe) ==> r == Err::<
            (ReponseSauvegarderCategorie, Evenement, Evenement),
            ErreurDocuments,
        >(ErreurDocuments::NonAutorise),
        spec_commande_admissible(enveloppe) && commande.categorie_id is Some
            && commande.version is None ==> r == Err::<
            (ReponseSauvegarderCategorie, Evenement, Evenement),
            ErreurDocuments,
        >(ErreurDocuments::VersionManquante),
        spec_commande_admissible(enveloppe) && !(commande.categorie_id is Some
            && commande.version is None) ==> {
            let user = spec_user_id(enveloppe);
            let cid = spec_categorie_id(commande@, message_id@);
            let v = spec_version_categorie(commande@);
            let courantes0 = old(categories).courantes.deep_view();
            let versions0 = old(categories).versions.deep_view();
            let ligne = ligne_categorie(user, cid, commande@);
            &&& (r is Ok <==> sauvegarde_categorie_acceptee(courantes0, user, cid, v))
            &&& (r is Err ==> r == Err::<
                (ReponseSauvegarderCategorie, Evenement, Evenement),
                ErreurDocuments,
            >(ErreurDocuments::VersionExiste))
            &&& (r matches Ok(ok) ==> {
                let (rep, ev1, ev2) = ok;
                &&& rep.ok == true
                &&& rep.category_id@ == cid
                &&& final(categories).courantes.deep_view() == (if contient_categorie(
                    courantes0,
                    user,
                    cid,
                ) {
                    courantes0.update(idx_categorie(courantes0, user, cid), ligne)
                } else {
                    courantes0.push(ligne)
                })
                &&& final(categories).versions.deep_view() == (if crate::categories::contient_version(
                    versions0,
                    user,
                    cid,
                    v,
                ) {
                    versions0.update(
                        crate::categories::idx_version(versions0, user, cid, v),
                        ligne,
                    )
                } else {
                    versions0.push(ligne)
                })
                &&& ev1.action == ActionEvenement::SauvegarderCategorieUsager
                &&& ev1.partition@ == user
                &&& (ev1.contenu matches ContenuEvenement::Categorie(d) && d@ == ligne)
                &&& ev2.action == ActionEvenement::UpdateCatGroup
                &&& ev2.partition@ == user
                &&& (ev2.contenu matches ContenuEvenement::Maj(m) && m.group is None
                    && (m.category matches Some(c) && c@ == commande_categorie_avec_id(
                    commande@,
                    cid,
                )))
            })
        },
{
    let user_id: &String = match &enveloppe.user_id {
        Some(u) => u,
        None => {
            return Err(ErreurDocuments::UserIdAbsent);
        },
    };
    if !enveloppe.autoriser_action_usager() {
        return Err(ErreurDocuments::NonAutorise);
    }
    if commande.categorie_id.is_some() && commande.version.is_none() {
        return Err(ErreurDocuments::VersionManquante);
    }

    let mut commande_ev = commande.clone();
    let (categorie_id, document) = match categories.transaction_sauvegarder_categorie_usager(
        user_id,
        message_id,
        commande,
    ) {
        Ok(ok) => ok,
        Err(e) => {
            return Err(e);
        },
    };

    // The notification carries the recorded category id even on first creation.
    if commande_ev.categorie_id.is_none() {
        commande_ev.categorie_id = Some(categorie_id.clone());
    }

    let ev1 = evenement_transaction_categorie(user_id, document);
    let ev2 = Evenement {
        action: ActionEvenement::UpdateCatGroup,
        partition: user_id.clone(),
        contenu: ContenuEvenement::Maj(
            EvenementMaj { category: Some(commande_ev), group: None },
        ),
    };
    Ok((ReponseSauvegarderCategorie { ok: true, category_id: categorie_id }, ev1, ev2))
}

/// Creates or updates an encrypted document on behalf of the sender.
///
/// Rejections: missing owner id; failed per-command gate; an existing
/// document whose stored group differs from the command's one (the group
/// binding is immutable).  On success the store is upserted and the stored
/// row plus a group/document update notification (partitioned by
/// `owner_id + "_" + group_id`) are returned for publication.
pub fn commande_sauvegarder_document(
    documents: &mut CollectionDocuments,
    enveloppe: &Enveloppe,
    message_id: &String,
    commande: TransactionSauvegarderDocument,
    now: i64,
) -> (r: Result<(ReponseSauvegarderDocument, Evenement, Evenement), ErreurDocuments>)
    requires
        old(documents).inv(),
    ensures
        final(documents).inv(),
        r is Err ==> documents_inchanges(*old(documents), *final(documents)),
        enveloppe.user_id is None ==> r == Err::<
            (ReponseSauvegarderDocument, Evenement, Evenement),
            ErreurDocuments,
        >(ErreurDocuments::UserIdAbsent),
        enveloppe.user_id is Some && !spec_autoriser_action_usager(enveloppe) ==> r == Err::<
            (ReponseSauvegarderDocument, Evenement, Evenement),
            ErreurDocuments,
        >(ErreurDocuments::NonAutorise),
        spec_commande_admissible(enveloppe) ==> {
            let user = spec_user_id(enveloppe);
            let rows0 = old(documents).documents.deep_view();
            let did = spec_doc_id(commande@, message_id@);
            let conflit_groupe = commande.doc_id matches Some(d) && contient_document(
                rows0,
                user,
                d@,
            ) && rows0[idx_document(rows0, user, d@)].document.groupe_id != commande.groupe_id@;
            &&& (conflit_groupe ==> r == Err::<
                (ReponseSauvegarderDocument, Evenement, Evenement),
                ErreurDocuments,
            >(ErreurDocuments::GroupeChange))
            &&& (!conflit_groupe ==> {
                let ligne = if contient_document(rows0, user, did) {
                    ligne_document_maj(rows0[idx_document(rows0, user, did)], commande@, now)
                } else {
                    ligne_document_nouvelle(user, did, commande@, now)
                };
                &&& r is Ok
                &&& (r matches Ok(ok) ==> {
                    let (rep, ev1, ev2) = ok;
                    &&& rep.ok == true
                    &&& rep.doc_id@ == did
                    &&& final(documents).documents.deep_view() == (if contient_document(
                        rows0,
                        user,
                        did,
                    ) {
                        rows0.update(idx_document(rows0, user, did), ligne)
                    } else {
                        rows0.push(ligne)
                    })
                    &&& ev1.action == ActionEvenement::SauvegarderDocument
                    &&& ev1.partition@ == user
                    &&& (ev1.contenu matches ContenuEvenement::Document(d) && d@ == ligne.document)
                    &&& ev2.action == ActionEvenement::UpdateGroupDocument
                    &&& ev2.partition@ == user + "_"@ + commande.groupe_id@
                    &&& (ev2.contenu matches ContenuEvenement::DocumentMaj(m) && m.document@
                        == commande_document_avec_id(commande@, did))
                })
            })
        },
{
    let user_id: &String = match &enveloppe.user_id {
        Some(u) => u,
        None => {
            return Err(ErreurDocuments::UserIdAbsent);
        },
    };
    if !enveloppe.autoriser_action_usager() {
        return Err(ErreurDocuments::NonAutorise);
    }

    // The group binding of an existing document is immutable.
    if let Some(doc_id) = &commande.doc_id {
        match documents.chercher_document(user_id, doc_id) {
            Some(i) => {
                proof {
                    crate::documents::lemma_idx_document_unique(
                        documents.documents.deep_view(),
                        user_id@,
                        doc_id@,
                        i as int,
                    );
                }
                if !(documents.documents[i].document.groupe_id == commande.groupe_id) {
                    return Err(ErreurDocuments::GroupeChange);
                }
            },
            None => {},
        }
    }

    let groupe_id_ev = commande.groupe_id.clone();
    let mut commande_ev = commande.clone();
    let (doc_id, document) = documents.transaction_sauvegarder_document(
        user_id,
        message_id,
        commande,
        now,
    );

    // The notification carries the recorded document id even on first creation.
    if commande_ev.doc_id.is_none() {
        commande_ev.doc_id = Some(doc_id.clone());
    }

    let ev1 = evenement_transaction_document(user_id, document);
    let ev2 = Evenement {
        action: ActionEvenement::UpdateGroupDocument,
        partition: partition_usager_groupe(user_id, &groupe_id_ev),
        contenu: ContenuEvenement::DocumentMaj(EvenementDocumentMaj { document: commande_ev }),
    };
    Ok((ReponseSauvegarderDocument { ok: true, doc_id }, ev1, ev2))
}

/// Decision taken before committing a group save.
#[derive(Debug, PartialEq, Eq, Structural)]
pub enum PreparationSauvegardeGroupe {
    /// An attached key was supplied: forward it to the key custodian, then
    /// commit only if the custodian accepts it.
    TransmettreCle,
    /// An existing group is updated without an attached key: its stored key
    /// is reused and the save can be committed directly.
    Proceder,
}

/// Command view with the recorded group id filled in.
pub open spec fn commande_groupe_avec_id(
    t: crate::common::TransactionSauvegarderGroupeUsagerView,
    groupe_id: Seq<char>,
) -> crate::common::TransactionSauvegarderGroupeUsagerView {
    crate::common::TransactionSauvegarderGroupeUsagerView { groupe_id: Some(groupe_id), ..t }
}

/// Checks a group save before anything is committed.
///
/// Rejections: missing owner id; failed per-command gate; an existing group
/// whose stored category differs from the command's one (the category
/// binding is immutable); no attached key although none can be reused (the
/// group is new, or no group id was given).  Otherwise says whether the
/// attached key must first go through the key custodian.
pub fn preparer_sauvegarder_groupe(
    groupes: &CollectionGroupes,
    enveloppe: &Enveloppe,
    commande: &TransactionSauvegarderGroupeUsager,
    cle_attachee: bool,
) -> (r: Result<PreparationSauvegardeGroupe, ErreurDocuments>)
    requires
        groupes.inv(),
    ensures
        enveloppe.user_id is None ==> r == Err::<PreparationSauvegardeGroupe, ErreurDocuments>(
            ErreurDocuments::UserIdAbsent,
        ),
        enveloppe.user_id is Some && !spec_autoriser_action_usager(enveloppe) ==> r == Err::<
            PreparationSauvegardeGroupe,
            ErreurDocuments,
        >(ErreurDocuments::NonAutorise),
        spec_commande_admissible(enveloppe) ==> {
            let user = spec_user_id(enveloppe);
            let rows = groupes.groupes.deep_view();
            let conflit_categorie = commande.groupe_id matches Some(g) && contient_groupe(
                rows,
                user,
                g@,
            ) && rows[idx_groupe(rows, user, g@)].groupe.categorie_id != commande.categorie_id@;
            &&& (conflit_categorie ==> r == Err::<PreparationSauvegardeGroupe, ErreurDocuments>(
                ErreurDocuments::CategorieChangee,
            ))
            &&& (!conflit_categorie ==> (if cle_attachee {
                r == Ok::<PreparationSauvegardeGroupe, ErreurDocuments>(
                    PreparationSauvegardeGroupe::TransmettreCle,
                )
            } else {
                match commande.groupe_id {
                    Some(g) => if contient_groupe(rows, user, g@) {
                        r == Ok::<PreparationSauvegardeGroupe, ErreurDocuments>(
                            PreparationSauvegardeGroupe::Proceder,
                        )
                    } else {
                        r == Err::<PreparationSauvegardeGroupe, ErreurDocuments>(
                            ErreurDocuments::CleManquante,
                        )
                    },
                    None => r == Err::<PreparationSauvegardeGroupe, ErreurDocuments>(
                        ErreurDocuments::CleManquante,
                    ),
                }
            }))
        },
{
    let user_id: &String = match &enveloppe.user_id {
        Some(u) => u,
        None => {
            return Err(ErreurDocuments::UserIdAbsent);
        },
    };
    if !enveloppe.autoriser_action_usager() {
        return Err(ErreurDocuments::NonAutorise);
    }

    // The category binding of an existing group is immutable.
    if let Some(groupe_id) = &commande.groupe_id {
        match groupes.chercher_groupe(user_id, groupe_id) {
            Some(i) => {
                proof {
                    crate::groupes::lemma_idx_groupe_unique(
                        groupes.groupes.deep_view(),
                        user_id@,
                        groupe_id@,
                        i as int,
                    );
                }
                if !(groupes.groupes[i].groupe.categorie_id == commande.categorie_id) {
                    return Err(ErreurDocuments::CategorieChangee);
                }
            },
            None => {},
        }
    }

    // A new group needs an attached key; an existing one may reuse its own.
    if cle_attachee {
        Ok(PreparationSauvegardeGroupe::TransmettreCle)
    } else {
        match &commande.groupe_id {
            Some(groupe_id) => match groupes.chercher_groupe(user_id, groupe_id) {
                Some(_) => Ok(PreparationSauvegardeGroupe::Proceder),
                None => Err(ErreurDocuments::CleManquante),
            },
            None => Err(ErreurDocuments::CleManquante),
        }
    }
}

/// Commits a group save after [`preparer_sauvegarder_groupe`] allowed it
/// (and, for a new group, after the key custodian accepted the attached
/// key).  Upserts the row and returns the response plus the stored row and a
/// category/group update notification, both partitioned by the owner.
///
/// The upsert itself never rewrites the category binding of an existing row,
/// so the binding stays immutable even if this commit is reached without the
/// preparation step.
pub fn completer_sauvegarder_groupe(
    groupes: &mut CollectionGroupes,
    enveloppe: &Enveloppe,
    message_id: &String,
    commande: TransactionSauvegarderGroupeUsager,
    now: i64,
) -> (r: Result<(ReponseSauvegarderGroupe, Evenement, Evenement), ErreurDocuments>)
    requires
        old(groupes).inv(),
    ensures
        final(groupes).inv(),
        r is Err ==> groupes_inchanges(*old(groupes), *final(groupes)),
        enveloppe.user_id is None ==> r == Err::<
            (ReponseSauvegarderGroupe, Evenement, Evenement),
            ErreurDocuments,
        >(ErreurDocuments::UserIdAbsent),
        enveloppe.user_id is Some && !spec_autoriser_action_usager(enveloppe) ==> r == Err::<
            (ReponseSauvegarderGroupe, Evenement, Evenement),
            ErreurDocuments,
        >(ErreurDocuments::NonAutorise),
        spec_commande_admissible(enveloppe) ==> {
            let user = spec_user_id(enveloppe);
            let rows0 = old(groupes).groupes.deep_view();
            let gid = crate::groupes::spec_groupe_id(commande@, message_id@);
            let ligne = if contient_groupe(rows0, user, gid) {
                crate::groupes::ligne_groupe_maj(
                    rows0[idx_groupe(rows0, user, gid)],
                    commande@,
                    now,
                )
            } else {
                crate::groupes::ligne_groupe_nouvelle(user, gid, commande@, now)
            };
            &&& r is Ok
            &&& (r matches Ok(ok) ==> {
                let (rep, ev1, ev2) = ok;
                &&& rep.ok == true
                &&& rep.group_id@ == gid
                &&& final(groupes).groupes.deep_view() == (if contient_groupe(rows0, user, gid) {
                    rows0.update(idx_groupe(rows0, user, gid), ligne)
                } else {
                    rows0.push(ligne)
                })
                &&& ev1.action == ActionEvenement::SauvegarderGroupeUsager
                &&& ev1.partition@ == user
                &&& (ev1.contenu matches ContenuEvenement::Groupe(d) && d@ == ligne.groupe)
                &&& ev2.action == ActionEvenement::UpdateCatGroup
                &&& ev2.partition@ == user
                &&& (ev2.contenu matches ContenuEvenement::Maj(m) && m.category is None
                    && (m.group matches Some(g) && g@ == commande_groupe_avec_id(commande@, gid)))
            })
        },
{
    let user_id: &String = match &enveloppe.user_id {
        Some(u) => u,
        None => {
            return Err(ErreurDocuments::UserIdAbsent);
        },
    };
    if !enveloppe.autoriser_action_usager() {
        return Err(ErreurDocuments::NonAutorise);
    }

    let mut commande_ev = commande.clone();
    let (groupe_id, document) = groupes.transaction_sauvegarder_groupe_usager(
        user_id,
        message_id,
        commande,
        now,
    );

    // The notification carries the recorded group id even on first creation.
    if commande_ev.groupe_id.is_none() {
        commande_ev.groupe_id = Some(groupe_id.clone());
    }

    let ev1 = crate::evenements::evenement_transaction_groupe(user_id, document);
    let ev2 = Evenement {
        action: ActionEvenement::UpdateCatGroup,
        partition: user_id.clone(),
        contenu: ContenuEvenement::Maj(
            EvenementMaj { category: None, group: Some(commande_ev) },
        ),
    };
    Ok((ReponseSauvegarderGroupe { ok: true, group_id: groupe_id }, ev1, ev2))
}

/// Toggles the tombstone of a document on behalf of the sender.
///
/// Rejections: missing owner id; failed per-command gate; unknown document;
/// a stored flag already equal to the requested one.  On success the flag is
/// flipped, the deletion date stamped or cleared, and a tombstone
/// notification partitioned by `owner_id + "_" + group_id` is returned.
pub fn commande_basculer_suppression_document(
    documents: &mut CollectionDocuments,
    enveloppe: &Enveloppe,
    commande: TransactionSupprimerDocument,
    supprime: bool,
    now: i64,
) -> (r: Result<(ReponseSauvegarderDocument, Evenement), ErreurDocuments>)
    requires
        old(documents).inv(),
    ensures
        final(documents).inv(),
        r is Err ==> documents_inchanges(*old(documents), *final(documents)),
        enveloppe.user_id is None ==> r == Err::<
            (ReponseSauvegarderDocument, Evenement),
            ErreurDocuments,
        >(ErreurDocuments::UserIdAbsent),
        enveloppe.user_id is Some && !spec_autoriser_action_usager(enveloppe) ==> r == Err::<
            (ReponseSauvegarderDocument, Evenement),
            ErreurDocuments,
        >(ErreurDocuments::NonAutorise),
        spec_commande_admissible(enveloppe) ==> {
            let user = spec_user_id(enveloppe);
            let rows0 = old(documents).documents.deep_view();
            if !contient_document(rows0, user, commande.doc_id@) {
                r == Err::<(ReponseSauvegarderDocument, Evenement), ErreurDocuments>(
                    ErreurDocuments::DocumentInconnu,
                )
            } else {
                let i = idx_document(rows0, user, commande.doc_id@);
                if (rows0[i].document.supprime == Some(true)) == supprime {
                    r == Err::<(ReponseSauvegarderDocument, Evenement), ErreurDocuments>(
                        if supprime {
                            ErreurDocuments::DocumentDejaSupprime
                        } else {
                            ErreurDocuments::DocumentDejaRecupere
                        },
                    )
                } else {
                    &&& r is Ok
                    &&& (r matches Ok(ok) ==> {
                        let (rep, ev) = ok;
                        &&& rep.ok == true
                        &&& rep.doc_id@ == commande.doc_id@
                        &&& final(documents).documents.deep_view() == rows0.update(
                            i,
                            ligne_document_supprimee(rows0[i], supprime, now),
                        )
                        &&& ev.action == ActionEvenement::UpdateGroupDocument
                        &&& ev.partition@ == user + "_"@ + rows0[i].document.groupe_id
                        &&& (ev.contenu matches ContenuEvenement::DocumentSupprime(e) && e.doc_id@
                            == commande.doc_id@ && e.supprime == supprime)
                    })
                }
            }
        },
{
    let user_id: &String = match &enveloppe.user_id {
        Some(u) => u,
        None => {
            return Err(ErreurDocuments::UserIdAbsent);
        },
    };
    if !enveloppe.autoriser_action_usager() {
        return Err(ErreurDocuments::NonAutorise);
    }

    let groupe_id = match documents.transaction_supprimer_document(
        user_id,
        &commande.doc_id,
        supprime,
        now,
    ) {
        Ok(g) => g,
        Err(e) => {
            return Err(e);
        },
    };

    let ev = Evenement {
        action: ActionEvenement::UpdateGroupDocument,
        partition: partition_usager_groupe(user_id, &groupe_id),
        contenu: ContenuEvenement::DocumentSupprime(
            EvenementDocumentSupprime { doc_id: commande.doc_id.clone(), supprime },
        ),
    };
    Ok((ReponseSauvegarderDocument { ok: true, doc_id: commande.doc_id }, ev))
}

/// Toggles the tombstone of a group on behalf of the sender.
///
/// Rejections: missing owner id; failed per-command gate; unknown group; a
/// stored flag already equal to the requested one.  On success the flag is
/// flipped, the deletion date stamped or cleared, and a tombstone
/// notification partitioned by the owner is returned.
pub fn commande_basculer_suppression_groupe(
    groupes: &mut CollectionGroupes,
    enveloppe: &Enveloppe,
    commande: TransactionSupprimerGroupe,
    supprime: bool,
    now: i64,
) -> (r: Result<(ReponseSupprimerGroupe, Evenement), ErreurDocuments>)
    requires
        old(groupes).inv(),
    ensures
        final(groupes).inv(),
        r is Err ==> groupes_inchanges(*old(groupes), *final(groupes)),
        enveloppe.user_id is None ==> r == Err::<
            (ReponseSupprimerGroupe, Evenement),
            ErreurDocuments,
        >(ErreurDocuments::UserIdAbsent),
        enveloppe.user_id is Some && !spec_autoriser_action_usager(enveloppe) ==> r == Err::<
            (ReponseSupprimerGroupe, Evenement),
            ErreurDocuments,
        >(ErreurDocuments::NonAutorise),
        spec_commande_admissible(enveloppe) ==> {
            let user = spec_user_id(enveloppe);
            let rows0 = old(groupes).groupes.deep_view();
            if !contient_groupe(rows0, user, commande.groupe_id@) {
                r == Err::<(ReponseSupprimerGroupe, Evenement), ErreurDocuments>(
                    ErreurDocuments::GroupeInconnu,
                )
            } else {
                let i = idx_groupe(rows0, user, commande.groupe_id@);
                if (rows0[i].groupe.supprime == Some(true)) == supprime {
                    r == Err::<(ReponseSupprimerGroupe, Evenement), ErreurDocuments>(
                        if supprime {
                            ErreurDocuments::GroupeDejaSupprime
                        } else {
                            ErreurDocuments::GroupeDejaRecupere
                        },
                    )
                } else {
                    &&& r is Ok
                    &&& (r matches Ok(ok) ==> {
                        let (rep, ev) = ok;
                        &&& rep.ok == true
                        &&& rep.groupe_id@ == commande.groupe_id@
                        &&& final(groupes).groupes.deep_view() == rows0.update(
                            i,
                            crate::groupes::ligne_groupe_supprimee(rows0[i], supprime, now),
                        )
                        &&& ev.action == ActionEvenement::UpdateCatGroup
                        &&& ev.partition@ == user
                        &&& (ev.contenu matches ContenuEvenement::GroupeSupprime(e) && e.groupe_id@
                            == commande.groupe_id@ && e.supprime == supprime)
                    })
                }
            }
        },
{
    let user_id: &String = match &enveloppe.user_id {
        Some(u) => u,
        None => {
            return Err(ErreurDocuments::UserIdAbsent);
        },
    };
    if !enveloppe.autoriser_action_usager() {
        return Err(ErreurDocuments::NonAutorise);
    }

    match groupes.transaction_supprimer_groupe(user_id, &commande.groupe_id, supprime, now) {
        Ok(()) => {},
        Err(e) => {
            return Err(e);
        },
    }

    let ev = Evenement {
        action: ActionEvenement::UpdateCatGroup,
        partition: user_id.clone(),
        contenu: ContenuEvenement::GroupeSupprime(
            EvenementGroupeSupprime { groupe_id: commande.groupe_id.clone(), supprime },
        ),
    };
    Ok((ReponseSupprimerGroupe { ok: true, groupe_id: commande.groupe_id }, ev))
}

} // verus!
