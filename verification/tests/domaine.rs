//! Scenario tests of the write path: category versioning, group category
//! immutability, and the tombstone lifecycle.
use millegrilles_documents::autorisation::{Enveloppe, Securite};
use millegrilles_documents::categories::CollectionCategories;
use millegrilles_documents::commandes::{
    commande_basculer_suppression_document, commande_basculer_suppression_groupe,
    commande_sauvegader_categorie, commande_sauvegarder_document, completer_sauvegarder_groupe,
    preparer_sauvegarder_groupe, PreparationSauvegardeGroupe,
};
use millegrilles_documents::common::{
    ChampCategorie, FormatChiffrage, TransactionSauvegarderCategorieUsager,
    TransactionSauvegarderDocument, TransactionSauvegarderGroupeUsager,
    TransactionSupprimerDocument, TransactionSupprimerGroupe,
};
use millegrilles_documents::documents::CollectionDocuments;
use millegrilles_documents::erreurs::ErreurDocuments;
use millegrilles_documents::groupes::CollectionGroupes;

fn enveloppe_usager(user_id: &str) -> Enveloppe {
    Enveloppe {
        user_id: Some(user_id.to_string()),
        role_compte_prive: true,
        delegation_globale_proprietaire: false,
        exchanges: vec![Securite::L2Prive],
    }
}

fn commande_categorie(
    categorie_id: Option<&str>,
    version: Option<usize>,
    nom: &str,
) -> TransactionSauvegarderCategorieUsager {
    TransactionSauvegarderCategorieUsager {
        categorie_id: categorie_id.map(|s| s.to_string()),
        version,
        nom_categorie: nom.to_string(),
        champs: vec![ChampCategorie {
            nom_champ: "titre".to_string(),
            code_interne: "t1".to_string(),
            type_champ: "texte".to_string(),
            taille_maximum: Some(120),
            requis: Some(true),
        }],
    }
}

fn commande_groupe(
    groupe_id: Option<&str>,
    categorie_id: &str,
    data: &str,
) -> TransactionSauvegarderGroupeUsager {
    TransactionSauvegarderGroupeUsager {
        groupe_id: groupe_id.map(|s| s.to_string()),
        categorie_id: categorie_id.to_string(),
        data_chiffre: data.to_string(),
        cle_id: Some("cle-1".to_string()),
        format: FormatChiffrage::Mgs4,
        nonce: None,
        header: None,
        ref_hachage_bytes: None,
    }
}

fn commande_document(
    doc_id: Option<&str>,
    groupe_id: &str,
    data: &str,
) -> TransactionSauvegarderDocument {
    TransactionSauvegarderDocument {
        doc_id: doc_id.map(|s| s.to_string()),
        groupe_id: groupe_id.to_string(),
        categorie_version: 1,
        data_chiffre: data.to_string(),
        cle_id: Some("cle-1".to_string()),
        format: FormatChiffrage::Mgs4,
        nonce: None,
        compression: None,
        header: None,
    }
}

/// Category absent: a first save with version 1 succeeds and the category id
/// defaults to the command id; a second identical version is a conflict; a
/// higher version supersedes.
#[test]
fn scenario_versions_categorie() {
    let mut categories = CollectionCategories::new();
    let env = enveloppe_usager("u1");
    let message_id = "cmd-0001".to_string();

    // First save without an id: accepted, id defaulted to the command id.
    let r1 = commande_sauvegader_categorie(
        &mut categories,
        &env,
        &message_id,
        commande_categorie(None, Some(1), "Notes"),
    );
    let (rep1, _ev1, _ev2) = r1.expect("premiere sauvegarde");
    assert!(rep1.ok);
    assert_eq!(rep1.category_id, "cmd-0001");
    assert_eq!(categories.courantes.len(), 1);
    assert_eq!(categories.courantes[0].version, 1);
    assert_eq!(categories.versions.len(), 1);

    // Same version again: conflict, store unchanged.
    let r2 = commande_sauvegader_categorie(
        &mut categories,
        &env,
        &"cmd-0002".to_string(),
        commande_categorie(Some("cmd-0001"), Some(1), "Notes v1bis"),
    );
    assert_eq!(r2.unwrap_err(), ErreurDocuments::VersionExiste);
    assert_eq!(categories.courantes[0].nom_categorie, "Notes");
    assert_eq!(categories.courantes[0].version, 1);

    // Higher version: accepted and superseding.
    let r3 = commande_sauvegader_categorie(
        &mut categories,
        &env,
        &"cmd-0003".to_string(),
        commande_categorie(Some("cmd-0001"), Some(2), "Notes v2"),
    );
    let (rep3, _, _) = r3.expect("version superieure");
    assert_eq!(rep3.category_id, "cmd-0001");
    assert_eq!(categories.courantes.len(), 1);
    assert_eq!(categories.courantes[0].version, 2);
    assert_eq!(categories.courantes[0].nom_categorie, "Notes v2");
    // One history row per version.
    assert_eq!(categories.versions.len(), 2);
}

/// A lower version than the stored one is also refused.
#[test]
fn version_inferieure_refusee() {
    let mut categories = CollectionCategories::new();
    let env = enveloppe_usager("u1");
    commande_sauvegader_categorie(
        &mut categories,
        &env,
        &"cmd-1".to_string(),
        commande_categorie(Some("c1"), Some(5), "Recettes"),
    )
    .expect("creation");
    let r = commande_sauvegader_categorie(
        &mut categories,
        &env,
        &"cmd-2".to_string(),
        commande_categorie(Some("c1"), Some(3), "Recettes anciennes"),
    );
    assert_eq!(r.unwrap_err(), ErreurDocuments::VersionExiste);
    assert_eq!(categories.courantes[0].version, 5);
    assert_eq!(categories.courantes[0].nom_categorie, "Recettes");
}

/// A brand-new category is accepted with any initial version.
#[test]
fn nouvelle_categorie_version_quelconque() {
    let mut categories = CollectionCategories::new();
    let env = enveloppe_usager("u1");
    let r = commande_sauvegader_categorie(
        &mut categories,
        &env,
        &"cmd-9".to_string(),
        commande_categorie(Some("c9"), Some(42), "Archives"),
    );
    assert!(r.is_ok());
    assert_eq!(categories.courantes[0].version, 42);
}

/// A category id without a version is a caller error.
#[test]
fn categorie_sans_version_refusee() {
    let mut categories = CollectionCategories::new();
    let env = enveloppe_usager("u1");
    let r = commande_sauvegader_categorie(
        &mut categories,
        &env,
        &"cmd-1".to_string(),
        commande_categorie(Some("c1"), None, "Sans version"),
    );
    assert_eq!(r.unwrap_err(), ErreurDocuments::VersionManquante);
    assert_eq!(categories.courantes.len(), 0);
}

/// Commands demand an identified, allowed sender.
#[test]
fn commande_refusee_sans_user_ou_role() {
    let mut categories = CollectionCategories::new();
    let anonyme = Enveloppe {
        user_id: None,
        role_compte_prive: true,
        delegation_globale_proprietaire: false,
        exchanges: vec![],
    };
    let r = commande_sauvegader_categorie(
        &mut categories,
        &anonyme,
        &"cmd-1".to_string(),
        commande_categorie(None, Some(1), "X"),
    );
    assert_eq!(r.unwrap_err(), ErreurDocuments::UserIdAbsent);

    let sans_role = Enveloppe {
        user_id: Some("u1".to_string()),
        role_compte_prive: false,
        delegation_globale_proprietaire: false,
        exchanges: vec![],
    };
    let r = commande_sauvegader_categorie(
        &mut categories,
        &sans_role,
        &"cmd-1".to_string(),
        commande_categorie(None, Some(1), "X"),
    );
    assert_eq!(r.unwrap_err(), ErreurDocuments::NonAutorise);
}

/// Once a group is created with a category, saving it under another category
/// is rejected and the stored binding never changes.
#[test]
fn categorie_de_groupe_immuable() {
    let mut groupes = CollectionGroupes::new();
    let env = enveloppe_usager("u1");

    // Creation with an attached key.
    let prep = preparer_sauvegarder_groupe(
        &groupes,
        &env,
        &commande_groupe(None, "cat-1", "payload-a"),
        true,
    );
    assert_eq!(prep.unwrap(), PreparationSauvegardeGroupe::TransmettreCle);
    let (rep, _ev1, _ev2) = completer_sauvegarder_groupe(
        &mut groupes,
        &env,
        &"cmd-g1".to_string(),
        commande_groupe(None, "cat-1", "payload-a"),
        1000,
    )
    .expect("creation groupe");
    assert_eq!(rep.group_id, "cmd-g1");
    assert_eq!(groupes.groupes[0].groupe.categorie_id, "cat-1");

    // A save under another category is rejected before anything happens.
    let prep = preparer_sauvegarder_groupe(
        &groupes,
        &env,
        &commande_groupe(Some("cmd-g1"), "cat-2", "payload-b"),
        false,
    );
    assert_eq!(prep.unwrap_err(), ErreurDocuments::CategorieChangee);
    assert_eq!(groupes.groupes[0].groupe.categorie_id, "cat-1");

    // Even a direct commit never rewrites the stored binding.
    completer_sauvegarder_groupe(
        &mut groupes,
        &env,
        &"cmd-g2".to_string(),
        commande_groupe(Some("cmd-g1"), "cat-2", "payload-b"),
        1001,
    )
    .expect("maj groupe");
    assert_eq!(groupes.groupes.len(), 1);
    assert_eq!(groupes.groupes[0].groupe.categorie_id, "cat-1");
    assert_eq!(groupes.groupes[0].groupe.data_chiffre, "payload-b");
}

/// A group save without an attached key needs an existing group to reuse.
#[test]
fn cle_manquante_pour_nouveau_groupe() {
    let groupes = CollectionGroupes::new();
    let env = enveloppe_usager("u1");
    let r = preparer_sauvegarder_groupe(
        &groupes,
        &env,
        &commande_groupe(None, "cat-1", "payload"),
        false,
    );
    assert_eq!(r.unwrap_err(), ErreurDocuments::CleManquante);
    let r = preparer_sauvegarder_groupe(
        &groupes,
        &env,
        &commande_groupe(Some("inconnu"), "cat-1", "payload"),
        false,
    );
    assert_eq!(r.unwrap_err(), ErreurDocuments::CleManquante);
}

/// An existing group without an attached key reuses its stored key.
#[test]
fn groupe_existant_reutilise_sa_cle() {
    let mut groupes = CollectionGroupes::new();
    let env = enveloppe_usager("u1");
    completer_sauvegarder_groupe(
        &mut groupes,
        &env,
        &"g1".to_string(),
        commande_groupe(None, "cat-1", "a"),
        1,
    )
    .expect("creation");
    let r = preparer_sauvegarder_groupe(
        &groupes,
        &env,
        &commande_groupe(Some("g1"), "cat-1", "b"),
        false,
    );
    assert_eq!(r.unwrap(), PreparationSauvegardeGroupe::Proceder);
}

/// The group of an existing document cannot be changed.
#[test]
fn groupe_de_document_immuable() {
    let mut documents = CollectionDocuments::new();
    let env = enveloppe_usager("u1");
    commande_sauvegarder_document(
        &mut documents,
        &env,
        &"d1".to_string(),
        commande_document(None, "g1", "data-a"),
        100,
    )
    .expect("creation document");
    let r = commande_sauvegarder_document(
        &mut documents,
        &env,
        &"d2".to_string(),
        commande_document(Some("d1"), "g2", "data-b"),
        101,
    );
    assert_eq!(r.unwrap_err(), ErreurDocuments::GroupeChange);
    assert_eq!(documents.documents[0].document.groupe_id, "g1");
    assert_eq!(documents.documents[0].document.data_chiffre, "data-a");
}

/// Deleting twice in a row yields a conflict on the second call; deleting
/// then restoring leaves the document live again.
#[test]
fn double_suppression_document() {
    let mut documents = CollectionDocuments::new();
    let env = enveloppe_usager("u1");
    commande_sauvegarder_document(
        &mut documents,
        &env,
        &"d1".to_string(),
        commande_document(None, "g1", "data"),
        100,
    )
    .expect("creation");

    let cmd = TransactionSupprimerDocument { doc_id: "d1".to_string() };
    let (rep, ev) =
        commande_basculer_suppression_document(&mut documents, &env, cmd.clone(), true, 200)
            .expect("suppression");
    assert!(rep.ok);
    assert_eq!(ev.partition, "u1_g1");
    assert_eq!(documents.documents[0].document.supprime, Some(true));
    assert_eq!(documents.documents[0].document.supprime_date, Some(200));

    let r = commande_basculer_suppression_document(&mut documents, &env, cmd.clone(), true, 201);
    assert_eq!(r.unwrap_err(), ErreurDocuments::DocumentDejaSupprime);
    assert_eq!(documents.documents[0].document.supprime_date, Some(200));

    commande_basculer_suppression_document(&mut documents, &env, cmd.clone(), false, 202)
        .expect("restauration");
    assert_eq!(documents.documents[0].document.supprime, Some(false));
    assert_eq!(documents.documents[0].document.supprime_date, None);

    let r = commande_basculer_suppression_document(&mut documents, &env, cmd, false, 203);
    assert_eq!(r.unwrap_err(), ErreurDocuments::DocumentDejaRecupere);
}

/// The same toggle cycle holds for groups, and an unknown id is a 404.
#[test]
fn double_suppression_groupe() {
    let mut groupes = CollectionGroupes::new();
    let env = enveloppe_usager("u1");
    completer_sauvegarder_groupe(
        &mut groupes,
        &env,
        &"g1".to_string(),
        commande_groupe(None, "cat-1", "a"),
        100,
    )
    .expect("creation");

    let cmd = TransactionSupprimerGroupe { groupe_id: "g1".to_string() };
    let (rep, ev) =
        commande_basculer_suppression_groupe(&mut groupes, &env, cmd.clone(), true, 200)
            .expect("suppression");
    assert!(rep.ok);
    assert_eq!(ev.partition, "u1");
    assert_eq!(groupes.groupes[0].groupe.supprime, Some(true));

    let r = commande_basculer_suppression_groupe(&mut groupes, &env, cmd.clone(), true, 201);
    assert_eq!(r.unwrap_err(), ErreurDocuments::GroupeDejaSupprime);

    commande_basculer_suppression_groupe(&mut groupes, &env, cmd.clone(), false, 202)
        .expect("restauration");
    let r = commande_basculer_suppression_groupe(&mut groupes, &env, cmd, false, 203);
    assert_eq!(r.unwrap_err(), ErreurDocuments::GroupeDejaRecupere);

    let inconnu = TransactionSupprimerGroupe { groupe_id: "gX".to_string() };
    let r = commande_basculer_suppression_groupe(&mut groupes, &env, inconnu, true, 204);
    assert_eq!(r.unwrap_err(), ErreurDocuments::GroupeInconnu);
}

/// Toggling an unknown document is a 404.
#[test]
fn suppression_document_inconnu() {
    let mut documents = CollectionDocuments::new();
    let env = enveloppe_usager("u1");
    let cmd = TransactionSupprimerDocument { doc_id: "absent".to_string() };
    let r = commande_basculer_suppression_document(&mut documents, &env, cmd, true, 1);
    assert_eq!(r.unwrap_err(), ErreurDocuments::DocumentInconnu);
}

/// Each owner only sees and touches its own rows.
#[test]
fn isolation_par_usager() {
    let mut documents = CollectionDocuments::new();
    let env1 = enveloppe_usager("u1");
    let env2 = enveloppe_usager("u2");
    commande_sauvegarder_document(
        &mut documents,
        &env1,
        &"d1".to_string(),
        commande_document(None, "g1", "donnees-u1"),
        100,
    )
    .expect("creation u1");

    // The other owner cannot toggle it.
    let cmd = TransactionSupprimerDocument { doc_id: "d1".to_string() };
    let r = commande_basculer_suppression_document(&mut documents, &env2, cmd, true, 200);
    assert_eq!(r.unwrap_err(), ErreurDocuments::DocumentInconnu);

    // A save of the same document id by the other owner creates a second row.
    commande_sauvegarder_document(
        &mut documents,
        &env2,
        &"x".to_string(),
        commande_document(Some("d1"), "g9", "donnees-u2"),
        201,
    )
    .expect("creation u2");
    assert_eq!(documents.documents.len(), 2);
    assert_eq!(documents.documents[0].document.data_chiffre, "donnees-u1");
    assert_eq!(documents.documents[1].document.data_chiffre, "donnees-u2");
}
