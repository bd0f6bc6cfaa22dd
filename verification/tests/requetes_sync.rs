//! Tests of the read path: pagination, live/tombstone partitioning,
//! incremental sync and the streaming protocol.
use millegrilles_documents::autorisation::{Enveloppe, Securite};
use millegrilles_documents::categories::CollectionCategories;
use millegrilles_documents::commandes::{
    commande_basculer_suppression_document, commande_sauvegader_categorie,
    commande_sauvegarder_document, completer_sauvegarder_groupe,
};
use millegrilles_documents::common::{
    ChampCategorie, FormatChiffrage, TransactionSauvegarderCategorieUsager,
    TransactionSauvegarderDocument, TransactionSauvegarderGroupeUsager,
    TransactionSupprimerDocument,
};
use millegrilles_documents::documents::CollectionDocuments;
use millegrilles_documents::erreurs::ErreurDocuments;
use millegrilles_documents::groupes::CollectionGroupes;
use millegrilles_documents::requetes::{
    correlation_pour_streaming, requete_get_categories_usager, requete_get_documents_groupe,
    requete_get_groupes_cles, requete_get_groupes_usager, RequeteGetCategoriesUsager,
    RequeteGetDocumentsGroupe, RequeteGetGroupesCles, RequeteGetGroupesUsager,
};

fn env_sync(user_id: &str) -> Enveloppe {
    Enveloppe {
        user_id: Some(user_id.to_string()),
        role_compte_prive: true,
        delegation_globale_proprietaire: false,
        exchanges: vec![Securite::L2Prive],
    }
}

fn categorie_nommee(nom: &str) -> TransactionSauvegarderCategorieUsager {
    TransactionSauvegarderCategorieUsager {
        categorie_id: None,
        version: Some(1),
        nom_categorie: nom.to_string(),
        champs: Vec::<ChampCategorie>::new(),
    }
}

fn groupe_sync(categorie_id: &str) -> TransactionSauvegarderGroupeUsager {
    TransactionSauvegarderGroupeUsager {
        groupe_id: None,
        categorie_id: categorie_id.to_string(),
        data_chiffre: "contenu".to_string(),
        cle_id: Some("cle-a".to_string()),
        format: FormatChiffrage::Mgs4,
        nonce: None,
        header: None,
        ref_hachage_bytes: None,
    }
}

fn document_sync(groupe_id: &str, data: &str) -> TransactionSauvegarderDocument {
    TransactionSauvegarderDocument {
        doc_id: None,
        groupe_id: groupe_id.to_string(),
        categorie_version: 1,
        data_chiffre: data.to_string(),
        cle_id: Some("cle-a".to_string()),
        format: FormatChiffrage::Mgs4,
        nonce: None,
        compression: None,
        header: None,
    }
}

fn requete_documents(
    groupe_id: &str,
    date_sync: Option<i64>,
    stream: bool,
) -> RequeteGetDocumentsGroupe {
    RequeteGetDocumentsGroupe {
        groupe_id: groupe_id.to_string(),
        limit: None,
        skip: None,
        supprime: None,
        date_sync,
        stream: Some(stream),
    }
}

/// Pagination applies the default limit and the given skip on the owner's
/// categories only.
#[test]
fn pagination_categories() {
    let mut categories = CollectionCategories::new();
    let env = env_sync("u1");
    let autre = env_sync("u2");
    for (id, nom) in [("a", "Alpha"), ("b", "Beta"), ("c", "Gamma")] {
        commande_sauvegader_categorie(&mut categories, &env, &id.to_string(), categorie_nommee(nom))
            .expect("sauvegarde");
    }
    commande_sauvegader_categorie(
        &mut categories,
        &autre,
        &"z".to_string(),
        categorie_nommee("Etranger"),
    )
    .expect("sauvegarde");

    // Defaults: all three of the owner, none of the other owner.
    let rep = requete_get_categories_usager(
        &categories,
        &env,
        &RequeteGetCategoriesUsager { limit: None, skip: None },
    )
    .expect("liste");
    assert_eq!(rep.categories.len(), 3);
    assert!(rep.categories.iter().all(|c| c.user_id == "u1"));

    // Skip one, take one.
    let rep = requete_get_categories_usager(
        &categories,
        &env,
        &RequeteGetCategoriesUsager { limit: Some(1), skip: Some(1) },
    )
    .expect("page");
    assert_eq!(rep.categories.len(), 1);
    assert_eq!(rep.categories[0].nom_categorie, "Beta");

    // Past the end: empty page.
    let rep = requete_get_categories_usager(
        &categories,
        &env,
        &RequeteGetCategoriesUsager { limit: Some(10), skip: Some(5) },
    )
    .expect("page vide");
    assert_eq!(rep.categories.len(), 0);

    // No owner id: access denied.
    let anonyme = Enveloppe {
        user_id: None,
        role_compte_prive: false,
        delegation_globale_proprietaire: false,
        exchanges: vec![Securite::L3Protege],
    };
    let r = requete_get_categories_usager(
        &categories,
        &anonyme,
        &RequeteGetCategoriesUsager { limit: None, skip: None },
    );
    assert_eq!(r.unwrap_err(), ErreurDocuments::AccesRefuse);
}

/// Group listings split live rows from tombstone ids, and the deleted-only
/// mode returns the tombstoned rows themselves.
#[test]
fn listes_groupes_vivants_et_supprimes() {
    let mut groupes = CollectionGroupes::new();
    let env = env_sync("u1");
    completer_sauvegarder_groupe(&mut groupes, &env, &"g1".to_string(), groupe_sync("c1"), 10)
        .expect("g1");
    completer_sauvegarder_groupe(&mut groupes, &env, &"g2".to_string(), groupe_sync("c1"), 11)
        .expect("g2");
    millegrilles_documents::commandes::commande_basculer_suppression_groupe(
        &mut groupes,
        &env,
        millegrilles_documents::common::TransactionSupprimerGroupe { groupe_id: "g2".to_string() },
        true,
        12,
    )
    .expect("suppression g2");

    let rep = requete_get_groupes_usager(
        &groupes,
        &env,
        &RequeteGetGroupesUsager { limit: None, skip: None, supprime: None },
        99,
    )
    .expect("liste");
    assert_eq!(rep.date_sync, 99);
    assert_eq!(rep.groupes.len(), 1);
    assert_eq!(rep.groupes[0].groupe_id, "g1");
    assert_eq!(rep.supprimes, vec!["g2".to_string()]);

    let rep = requete_get_groupes_usager(
        &groupes,
        &env,
        &RequeteGetGroupesUsager { limit: None, skip: None, supprime: Some(true) },
        99,
    )
    .expect("liste supprimes");
    assert_eq!(rep.groupes.len(), 1);
    assert_eq!(rep.groupes[0].groupe_id, "g2");
    assert!(rep.supprimes.is_empty());
}

/// Incremental sync: a mutation later than the cursor is listed; a cursor at
/// the present returns an empty live set; the tombstone of a deleted row is
/// synced too.
#[test]
fn sync_incrementale_documents() {
    let mut documents = CollectionDocuments::new();
    let env = env_sync("u1");
    commande_sauvegarder_document(
        &mut documents,
        &env,
        &"d1".to_string(),
        document_sync("g1", "ancien"),
        1000,
    )
    .expect("d1");
    commande_sauvegarder_document(
        &mut documents,
        &env,
        &"d2".to_string(),
        document_sync("g1", "recent"),
        2000,
    )
    .expect("d2");

    // Since T1 = 1500: only the mutation at T2 = 2000 comes back.
    let trames =
        requete_get_documents_groupe(&documents, &env, &requete_documents("g1", Some(1500), false), 2500)
            .expect("sync");
    assert_eq!(trames.len(), 1);
    assert!(trames[0].done);
    assert_eq!(trames[0].date_sync, 2500);
    assert_eq!(trames[0].documents.len(), 1);
    assert_eq!(trames[0].documents[0].data_chiffre, "recent");

    // Since now: nothing.
    let trames =
        requete_get_documents_groupe(&documents, &env, &requete_documents("g1", Some(2500), false), 2600)
            .expect("sync vide");
    assert_eq!(trames.len(), 1);
    assert!(trames[0].done);
    assert!(trames[0].documents.is_empty());
    assert!(trames[0].supprimes.is_empty());

    // A deletion is a later mutation: it is synced as a tombstone id.
    commande_basculer_suppression_document(
        &mut documents,
        &env,
        TransactionSupprimerDocument { doc_id: "d1".to_string() },
        true,
        3000,
    )
    .expect("suppression");
    let trames =
        requete_get_documents_groupe(&documents, &env, &requete_documents("g1", Some(2500), false), 3100)
            .expect("sync tombstone");
    assert_eq!(trames.len(), 1);
    assert!(trames[0].documents.is_empty());
    assert_eq!(trames[0].supprimes, vec!["d1".to_string()]);
}

/// Streaming: five documents whose cumulative size passes the threshold
/// twice yield exactly three frames; the non-final frames are nonempty and
/// flagged `done == false`, the final frame closes the stream.
#[test]
fn streaming_trois_trames() {
    let mut documents = CollectionDocuments::new();
    let env = env_sync("u1");
    // Each document weighs 200000 + 400; the counter starts at 32, so the
    // threshold of 500000 is passed at the third and the fifth document.
    let gros = "x".repeat(200000);
    for id in ["d1", "d2", "d3", "d4", "d5"] {
        commande_sauvegarder_document(
            &mut documents,
            &env,
            &id.to_string(),
            document_sync("g1", &gros),
            100,
        )
        .expect("document");
    }

    let trames =
        requete_get_documents_groupe(&documents, &env, &requete_documents("g1", None, true), 500)
            .expect("stream");
    assert_eq!(trames.len(), 3);
    assert!(!trames[0].done);
    assert!(!trames[1].done);
    assert!(trames[2].done);
    let ids = |t: &millegrilles_documents::requetes::ReponseGetDocumentsGroupe| {
        t.documents.iter().map(|d| d.doc_id.clone()).collect::<Vec<_>>()
    };
    assert_eq!(ids(&trames[0]), vec!["d1".to_string(), "d2".to_string()]);
    assert_eq!(ids(&trames[1]), vec!["d3".to_string(), "d4".to_string()]);
    assert_eq!(ids(&trames[2]), vec!["d5".to_string()]);
    assert!(trames.iter().all(|t| t.date_sync == 500));
}

/// Streaming never emits an empty frame: a single oversized document is
/// delivered in the final frame alone, and an empty listing still answers
/// with one final frame.
#[test]
fn streaming_cas_limites() {
    let mut documents = CollectionDocuments::new();
    let env = env_sync("u1");

    // Empty listing: one final frame, no document.
    let trames =
        requete_get_documents_groupe(&documents, &env, &requete_documents("g1", None, true), 500)
            .expect("stream vide");
    assert_eq!(trames.len(), 1);
    assert!(trames[0].done);
    assert!(trames[0].documents.is_empty());

    // One oversized document: still a single final frame.
    let enorme = "y".repeat(600000);
    commande_sauvegarder_document(
        &mut documents,
        &env,
        &"d1".to_string(),
        document_sync("g1", &enorme),
        100,
    )
    .expect("document");
    let trames =
        requete_get_documents_groupe(&documents, &env, &requete_documents("g1", None, true), 500)
            .expect("stream gros");
    assert_eq!(trames.len(), 1);
    assert!(trames[0].done);
    assert_eq!(trames[0].documents.len(), 1);
}

/// Without streaming the listing is one final frame whatever its size.
#[test]
fn sans_streaming_une_seule_trame() {
    let mut documents = CollectionDocuments::new();
    let env = env_sync("u1");
    let gros = "x".repeat(300000);
    for id in ["d1", "d2", "d3", "d4", "d5"] {
        commande_sauvegarder_document(
            &mut documents,
            &env,
            &id.to_string(),
            document_sync("g1", &gros),
            100,
        )
        .expect("document");
    }
    let trames =
        requete_get_documents_groupe(&documents, &env, &requete_documents("g1", None, false), 500)
            .expect("liste");
    assert_eq!(trames.len(), 1);
    assert!(trames[0].done);
    assert_eq!(trames[0].documents.len(), 5);
}

/// The key query collects key ids (preferring the key id over the legacy
/// reference) of the owner's matching groups.
#[test]
fn cles_des_groupes() {
    let mut groupes = CollectionGroupes::new();
    let env = env_sync("u1");

    // One group with a key id, one with only a legacy reference.
    completer_sauvegarder_groupe(&mut groupes, &env, &"g1".to_string(), groupe_sync("c1"), 10)
        .expect("g1");
    let legacy = TransactionSauvegarderGroupeUsager {
        groupe_id: None,
        categorie_id: "c1".to_string(),
        data_chiffre: "contenu".to_string(),
        cle_id: None,
        format: FormatChiffrage::Mgs3,
        nonce: None,
        header: Some("entete".to_string()),
        ref_hachage_bytes: Some("hachage-b".to_string()),
    };
    completer_sauvegarder_groupe(&mut groupes, &env, &"g2".to_string(), legacy, 11).expect("g2");

    let rep = requete_get_groupes_cles(
        &groupes,
        &env,
        &RequeteGetGroupesCles {
            cle_ids: vec!["cle-a".to_string(), "hachage-b".to_string(), "autre".to_string()],
        },
    )
    .expect("cles");
    assert_eq!(rep.domaine, "Documents");
    assert_eq!(rep.cle_ids, vec!["cle-a".to_string(), "hachage-b".to_string()]);

    // No requested id matching: empty forward.
    let rep = requete_get_groupes_cles(
        &groupes,
        &env,
        &RequeteGetGroupesCles { cle_ids: vec!["rien".to_string()] },
    )
    .expect("cles vides");
    assert!(rep.cle_ids.is_empty());
}

/// Tombstones weigh into the streaming counter and travel with the frame of
/// their batch; the deleted-only mode streams the tombstoned rows instead.
#[test]
fn streaming_avec_tombstones() {
    let mut documents = CollectionDocuments::new();
    let env = env_sync("u1");
    let gros = "x".repeat(200000);
    for id in ["d1", "d2", "d3"] {
        commande_sauvegarder_document(
            &mut documents,
            &env,
            &id.to_string(),
            document_sync("g1", &gros),
            100,
        )
        .expect("document");
    }
    // The second document becomes a tombstone; it still counts for the size.
    commande_basculer_suppression_document(
        &mut documents,
        &env,
        TransactionSupprimerDocument { doc_id: "d2".to_string() },
        true,
        150,
    )
    .expect("suppression");

    let trames =
        requete_get_documents_groupe(&documents, &env, &requete_documents("g1", None, true), 500)
            .expect("stream");
    // Sizes: 32 + 200400 (d1) + 200400 (d2) = 400832, then d3 passes the
    // threshold, flushing [d1] with the tombstone d2.
    assert_eq!(trames.len(), 2);
    assert!(!trames[0].done);
    assert_eq!(trames[0].documents.len(), 1);
    assert_eq!(trames[0].documents[0].doc_id, "d1");
    assert_eq!(trames[0].supprimes, vec!["d2".to_string()]);
    assert!(trames[1].done);
    assert_eq!(trames[1].documents.len(), 1);
    assert_eq!(trames[1].documents[0].doc_id, "d3");

    // Deleted-only: the tombstoned row itself, in a single final frame.
    let mut requete = requete_documents("g1", None, false);
    requete.supprime = Some(true);
    let trames =
        requete_get_documents_groupe(&documents, &env, &requete, 500).expect("liste supprimes");
    assert_eq!(trames.len(), 1);
    assert_eq!(trames[0].documents.len(), 1);
    assert_eq!(trames[0].documents[0].doc_id, "d2");
    assert!(trames[0].supprimes.is_empty());
}

/// The incremental filter is strict: a row modified exactly at the cursor is
/// not returned again.
#[test]
fn sync_borne_stricte() {
    let mut documents = CollectionDocuments::new();
    let env = env_sync("u1");
    commande_sauvegarder_document(
        &mut documents,
        &env,
        &"d1".to_string(),
        document_sync("g1", "donnees"),
        2000,
    )
    .expect("d1");
    let trames =
        requete_get_documents_groupe(&documents, &env, &requete_documents("g1", Some(2000), false), 2100)
            .expect("sync");
    assert!(trames[0].documents.is_empty());
    let trames =
        requete_get_documents_groupe(&documents, &env, &requete_documents("g1", Some(1999), false), 2100)
            .expect("sync");
    assert_eq!(trames[0].documents.len(), 1);
}

/// The streamed-frame correlation id keeps the inner segment of a two-part
/// id, and the outer segment otherwise.
#[test]
fn correlation_streaming_segments() {
    assert_eq!(correlation_pour_streaming("externe/interne"), "interne");
    assert_eq!(correlation_pour_streaming("simple"), "simple");
    assert_eq!(correlation_pour_streaming("a/b/c"), "a");
    assert_eq!(correlation_pour_streaming("/queue"), "queue");
    assert_eq!(correlation_pour_streaming(""), "");
}
