//! Tests of the gates, the action routing, the key delegation protocol, the
//! change events and the declared queue/index layout.
use millegrilles_documents::autorisation::{Enveloppe, Securite};
use millegrilles_documents::categories::CollectionCategories;
use millegrilles_documents::cles::{interpreter_reponse_cle, IssueTransmissionCle, ReponseCommande};
use millegrilles_documents::commandes::{consommer_commande, router_commande, ActionCommande};
use millegrilles_documents::common::{
    FormatChiffrage, TransactionSauvegarderCategorieUsager, TransactionSupprimerDocument,
};
use millegrilles_documents::documents::CollectionDocuments;
use millegrilles_documents::domain_manager::{
    preparer_index_mongodb, preparer_queues, DocumentsDomainManager, QueueType,
};
use millegrilles_documents::erreurs::ErreurDocuments;
use millegrilles_documents::evenements::{
    consommer_evenement, partition_usager_groupe, ActionEvenement, ContenuEvenement,
};
use millegrilles_documents::groupes::CollectionGroupes;
use millegrilles_documents::requetes::{consommer_requete, router_requete, ActionRequete};
use millegrilles_documents::transactions::{
    aiguillage_transaction, consommer_transaction, router_transaction, ActionTransaction,
    ReponseTransaction, TransactionDocuments,
};

fn env_avec(
    user: Option<&str>,
    role_prive: bool,
    delegation: bool,
    exchanges: Vec<Securite>,
) -> Enveloppe {
    Enveloppe {
        user_id: user.map(|s| s.to_string()),
        role_compte_prive: role_prive,
        delegation_globale_proprietaire: delegation,
        exchanges,
    }
}

/// The command gate accepts a private-account owner, any internal trust
/// tier, or the global delegation, and nothing else.
#[test]
fn gate_commandes() {
    let usager = env_avec(Some("u1"), true, false, vec![]);
    assert!(usager.autoriser_commande());

    let par_exchange = env_avec(None, false, false, vec![Securite::L1Public]);
    assert!(par_exchange.autoriser_commande());

    let par_delegation = env_avec(None, false, true, vec![]);
    assert!(par_delegation.autoriser_commande());

    let refuse = env_avec(None, true, false, vec![]);
    assert!(!refuse.autoriser_commande());
}

/// The query gate is distinct: private owner, the inter-service band
/// (private/protected), or the delegation.
#[test]
fn gate_requetes() {
    let usager = env_avec(Some("u1"), true, false, vec![]);
    assert!(usager.autoriser_requete());

    let protege = env_avec(None, false, false, vec![Securite::L3Protege]);
    assert!(protege.autoriser_requete());

    // The public tier opens commands but not queries.
    let public = env_avec(None, false, false, vec![Securite::L1Public]);
    assert!(public.autoriser_commande());
    assert!(!public.autoriser_requete());

    let par_delegation = env_avec(None, false, true, vec![]);
    assert!(par_delegation.autoriser_requete());
}

/// Replayed transactions are accepted from the most secure tier only.
#[test]
fn gate_transactions() {
    let secure = env_avec(None, false, false, vec![Securite::L4Secure]);
    assert!(secure.autoriser_transaction());
    let prive = env_avec(Some("u1"), true, true, vec![Securite::L2Prive]);
    assert!(!prive.autoriser_transaction());

    let r = consommer_transaction(&secure, &"sauvegarderDocument".to_string());
    assert_eq!(r.unwrap(), ActionTransaction::SauvegarderDocument);
    let r = consommer_transaction(&prive, &"sauvegarderDocument".to_string());
    assert_eq!(r.unwrap_err(), ErreurDocuments::NonAutorise);
    let r = consommer_transaction(&secure, &"supprimerGroupe".to_string());
    assert_eq!(r.unwrap_err(), ErreurDocuments::ActionInconnue);
}

/// Action names route onto the closed variant sets, unknown names included.
#[test]
fn routage_des_actions() {
    assert_eq!(
        router_commande(&"sauvegarderCategorieUsager".to_string()),
        ActionCommande::SauvegarderCategorieUsager
    );
    assert_eq!(
        router_commande(&"sauvegarderGroupeUsager".to_string()),
        ActionCommande::SauvegarderGroupeUsager
    );
    assert_eq!(
        router_commande(&"sauvegarderDocument".to_string()),
        ActionCommande::SauvegarderDocument
    );
    assert_eq!(router_commande(&"supprimerDocument".to_string()), ActionCommande::SupprimerDocument);
    assert_eq!(router_commande(&"recupererDocument".to_string()), ActionCommande::RecupererDocument);
    assert_eq!(router_commande(&"supprimerGroupe".to_string()), ActionCommande::SupprimerGroupe);
    assert_eq!(router_commande(&"recupererGroupe".to_string()), ActionCommande::RecupererGroupe);
    assert_eq!(router_commande(&"autreChose".to_string()), ActionCommande::Inconnue);

    assert_eq!(
        router_requete(&"getCategoriesUsager".to_string()),
        ActionRequete::GetCategoriesUsager
    );
    assert_eq!(router_requete(&"getGroupesUsager".to_string()), ActionRequete::GetGroupesUsager);
    assert_eq!(router_requete(&"getClesGroupes".to_string()), ActionRequete::GetClesGroupes);
    assert_eq!(router_requete(&"getDocumentsGroupe".to_string()), ActionRequete::GetDocumentsGroupe);
    assert_eq!(router_requete(&"inconnue".to_string()), ActionRequete::Inconnue);

    assert_eq!(
        router_transaction(&"recupererDocument".to_string()),
        ActionTransaction::RecupererDocument
    );
    assert_eq!(router_transaction(&"supprimerGroupe".to_string()), ActionTransaction::Inconnue);
}

/// The volatile-queue gates combine authorization and routing.
#[test]
fn consommation_commandes_et_requetes() {
    let usager = env_avec(Some("u1"), true, false, vec![]);
    let r = consommer_commande(&usager, &"sauvegarderDocument".to_string());
    assert_eq!(r.unwrap(), ActionCommande::SauvegarderDocument);
    let r = consommer_commande(&usager, &"actionFarfelue".to_string());
    assert_eq!(r.unwrap_err(), ErreurDocuments::ActionInconnue);
    let refuse = env_avec(None, false, false, vec![]);
    let r = consommer_commande(&refuse, &"sauvegarderDocument".to_string());
    assert_eq!(r.unwrap_err(), ErreurDocuments::NonAutorise);

    let r = consommer_requete(&usager, &"getGroupesUsager".to_string());
    assert_eq!(r.unwrap(), ActionRequete::GetGroupesUsager);
    let r = consommer_requete(&usager, &"getAutreChose".to_string());
    assert_eq!(r.unwrap_err(), ErreurDocuments::ActionInconnue);

    // The domain consumes no events.
    let r = consommer_evenement(&"updateCatGroup".to_string());
    assert_eq!(r.unwrap_err(), ErreurDocuments::ActionInconnue);
}

/// Outcomes of the key delegation protocol: explicit success proceeds; an
/// explicit failure carries code 3 with the custodian's words; an answer out
/// of protocol carries code 2; a timeout carries code 1.
#[test]
fn protocole_cle_attachee() {
    let ok = IssueTransmissionCle::Reponse(ReponseCommande {
        ok: Some(true),
        message: None,
        err: None,
    });
    assert!(interpreter_reponse_cle(ok).is_ok());

    let echec = IssueTransmissionCle::Reponse(ReponseCommande {
        ok: Some(false),
        message: Some("cle invalide".to_string()),
        err: Some("signature".to_string()),
    });
    match interpreter_reponse_cle(echec).unwrap_err() {
        ErreurDocuments::SauvegardeCle { code, message, err } => {
            assert_eq!(code, 3);
            assert_eq!(message.as_deref(), Some("cle invalide"));
            assert_eq!(err.as_deref(), Some("signature"));
        }
        autre => panic!("erreur inattendue: {:?}", autre),
    }

    // An acknowledgment without a verdict is a failure too.
    let sans_verdict =
        IssueTransmissionCle::Reponse(ReponseCommande { ok: None, message: None, err: None });
    match interpreter_reponse_cle(sans_verdict).unwrap_err() {
        ErreurDocuments::SauvegardeCle { code, .. } => assert_eq!(code, 3),
        autre => panic!("erreur inattendue: {:?}", autre),
    }

    match interpreter_reponse_cle(IssueTransmissionCle::MauvaisTypeReponse).unwrap_err() {
        ErreurDocuments::SauvegardeCle { code, message, err } => {
            assert_eq!(code, 2);
            assert_eq!(message, None);
            assert_eq!(err.as_deref(), Some("Erreur sauvegarde cle"));
        }
        autre => panic!("erreur inattendue: {:?}", autre),
    }

    match interpreter_reponse_cle(IssueTransmissionCle::Timeout).unwrap_err() {
        ErreurDocuments::SauvegardeCle { code, message, err } => {
            assert_eq!(code, 1);
            assert_eq!(message, None);
            assert_eq!(err.as_deref(), Some("Timeout"));
        }
        autre => panic!("erreur inattendue: {:?}", autre),
    }
}

/// Error responses carry the platform's numeric codes and reasons.
#[test]
fn codes_et_libelles() {
    assert_eq!(ErreurDocuments::DocumentInconnu.code(), 404);
    assert_eq!(ErreurDocuments::GroupeInconnu.code(), 404);
    assert_eq!(ErreurDocuments::DocumentDejaSupprime.code(), 1);
    assert_eq!(ErreurDocuments::GroupeDejaRecupere.code(), 1);
    assert_eq!(ErreurDocuments::VersionExiste.code(), 0);
    assert_eq!(ErreurDocuments::VersionExiste.libelle(), "Version categorie existe deja");
    assert_eq!(
        ErreurDocuments::CategorieChangee.libelle(),
        "La categorie ne peut pas etre changee"
    );
    assert_eq!(ErreurDocuments::CleManquante.libelle(), "Cle manquante");
    assert_eq!(ErreurDocuments::DocumentInconnu.libelle(), "Unknown document");
}

/// Document events are partitioned by owner and group.
#[test]
fn partitions_evenements() {
    assert_eq!(
        partition_usager_groupe(&"u1".to_string(), &"g7".to_string()),
        "u1_g7"
    );
    assert_eq!(ActionEvenement::UpdateCatGroup.nom(), "updateCatGroup");
    assert_eq!(ActionEvenement::UpdateGroupDocument.nom(), "updateGroupDocument");
    assert_eq!(
        ActionEvenement::SauvegarderCategorieUsager.nom(),
        "sauvegarderCategorieUsager"
    );
}

/// A replayed category transaction is dispatched to the category store and
/// yields the stored row as its change event.
#[test]
fn aiguillage_replay_categorie() {
    let mut categories = CollectionCategories::new();
    let mut groupes = CollectionGroupes::new();
    let mut documents = CollectionDocuments::new();

    let t = TransactionSauvegarderCategorieUsager {
        categorie_id: None,
        version: Some(1),
        nom_categorie: "Notes".to_string(),
        champs: vec![],
    };
    let r = aiguillage_transaction(
        &mut categories,
        &mut groupes,
        &mut documents,
        &"u1".to_string(),
        &"tx-1".to_string(),
        TransactionDocuments::SauvegarderCategorieUsager(t),
        100,
    )
    .expect("replay");
    match r {
        (ReponseTransaction::Categorie(rep), Some(ev)) => {
            assert!(rep.ok);
            assert_eq!(rep.category_id, "tx-1");
            assert_eq!(ev.partition, "u1");
            assert!(matches!(ev.action, ActionEvenement::SauvegarderCategorieUsager));
            match ev.contenu {
                ContenuEvenement::Categorie(doc) => {
                    assert_eq!(doc.categorie_id, "tx-1");
                    assert_eq!(doc.version, 1);
                }
                autre => panic!("contenu inattendu: {:?}", autre),
            }
        }
        autre => panic!("reponse inattendue: {:?}", autre),
    }
    assert_eq!(categories.courantes.len(), 1);

    // A replayed tombstone toggle emits no event of its own.
    let r = aiguillage_transaction(
        &mut categories,
        &mut groupes,
        &mut documents,
        &"u1".to_string(),
        &"tx-2".to_string(),
        TransactionDocuments::SupprimerDocument(TransactionSupprimerDocument {
            doc_id: "absent".to_string(),
        }),
        101,
    );
    assert_eq!(r.unwrap_err(), ErreurDocuments::DocumentInconnu);
}

/// The manager declares its names, queues and indexes as the platform
/// expects them.
#[test]
fn declaration_files_et_index() {
    let manager = DocumentsDomainManager::new("instance-1".to_string());
    assert_eq!(manager.instance_id, "instance-1");
    assert_eq!(manager.get_nom_domaine(), "Documents");
    assert_eq!(manager.get_collection_transactions(), Some("Documents".to_string()));
    assert_eq!(manager.get_q_volatils(), "Documents/volatiles");
    assert_eq!(manager.get_q_triggers(), "Documents/triggers");
    assert!(manager.traiter_cedule().is_ok());
    let collections = manager.get_collections_volatiles();
    assert_eq!(
        collections,
        vec![
            "Documents/documentsUsagers".to_string(),
            "Documents/categoriesUsagers".to_string(),
            "Documents/categoriesUsagersVersion".to_string(),
            "Documents/groupesUsagers".to_string(),
        ]
    );

    let queues = preparer_queues(&manager);
    assert_eq!(queues.len(), 2);
    match &queues[0] {
        QueueType::ExchangeQueue(cq) => {
            assert_eq!(cq.nom_queue, "Documents/volatils");
            assert_eq!(cq.routing_keys.len(), 11);
            assert_eq!(cq.routing_keys[0].routing_key, "requete.Documents.getCategoriesUsager");
            assert_eq!(
                cq.routing_keys[4].routing_key,
                "commande.Documents.sauvegarderCategorieUsager"
            );
            assert_eq!(cq.routing_keys[10].routing_key, "commande.Documents.recupererGroupe");
            assert!(cq.routing_keys.iter().all(|rk| rk.exchange == Securite::L2Prive));
            assert_eq!(cq.ttl, Some(300000));
            assert!(cq.durable);
            assert!(!cq.autodelete);
        }
        autre => panic!("queue inattendue: {:?}", autre),
    }
    match &queues[1] {
        QueueType::Triggers(nom, tier) => {
            assert_eq!(nom, "Documents");
            assert_eq!(*tier, Securite::L3Protege);
        }
        autre => panic!("queue inattendue: {:?}", autre),
    }

    let index = preparer_index_mongodb();
    assert_eq!(index.len(), 2);
    assert_eq!(index[0].collection, "Documents/categoriesUsagers");
    assert_eq!(index[0].options.nom_index.as_deref(), Some("categorie_id_usager"));
    assert!(index[0].options.unique);
    assert_eq!(index[0].champs.len(), 2);
    assert_eq!(index[1].collection, "Documents/categoriesUsagersVersion");
    assert_eq!(index[1].champs.len(), 3);
    assert_eq!(index[1].champs[2].nom_champ, "version");
    assert_eq!(index[1].champs[2].direction, 1);

    // The encryption format tags round through unchanged.
    assert_eq!(FormatChiffrage::Mgs4, FormatChiffrage::Mgs4);
    assert_ne!(FormatChiffrage::Mgs2, FormatChiffrage::Mgs4);
}
