//! Domain manager: the explicitly constructed service object handed to the
//! request-handling entry points, its collection names, and the queue and
//! index layout the surrounding process declares on the bus and the database.
use vstd::prelude::*;

use crate::autorisation::Securite;

verus! {

/// Time-to-live of the volatile queue, in milliseconds (platform default).
pub const TTL_QUEUE_VOLATILS: u32 = 300000;

/// The Documents domain service object.
#[derive(Debug)]
pub struct DocumentsDomainManager {
    pub instance_id: String,
}

impl DocumentsDomainManager {
    /// Builds the manager for one instance.
    pub fn new(instance_id: String) -> (r: DocumentsDomainManager)
        ensures
            r.instance_id == instance_id,
    {
        DocumentsDomainManager { instance_id }
    }

    /// Name of the domain.
    pub fn get_nom_domaine(&self) -> (r: String)
        ensures
            r@ == "Documents"@,
    {
        "Documents".to_owned()
    }

    /// Name of the transaction-log collection.
    pub fn get_collection_transactions(&self) -> (r: Option<String>)
        ensures
            r matches Some(s) && s@ == "Documents"@,
    {
        Some("Documents".to_owned())
    }

    /// Names of the volatile collections of the domain.
    pub fn get_collections_volatiles(&self) -> (r: Vec<String>)
        ensures
            r@.len() == 4,
            r@[0]@ == "Documents/documentsUsagers"@,
            r@[1]@ == "Documents/categoriesUsagers"@,
            r@[2]@ == "Documents/categoriesUsagersVersion"@,
            r@[3]@ == "Documents/groupesUsagers"@,
    {
        let mut r: Vec<String> = Vec::new();
        r.push("Documents/documentsUsagers".to_owned());
        r.push("Documents/categoriesUsagers".to_owned());
        r.push("Documents/categoriesUsagersVersion".to_owned());
        r.push("Documents/groupesUsagers".to_owned());
        r
    }

    /// Name of the volatile queue of the manager.
    pub fn get_q_volatils(&self) -> (r: String)
        ensures
            r@ == "Documents"@ + "/volatiles"@,
    {
        "Documents".to_owned().concat("/volatiles")
    }

    /// Name of the trigger queue of the manager.
    pub fn get_q_triggers(&self) -> (r: String)
        ensures
            r@ == "Documents"@ + "/triggers"@,
    {
        "Documents".to_owned().concat("/triggers")
    }

    /// Scheduler hook: the domain runs no periodic work.
    pub fn traiter_cedule(&self) -> (r: Result<(), crate::erreurs::ErreurDocuments>)
        ensures
            r is Ok,
    {
        Ok(())
    }
}

/// One routing-key binding of a queue.
#[derive(Debug)]
pub struct ConfigRoutingExchange {
    pub routing_key: String,
    pub exchange: Securite,
}

/// Declaration of one exchange queue.
#[derive(Debug)]
pub struct ConfigQueue {
    pub nom_queue: String,
    pub routing_keys: Vec<ConfigRoutingExchange>,
    pub ttl: Option<u32>,
    pub durable: bool,
    pub autodelete: bool,
}

/// A queue the domain listens on.
#[derive(Debug)]
pub enum QueueType {
    ExchangeQueue(ConfigQueue),
    Triggers(String, Securite),
}

/// Routing key `type.Documents.action` of one message kind.
pub open spec fn spec_cle_routage(type_message: Seq<char>, action: Seq<char>) -> Seq<char> {
    type_message + "."@ + "Documents"@ + "."@ + action
}

/// Builds the routing key `type.Documents.action`.
fn cle_routage(type_message: &str, action: &str) -> (r: String)
    ensures
        r@ == spec_cle_routage(type_message@, action@),
{
    type_message.to_owned().concat(".").concat("Documents").concat(".").concat(action)
}

/// The binding at one position of the volatile queue: the four queries then
/// the seven commands, all on the private trust tier.
pub open spec fn liaison_volatils_conforme(c: ConfigRoutingExchange, k: int) -> bool {
    c.exchange == Securite::L2Prive && c.routing_key@ == (if k == 0 {
        spec_cle_routage("requete"@, "getCategoriesUsager"@)
    } else if k == 1 {
        spec_cle_routage("requete"@, "getGroupesUsager"@)
    } else if k == 2 {
        spec_cle_routage("requete"@, "getClesGroupes"@)
    } else if k == 3 {
        spec_cle_routage("requete"@, "getDocumentsGroupe"@)
    } else if k == 4 {
        spec_cle_routage("commande"@, "sauvegarderCategorieUsager"@)
    } else if k == 5 {
        spec_cle_routage("commande"@, "sauvegarderGroupeUsager"@)
    } else if k == 6 {
        spec_cle_routage("commande"@, "sauvegarderDocument"@)
    } else if k == 7 {
        spec_cle_routage("commande"@, "supprimerDocument"@)
    } else if k == 8 {
        spec_cle_routage("commande"@, "recupererDocument"@)
    } else if k == 9 {
        spec_cle_routage("commande"@, "supprimerGroupe"@)
    } else {
        spec_cle_routage("commande"@, "recupererGroupe"@)
    })
}

/// Declares the queues of the domain: the volatile queue bound to the four
/// queries and the seven commands on the private tier, durable with the
/// platform time-to-live, and the trigger queue on the protected tier.
pub fn preparer_queues(manager: &DocumentsDomainManager) -> (r: Vec<QueueType>)
    ensures
        r@.len() == 2,
        r@[0] matches QueueType::ExchangeQueue(cq) && {
            &&& cq.nom_queue@ == "Documents/volatils"@
            &&& cq.routing_keys@.len() == 11
            &&& (forall|k: int|
                0 <= k < 11 ==> liaison_volatils_conforme(#[trigger] cq.routing_keys@[k], k))
            &&& cq.ttl == Some(TTL_QUEUE_VOLATILS)
            &&& cq.durable == true
            &&& cq.autodelete == false
        },
        r@[1] matches QueueType::Triggers(nom, s) && nom@ == "Documents"@ && s
            == Securite::L3Protege,
{
    let mut rk_volatils: Vec<ConfigRoutingExchange> = Vec::new();

    rk_volatils.push(
        ConfigRoutingExchange {
            routing_key: cle_routage("requete", "getCategoriesUsager"),
            exchange: Securite::L2Prive,
        },
    );
    rk_volatils.push(
        ConfigRoutingExchange {
            routing_key: cle_routage("requete", "getGroupesUsager"),
            exchange: Securite::L2Prive,
        },
    );
    rk_volatils.push(
        ConfigRoutingExchange {
            routing_key: cle_routage("requete", "getClesGroupes"),
            exchange: Securite::L2Prive,
        },
    );
    rk_volatils.push(
        ConfigRoutingExchange {
            routing_key: cle_routage("requete", "getDocumentsGroupe"),
            exchange: Securite::L2Prive,
        },
    );
    rk_volatils.push(
        ConfigRoutingExchange {
            routing_key: cle_routage("commande", "sauvegarderCategorieUsager"),
            exchange: Securite::L2Prive,
        },
    );
    rk_volatils.push(
        ConfigRoutingExchange {
            routing_key: cle_routage("commande", "sauvegarderGroupeUsager"),
            exchange: Securite::L2Prive,
        },
    );
    rk_volatils.push(
        ConfigRoutingExchange {
            routing_key: cle_routage("commande", "sauvegarderDocument"),
            exchange: Securite::L2Prive,
        },
    );
    rk_volatils.push(
        ConfigRoutingExchange {
            routing_key: cle_routage("commande", "supprimerDocument"),
            exchange: Securite::L2Prive,
        },
    );
    rk_volatils.push(
        ConfigRoutingExchange {
            routing_key: cle_routage("commande", "recupererDocument"),
            exchange: Securite::L2Prive,
        },
    );
    rk_volatils.push(
        ConfigRoutingExchange {
            routing_key: cle_routage("commande", "supprimerGroupe"),
            exchange: Securite::L2Prive,
        },
    );
    rk_volatils.push(
        ConfigRoutingExchange {
            routing_key: cle_routage("commande", "recupererGroupe"),
            exchange: Securite::L2Prive,
        },
    );

    let mut queues: Vec<QueueType> = Vec::new();
    queues.push(
        QueueType::ExchangeQueue(
            ConfigQueue {
                nom_queue: "Documents/volatils".to_owned(),
                routing_keys: rk_volatils,
                ttl: Some(TTL_QUEUE_VOLATILS),
                durable: true,
                autodelete: false,
            },
        ),
    );
    queues.push(QueueType::Triggers("Documents".to_owned(), Securite::L3Protege));
    queues
}

/// One indexed field of a collection index.
#[derive(Debug)]
pub struct ChampIndex {
    pub nom_champ: String,
    pub direction: i32,
}

/// Options of a collection index.
#[derive(Debug)]
pub struct IndexOptions {
    pub nom_index: Option<String>,
    pub unique: bool,
}

/// One index the surrounding process creates on the database.
#[derive(Debug)]
pub struct SpecificationIndex {
    pub collection: String,
    pub champs: Vec<ChampIndex>,
    pub options: IndexOptions,
}

/// Declares the unique indexes that serialize concurrent category writes:
/// `(categorie_id, user_id)` on the current table and
/// `(categorie_id, user_id, version)` on the history table.
pub fn preparer_index_mongodb() -> (r: Vec<SpecificationIndex>)
    ensures
        r@.len() == 2,
        ({
            let ix = r@[0];
            &&& ix.collection@ == "Documents/categoriesUsagers"@
            &&& (ix.options.nom_index matches Some(n) && n@ == "categorie_id_usager"@)
            &&& ix.options.unique == true
            &&& ix.champs@.len() == 2
            &&& ix.champs@[0].nom_champ@ == "categorie_id"@ && ix.champs@[0].direction == 1
            &&& ix.champs@[1].nom_champ@ == "user_id"@ && ix.champs@[1].direction == 1
        }),
        ({
            let ix = r@[1];
            &&& ix.collection@ == "Documents/categoriesUsagersVersion"@
            &&& (ix.options.nom_index matches Some(n) && n@ == "categorie_id_usager_version"@)
            &&& ix.options.unique == true
            &&& ix.champs@.len() == 3
            &&& ix.champs@[0].nom_champ@ == "categorie_id"@ && ix.champs@[0].direction == 1
            &&& ix.champs@[1].nom_champ@ == "user_id"@ && ix.champs@[1].direction == 1
            &&& ix.champs@[2].nom_champ@ == "version"@ && ix.champs@[2].direction == 1
        }),
{
    let mut champs_courantes: Vec<ChampIndex> = Vec::new();
    champs_courantes.push(ChampIndex { nom_champ: "categorie_id".to_owned(), direction: 1 });
    champs_courantes.push(ChampIndex { nom_champ: "user_id".to_owned(), direction: 1 });

    let mut champs_versions: Vec<ChampIndex> = Vec::new();
    champs_versions.push(ChampIndex { nom_champ: "categorie_id".to_owned(), direction: 1 });
    champs_versions.push(ChampIndex { nom_champ: "user_id".to_owned(), direction: 1 });
    champs_versions.push(ChampIndex { nom_champ: "version".to_owned(), direction: 1 });

    let mut r: Vec<SpecificationIndex> = Vec::new();
    r.push(
        SpecificationIndex {
            collection: "Documents/categoriesUsagers".to_owned(),
            champs: champs_courantes,
            options: IndexOptions {
                nom_index: Some("categorie_id_usager".to_owned()),
                unique: true,
            },
        },
    );
    r.push(
        SpecificationIndex {
            collection: "Documents/categoriesUsagersVersion".to_owned(),
            champs: champs_versions,
            options: IndexOptions {
                nom_index: Some("categorie_id_usager_version".to_owned()),
                unique: true,
            },
        },
    );
    r
}

} // verus!
