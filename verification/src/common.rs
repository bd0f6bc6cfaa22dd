//! Data model of the Documents domain: user categories (versioned schemas),
//! encrypted groups bound to a category, and encrypted documents bound to a
//! group.  Each executable type has a mathematical view used by the contracts.
//!
//! Timestamps are epoch seconds; the encryption format of the surrounding
//! platform is mirrored by the [`FormatChiffrage`] enum so that contracts can
//! speak about stored rows as plain values.
use vstd::prelude::*;

verus! {

/// Encryption format tag carried by encrypted payloads.
#[derive(Clone, Copy, Debug, PartialEq, Eq, Structural)]
pub enum FormatChiffrage {
    Mgs2,
    Mgs3,
    Mgs4,
}

/// One field of a category schema.
#[derive(Debug, PartialEq)]
pub struct ChampCategorie {
    pub nom_champ: String,
    pub code_interne: String,
    pub type_champ: String,
    pub taille_maximum: Option<i32>,
    pub requis: Option<bool>,
}

/// Mathematical view of [`ChampCategorie`].
#[verifier::ext_equal]
pub struct ChampCategorieView {
    pub nom_champ: Seq<char>,
    pub code_interne: Seq<char>,
    pub type_champ: Seq<char>,
    pub taille_maximum: Option<i32>,
    pub requis: Option<bool>,
}

impl View for ChampCategorie {
    type V = ChampCategorieView;

    open spec fn view(&self) -> ChampCategorieView {
        ChampCategorieView {
            nom_champ: self.nom_champ@,
            code_interne: self.code_interne@,
            type_champ: self.type_champ@,
            taille_maximum: self.taille_maximum,
            requis: self.requis,
        }
    }
}

impl DeepView for ChampCategorie {
    type V = ChampCategorieView;

    open spec fn deep_view(&self) -> ChampCategorieView {
        self.view()
    }
}

/// Command payload asking to create or update a category schema.
#[derive(Debug, PartialEq)]
pub struct TransactionSauvegarderCategorieUsager {
    pub categorie_id: Option<String>,
    pub version: Option<usize>,
    pub nom_categorie: String,
    pub champs: Vec<ChampCategorie>,
}

/// Mathematical view of [`TransactionSauvegarderCategorieUsager`].
#[verifier::ext_equal]
pub struct TransactionSauvegarderCategorieUsagerView {
    pub categorie_id: Option<Seq<char>>,
    pub version: Option<usize>,
    pub nom_categorie: Seq<char>,
    pub champs: Seq<ChampCategorieView>,
}

impl View for TransactionSauvegarderCategorieUsager {
    type V = TransactionSauvegarderCategorieUsagerView;

    open spec fn view(&self) -> TransactionSauvegarderCategorieUsagerView {
        TransactionSauvegarderCategorieUsagerView {
            categorie_id: match self.categorie_id {
                Some(ref s) => Some(s@),
                None => None,
            },
            version: self.version,
            nom_categorie: self.nom_categorie@,
            champs: self.champs.deep_view(),
        }
    }
}

/// Current row of a user's category, one per `(user_id, categorie_id)`.
#[derive(Debug, PartialEq)]
pub struct DocCategorieUsager {
    pub user_id: String,
    pub categorie_id: String,
    pub version: usize,
    pub nom_categorie: String,
    pub champs: Vec<ChampCategorie>,
}

/// Mathematical view of [`DocCategorieUsager`].
#[verifier::ext_equal]
pub struct DocCategorieUsagerView {
    pub user_id: Seq<char>,
    pub categorie_id: Seq<char>,
    pub version: usize,
    pub nom_categorie: Seq<char>,
    pub champs: Seq<ChampCategorieView>,
}

impl View for DocCategorieUsager {
    type V = DocCategorieUsagerView;

    open spec fn view(&self) -> DocCategorieUsagerView {
        DocCategorieUsagerView {
            user_id: self.user_id@,
            categorie_id: self.categorie_id@,
            version: self.version,
            nom_categorie: self.nom_categorie@,
            champs: self.champs.deep_view(),
        }
    }
}

impl DeepView for DocCategorieUsager {
    type V = DocCategorieUsagerView;

    open spec fn deep_view(&self) -> DocCategorieUsagerView {
        self.view()
    }
}

/// Command payload asking to create or update an encrypted group.
#[derive(Debug, PartialEq)]
pub struct TransactionSauvegarderGroupeUsager {
    pub groupe_id: Option<String>,
    pub categorie_id: String,
    pub data_chiffre: String,
    pub cle_id: Option<String>,
    pub format: FormatChiffrage,
    pub nonce: Option<String>,
    // Legacy encryption reference, kept for rows written before key ids.
    pub header: Option<String>,
    pub ref_hachage_bytes: Option<String>,
}

/// Mathematical view of [`TransactionSauvegarderGroupeUsager`].
#[verifier::ext_equal]
pub struct TransactionSauvegarderGroupeUsagerView {
    pub groupe_id: Option<Seq<char>>,
    pub categorie_id: Seq<char>,
    pub data_chiffre: Seq<char>,
    pub cle_id: Option<Seq<char>>,
    pub format: FormatChiffrage,
    pub nonce: Option<Seq<char>>,
    pub header: Option<Seq<char>>,
    pub ref_hachage_bytes: Option<Seq<char>>,
}

impl View for TransactionSauvegarderGroupeUsager {
    type V = TransactionSauvegarderGroupeUsagerView;

    open spec fn view(&self) -> TransactionSauvegarderGroupeUsagerView {
        TransactionSauvegarderGroupeUsagerView {
            groupe_id: view_opt_string(&self.groupe_id),
            categorie_id: self.categorie_id@,
            data_chiffre: self.data_chiffre@,
            cle_id: view_opt_string(&self.cle_id),
            format: self.format,
            nonce: view_opt_string(&self.nonce),
            header: view_opt_string(&self.header),
            ref_hachage_bytes: view_opt_string(&self.ref_hachage_bytes),
        }
    }
}

/// View of an optional string as an optional character sequence.
pub open spec fn view_opt_string(s: &Option<String>) -> Option<Seq<char>> {
    match s {
        Some(inner) => Some(inner@),
        None => None,
    }
}

/// Stored row of an encrypted group, one per `(user_id, groupe_id)`.
#[derive(Debug, PartialEq)]
pub struct DocGroupeUsager {
    pub groupe_id: String,
    pub categorie_id: String,
    pub data_chiffre: String,
    pub supprime: Option<bool>,
    pub supprime_date: Option<i64>,
    pub cle_id: Option<String>,
    pub format: FormatChiffrage,
    pub nonce: Option<String>,
    // Legacy encryption reference, kept for rows written before key ids.
    pub header: Option<String>,
    pub ref_hachage_bytes: Option<String>,
}

/// Mathematical view of [`DocGroupeUsager`].
#[verifier::ext_equal]
pub struct DocGroupeUsagerView {
    pub groupe_id: Seq<char>,
    pub categorie_id: Seq<char>,
    pub data_chiffre: Seq<char>,
    pub supprime: Option<bool>,
    pub supprime_date: Option<i64>,
    pub cle_id: Option<Seq<char>>,
    pub format: FormatChiffrage,
    pub nonce: Option<Seq<char>>,
    pub header: Option<Seq<char>>,
    pub ref_hachage_bytes: Option<Seq<char>>,
}

impl View for DocGroupeUsager {
    type V = DocGroupeUsagerView;

    open spec fn view(&self) -> DocGroupeUsagerView {
        DocGroupeUsagerView {
            groupe_id: self.groupe_id@,
            categorie_id: self.categorie_id@,
            data_chiffre: self.data_chiffre@,
            supprime: self.supprime,
            supprime_date: self.supprime_date,
            cle_id: view_opt_string(&self.cle_id),
            format: self.format,
            nonce: view_opt_string(&self.nonce),
            header: view_opt_string(&self.header),
            ref_hachage_bytes: view_opt_string(&self.ref_hachage_bytes),
        }
    }
}

impl DeepView for DocGroupeUsager {
    type V = DocGroupeUsagerView;

    open spec fn deep_view(&self) -> DocGroupeUsagerView {
        self.view()
    }
}

/// Command payload asking to create or update an encrypted document.
#[derive(Debug, PartialEq)]
pub struct TransactionSauvegarderDocument {
    pub doc_id: Option<String>,
    pub groupe_id: String,
    pub categorie_version: i32,
    pub data_chiffre: String,
    pub cle_id: Option<String>,
    pub format: FormatChiffrage,
    pub nonce: Option<String>,
    pub compression: Option<String>,
    // Legacy encryption reference, kept for rows written before key ids.
    pub header: Option<String>,
}

/// Mathematical view of [`TransactionSauvegarderDocument`].
#[verifier::ext_equal]
pub struct TransactionSauvegarderDocumentView {
    pub doc_id: Option<Seq<char>>,
    pub groupe_id: Seq<char>,
    pub categorie_version: i32,
    pub data_chiffre: Seq<char>,
    pub cle_id: Option<Seq<char>>,
    pub format: FormatChiffrage,
    pub nonce: Option<Seq<char>>,
    pub compression: Option<Seq<char>>,
    pub header: Option<Seq<char>>,
}

impl View for TransactionSauvegarderDocument {
    type V = TransactionSauvegarderDocumentView;

    open spec fn view(&self) -> TransactionSauvegarderDocumentView {
        TransactionSauvegarderDocumentView {
            doc_id: view_opt_string(&self.doc_id),
            groupe_id: self.groupe_id@,
            categorie_version: self.categorie_version,
            data_chiffre: self.data_chiffre@,
            cle_id: view_opt_string(&self.cle_id),
            format: self.format,
            nonce: view_opt_string(&self.nonce),
            compression: view_opt_string(&self.compression),
            header: view_opt_string(&self.header),
        }
    }
}

/// Stored row of an encrypted document, one per `(user_id, doc_id)`.
#[derive(Debug, PartialEq)]
pub struct DocDocument {
    pub doc_id: String,
    pub groupe_id: String,
    pub categorie_version: i32,
    pub data_chiffre: String,
    pub supprime: Option<bool>,
    pub supprime_date: Option<i64>,
    pub cle_id: Option<String>,
    pub format: FormatChiffrage,
    pub nonce: Option<String>,
    pub compression: Option<String>,
    // Legacy encryption reference, kept for rows written before key ids.
    pub header: Option<String>,
}

/// Mathematical view of [`DocDocument`].
#[verifier::ext_equal]
pub struct DocDocumentView {
    pub doc_id: Seq<char>,
    pub groupe_id: Seq<char>,
    pub categorie_version: i32,
    pub data_chiffre: Seq<char>,
    pub supprime: Option<bool>,
    pub supprime_date: Option<i64>,
    pub cle_id: Option<Seq<char>>,
    pub format: FormatChiffrage,
    pub nonce: Option<Seq<char>>,
    pub compression: Option<Seq<char>>,
    pub header: Option<Seq<char>>,
}

impl View for DocDocument {
    type V = DocDocumentView;

    open spec fn view(&self) -> DocDocumentView {
        DocDocumentView {
            doc_id: self.doc_id@,
            groupe_id: self.groupe_id@,
            categorie_version: self.categorie_version,
            data_chiffre: self.data_chiffre@,
            supprime: self.supprime,
            supprime_date: self.supprime_date,
            cle_id: view_opt_string(&self.cle_id),
            format: self.format,
            nonce: view_opt_string(&self.nonce),
            compression: view_opt_string(&self.compression),
            header: view_opt_string(&self.header),
        }
    }
}

impl DeepView for DocDocument {
    type V = DocDocumentView;

    open spec fn deep_view(&self) -> DocDocumentView {
        self.view()
    }
}

/// Command payload asking to soft-delete or restore a document.
#[derive(Debug, PartialEq)]
pub struct TransactionSupprimerDocument {
    pub doc_id: String,
}

/// Command payload asking to soft-delete or restore a group.
#[derive(Debug, PartialEq)]
pub struct TransactionSupprimerGroupe {
    pub groupe_id: String,
}

/// Whether a string equals a literal action name.
pub fn chaine_egale(a: &String, b: &str) -> (r: bool)
    ensures
        r == (a@ == b@),
{
    a.eq(&b.to_owned())
}

/// Clones an optional string, preserving its view.
pub fn cloner_option_string(s: &Option<String>) -> (res: Option<String>)
    ensures
        view_opt_string(&res) == view_opt_string(s),
{
    match s {
        Some(inner) => Some(inner.clone()),
        None => None,
    }
}

/// Clones a schema field list, preserving its view.
pub fn cloner_champs(champs: &Vec<ChampCategorie>) -> (res: Vec<ChampCategorie>)
    ensures
        res.deep_view() == champs.deep_view(),
{
    let mut res: Vec<ChampCategorie> = Vec::new();
    let mut i: usize = 0;
    while i < champs.len()
        invariant
            i <= champs.len(),
            res@.len() == i,
            forall|j: int| 0 <= j < i ==> res@[j]@ == champs@[j]@,
        decreases champs.len() - i,
    {
        let c = champs[i].clone();
        res.push(c);
        i = i + 1;
    }
    assert(res.deep_view() =~= champs.deep_view());
    res
}

impl Clone for ChampCategorie {
    /// Clones preserve the mathematical view.
    fn clone(&self) -> (res: Self)
        ensures
            res@ == self@,
    {
        ChampCategorie {
            nom_champ: self.nom_champ.clone(),
            code_interne: self.code_interne.clone(),
            type_champ: self.type_champ.clone(),
            taille_maximum: self.taille_maximum,
            requis: self.requis,
        }
    }
}

impl Clone for TransactionSauvegarderCategorieUsager {
    /// Clones preserve the mathematical view.
    fn clone(&self) -> (res: Self)
        ensures
            res@ == self@,
    {
        TransactionSauvegarderCategorieUsager {
            categorie_id: cloner_option_string(&self.categorie_id),
            version: self.version,
            nom_categorie: self.nom_categorie.clone(),
            champs: cloner_champs(&self.champs),
        }
    }
}

impl Clone for DocCategorieUsager {
    /// Clones preserve the mathematical view.
    fn clone(&self) -> (res: Self)
        ensures
            res@ == self@,
    {
        DocCategorieUsager {
            user_id: self.user_id.clone(),
            categorie_id: self.categorie_id.clone(),
            version: self.version,
            nom_categorie: self.nom_categorie.clone(),
            champs: cloner_champs(&self.champs),
        }
    }
}

impl Clone for TransactionSauvegarderGroupeUsager {
    /// Clones preserve the mathematical view.
    fn clone(&self) -> (res: Self)
        ensures
            res@ == self@,
    {
        TransactionSauvegarderGroupeUsager {
            groupe_id: cloner_option_string(&self.groupe_id),
            categorie_id: self.categorie_id.clone(),
            data_chiffre: self.data_chiffre.clone(),
            cle_id: cloner_option_string(&self.cle_id),
            format: self.format,
            nonce: cloner_option_string(&self.nonce),
            header: cloner_option_string(&self.header),
            ref_hachage_bytes: cloner_option_string(&self.ref_hachage_bytes),
        }
    }
}

impl Clone for DocGroupeUsager {
    /// Clones preserve the mathematical view.
    fn clone(&self) -> (res: Self)
        ensures
            res@ == self@,
    {
        DocGroupeUsager {
            groupe_id: self.groupe_id.clone(),
            categorie_id: self.categorie_id.clone(),
            data_chiffre: self.data_chiffre.clone(),
            supprime: self.supprime,
            supprime_date: self.supprime_date,
            cle_id: cloner_option_string(&self.cle_id),
            format: self.format,
            nonce: cloner_option_string(&self.nonce),
            header: cloner_option_string(&self.header),
            ref_hachage_bytes: cloner_option_string(&self.ref_hachage_bytes),
        }
    }
}

impl Clone for TransactionSauvegarderDocument {
    /// Clones preserve the mathematical view.
    fn clone(&self) -> (res: Self)
        ensures
            res@ == self@,
    {
        TransactionSauvegarderDocument {
            doc_id: cloner_option_string(&self.doc_id),
            groupe_id: self.groupe_id.clone(),
            categorie_version: self.categorie_version,
            data_chiffre: self.data_chiffre.clone(),
            cle_id: cloner_option_string(&self.cle_id),
            format: self.format,
            nonce: cloner_option_string(&self.nonce),
            compression: cloner_option_string(&self.compression),
            header: cloner_option_string(&self.header),
        }
    }
}

impl Clone for DocDocument {
    /// Clones preserve the mathematical view.
    fn clone(&self) -> (res: Self)
        ensures
            res@ == self@,
    {
        DocDocument {
            doc_id: self.doc_id.clone(),
            groupe_id: self.groupe_id.clone(),
            categorie_version: self.categorie_version,
            data_chiffre: self.data_chiffre.clone(),
            supprime: self.supprime,
            supprime_date: self.supprime_date,
            cle_id: cloner_option_string(&self.cle_id),
            format: self.format,
            nonce: cloner_option_string(&self.nonce),
            compression: cloner_option_string(&self.compression),
            header: cloner_option_string(&self.header),
        }
    }
}

impl Clone for TransactionSupprimerDocument {
    /// Clones preserve the document id.
    fn clone(&self) -> (res: Self)
        ensures
            res.doc_id@ == self.doc_id@,
    {
        TransactionSupprimerDocument { doc_id: self.doc_id.clone() }
    }
}

impl Clone for TransactionSupprimerGroupe {
    /// Clones preserve the group id.
    fn clone(&self) -> (res: Self)
        ensures
            res.groupe_id@ == self.groupe_id@,
    {
        TransactionSupprimerGroupe { groupe_id: self.groupe_id.clone() }
    }
}

} // verus!
