//! Document store.  One encrypted leaf record per `(user_id, doc_id)`, bound
//! immutably to a group, with a soft-delete lifecycle and a last-modified
//! stamp used by incremental sync.
use vstd::prelude::*;

use crate::common::{
    DocDocument, DocDocumentView, TransactionSauvegarderDocument,
    TransactionSauvegarderDocumentView,
};
use crate::erreurs::ErreurDocuments;

verus! {

/// Stored document row together with its owner and last-modified stamp.
pub struct RangeeDocument {
    pub user_id: String,
    pub document: DocDocument,
    pub modification: i64,
}

/// Mathematical view of [`RangeeDocument`].
#[verifier::ext_equal]
pub struct RangeeDocumentView {
    pub user_id: Seq<char>,
    pub document: DocDocumentView,
    pub modification: i64,
}

impl View for RangeeDocument {
    type V = RangeeDocumentView;

    open spec fn view(&self) -> RangeeDocumentView {
        RangeeDocumentView {
            user_id: self.user_id@,
            document: self.document@,
            modification: self.modification,
        }
    }
}

impl DeepView for RangeeDocument {
    type V = RangeeDocumentView;

    open spec fn deep_view(&self) -> RangeeDocumentView {
        self.view()
    }
}

impl Clone for RangeeDocument {
    /// Clones preserve the mathematical view.
    fn clone(&self) -> (res: Self)
        ensures
            res@ == self@,
    {
        RangeeDocument {
            user_id: self.user_id.clone(),
            document: self.document.clone(),
            modification: self.modification,
        }
    }
}

/// Both rows target the same `(user_id, doc_id)` key.
pub open spec fn meme_cle_document(r: RangeeDocumentView, user_id: Seq<char>, doc_id: Seq<char>) -> bool {
    r.user_id == user_id && r.document.doc_id == doc_id
}

/// Some row carries this key.
pub open spec fn contient_document(
    rows: Seq<RangeeDocumentView>,
    user_id: Seq<char>,
    doc_id: Seq<char>,
) -> bool {
    exists|i: int| 0 <= i < rows.len() && meme_cle_document(rows[i], user_id, doc_id)
}

/// Index of the row carrying this key (meaningful only when one exists).
pub open spec fn idx_document(
    rows: Seq<RangeeDocumentView>,
    user_id: Seq<char>,
    doc_id: Seq<char>,
) -> int {
    choose|i: int| 0 <= i < rows.len() && meme_cle_document(rows[i], user_id, doc_id)
}

/// The table holds at most one row per `(user_id, doc_id)`.
pub open spec fn cles_documents_uniques(rows: Seq<RangeeDocumentView>) -> bool {
    forall|i: int, j: int|
        0 <= i < j < rows.len() ==> !meme_cle_document(
            rows[j],
            rows[i].user_id,
            rows[i].document.doc_id,
        )
}

/// Document id recorded by a save: the one of the command, or the command's
/// own unique identifier when absent (first creation).
pub open spec fn spec_doc_id(
    t: TransactionSauvegarderDocumentView,
    id_transaction: Seq<char>,
) -> Seq<char> {
    match t.doc_id {
        Some(d) => d,
        None => id_transaction,
    }
}

/// Row written for a brand-new document.
pub open spec fn ligne_document_nouvelle(
    user_id: Seq<char>,
    doc_id: Seq<char>,
    t: TransactionSauvegarderDocumentView,
    now: i64,
) -> RangeeDocumentView {
    RangeeDocumentView {
        user_id: user_id,
        document: DocDocumentView {
            doc_id: doc_id,
            groupe_id: t.groupe_id,
            categorie_version: t.categorie_version,
            data_chiffre: t.data_chiffre,
            supprime: None,
            supprime_date: None,
            cle_id: t.cle_id,
            format: t.format,
            nonce: t.nonce,
            compression: t.compression,
            header: t.header,
        },
        modification: now,
    }
}

/// Row written when an existing document is updated: the encrypted payload,
/// schema version and key material are replaced, while the group binding and
/// the soft-delete state are kept as stored.
pub open spec fn ligne_document_maj(
    ancienne: RangeeDocumentView,
    t: TransactionSauvegarderDocumentView,
    now: i64,
) -> RangeeDocumentView {
    RangeeDocumentView {
        user_id: ancienne.user_id,
        document: DocDocumentView {
            doc_id: ancienne.document.doc_id,
            groupe_id: ancienne.document.groupe_id,
            categorie_version: t.categorie_version,
            data_chiffre: t.data_chiffre,
            supprime: ancienne.document.supprime,
            supprime_date: ancienne.document.supprime_date,
            cle_id: t.cle_id,
            format: t.format,
            nonce: t.nonce,
            compression: t.compression,
            header: t.header,
        },
        modification: now,
    }
}

/// Row written by a soft-delete or restore.
pub open spec fn ligne_document_supprimee(
    ancienne: RangeeDocumentView,
    supprime: bool,
    now: i64,
) -> RangeeDocumentView {
    RangeeDocumentView {
        user_id: ancienne.user_id,
        document: DocDocumentView {
            supprime: Some(supprime),
            supprime_date: if supprime {
                Some(now)
            } else {
                None
            },
            ..ancienne.document
        },
        modification: now,
    }
}

/// Encrypted documents of every owner.
pub struct CollectionDocuments {
    pub documents: Vec<RangeeDocument>,
}

impl CollectionDocuments {
    /// Well-formedness: the table is keyed uniquely.
    pub open spec fn inv(&self) -> bool {
        cles_documents_uniques(self.documents.deep_view())
    }

    /// An empty store.
    pub fn new() -> (r: CollectionDocuments)
        ensures
            r.inv(),
            r.documents.deep_view() == Seq::<RangeeDocumentView>::empty(),
    {
        let r = CollectionDocuments { documents: Vec::new() };
        assert(r.documents.deep_view() =~= Seq::<RangeeDocumentView>::empty());
        r
    }

    /// Finds the row of `(user_id, doc_id)`.
    pub fn chercher_document(&self, user_id: &String, doc_id: &String) -> (r: Option<usize>)
        ensures
            match r {
                Some(i) => i < self.documents.deep_view().len() && meme_cle_document(
                    self.documents.deep_view()[i as int],
                    user_id@,
                    doc_id@,
                ),
                None => !contient_document(self.documents.deep_view(), user_id@, doc_id@),
            },
    {
        let mut i: usize = 0;
        while i < self.documents.len()
            invariant
                i <= self.documents.len(),
                forall|k: int|
                    0 <= k < i ==> !meme_cle_document(
                        self.documents.deep_view()[k],
                        user_id@,
                        doc_id@,
                    ),
            decreases self.documents.len() - i,
        {
            if self.documents[i].user_id == *user_id && self.documents[i].document.doc_id
                == *doc_id {
                assert(meme_cle_document(self.documents.deep_view()[i as int], user_id@, doc_id@));
                return Some(i);
            }
            i = i + 1;
        }
        None
    }

    /// Applies a document save: insert-or-update by `(user_id, doc_id)`.
    /// The group binding of an existing document is never rewritten.
    /// Returns the recorded document id and the written row.
    pub fn transaction_sauvegarder_document(
        &mut self,
        user_id: &String,
        id_transaction: &String,
        transaction: TransactionSauvegarderDocument,
        now: i64,
    ) -> (r: (String, DocDocument))
        requires
            old(self).inv(),
        ensures
            final(self).inv(),
            ({
                let did = spec_doc_id(transaction@, id_transaction@);
                let rows0 = old(self).documents.deep_view();
                let ligne = if contient_document(rows0, user_id@, did) {
                    ligne_document_maj(rows0[idx_document(rows0, user_id@, did)], transaction@, now)
                } else {
                    ligne_document_nouvelle(user_id@, did, transaction@, now)
                };
                &&& r.0@ == did
                &&& r.1@ == ligne.document
                &&& final(self).documents.deep_view() == (if contient_document(
                    rows0,
                    user_id@,
                    did,
                ) {
                    rows0.update(idx_document(rows0, user_id@, did), ligne)
                } else {
                    rows0.push(ligne)
                })
            }),
    {
        let doc_id: String = match transaction.doc_id {
            Some(d) => d,
            None => id_transaction.clone(),
        };

        let ghost rows0 = self.documents.deep_view();
        match self.chercher_document(user_id, &doc_id) {
            Some(i) => {
                proof {
                    lemma_idx_document_unique(rows0, user_id@, doc_id@, i as int);
                }
                let ancienne = &self.documents[i];
                let ligne = RangeeDocument {
                    user_id: ancienne.user_id.clone(),
                    document: DocDocument {
                        doc_id: ancienne.document.doc_id.clone(),
                        groupe_id: ancienne.document.groupe_id.clone(),
                        categorie_version: transaction.categorie_version,
                        data_chiffre: transaction.data_chiffre,
                        supprime: ancienne.document.supprime,
                        supprime_date: ancienne.document.supprime_date,
                        cle_id: transaction.cle_id,
                        format: transaction.format,
                        nonce: transaction.nonce,
                        compression: transaction.compression,
                        header: transaction.header,
                    },
                    modification: now,
                };
                let document = ligne.document.clone();
                self.documents.set(i, ligne);
                assert(self.documents.deep_view() =~= rows0.update(
                    i as int,
                    ligne_document_maj(rows0[i as int], transaction@, now),
                ));
                proof {
                    lemma_update_conserve_cles_documents(
                        rows0,
                        i as int,
                        ligne_document_maj(rows0[i as int], transaction@, now),
                    );
                }
                (doc_id, document)
            },
            None => {
                let ligne = RangeeDocument {
                    user_id: user_id.clone(),
                    document: DocDocument {
                        doc_id: doc_id.clone(),
                        groupe_id: transaction.groupe_id,
                        categorie_version: transaction.categorie_version,
                        data_chiffre: transaction.data_chiffre,
                        supprime: None,
                        supprime_date: None,
                        cle_id: transaction.cle_id,
                        format: transaction.format,
                        nonce: transaction.nonce,
                        compression: transaction.compression,
                        header: transaction.header,
                    },
                    modification: now,
                };
                let document = ligne.document.clone();
                self.documents.push(ligne);
                assert(self.documents.deep_view() =~= rows0.push(
                    ligne_document_nouvelle(user_id@, doc_id@, transaction@, now),
                ));
                proof {
                    lemma_push_conserve_cles_documents(
                        rows0,
                        ligne_document_nouvelle(user_id@, doc_id@, transaction@, now),
                    );
                }
                (doc_id, document)
            },
        }
    }

    /// Flips the soft-delete flag of a document.  Fails with
    /// `DocumentInconnu` when no row matches, with `DocumentDejaSupprime` /
    /// `DocumentDejaRecupere` when the stored flag already equals the
    /// requested one; otherwise flips the flag, stamps or clears the deletion
    /// date, and stamps the modification date.  Returns the group id of the
    /// affected document (used to partition the change event).
    pub fn transaction_supprimer_document(
        &mut self,
        user_id: &String,
        doc_id: &String,
        supprime: bool,
        now: i64,
    ) -> (r: Result<String, ErreurDocuments>)
        requires
            old(self).inv(),
        ensures
            final(self).inv(),
            ({
                let rows0 = old(self).documents.deep_view();
                if !contient_document(rows0, user_id@, doc_id@) {
                    r == Err::<String, ErreurDocuments>(ErreurDocuments::DocumentInconnu)
                        && final(self).documents.deep_view() == rows0
                } else {
                    let i = idx_document(rows0, user_id@, doc_id@);
                    if (rows0[i].document.supprime == Some(true)) == supprime {
                        &&& r == Err::<String, ErreurDocuments>(
                            if supprime {
                                ErreurDocuments::DocumentDejaSupprime
                            } else {
                                ErreurDocuments::DocumentDejaRecupere
                            },
                        )
                        &&& final(self).documents.deep_view() == rows0
                    } else {
                        &&& r matches Ok(gid) && gid@ == rows0[i].document.groupe_id
                        &&& final(self).documents.deep_view() == rows0.update(
                            i,
                            ligne_document_supprimee(rows0[i], supprime, now),
                        )
                    }
                }
            }),
    {
        let ghost rows0 = self.documents.deep_view();
        match self.chercher_document(user_id, doc_id) {
            Some(i) => {
                proof {
                    lemma_idx_document_unique(rows0, user_id@, doc_id@, i as int);
                }
                let ancienne = &self.documents[i];
                let deja = match ancienne.document.supprime {
                    Some(true) => true,
                    _ => false,
                };
                if deja == supprime {
                    if supprime {
                        Err(ErreurDocuments::DocumentDejaSupprime)
                    } else {
                        Err(ErreurDocuments::DocumentDejaRecupere)
                    }
                } else {
                    let groupe_id = ancienne.document.groupe_id.clone();
                    let ligne = RangeeDocument {
                        user_id: ancienne.user_id.clone(),
                        document: DocDocument {
                            doc_id: ancienne.document.doc_id.clone(),
                            groupe_id: ancienne.document.groupe_id.clone(),
                            categorie_version: ancienne.document.categorie_version,
                            data_chiffre: ancienne.document.data_chiffre.clone(),
                            supprime: Some(supprime),
                            supprime_date: if supprime {
                                Some(now)
                            } else {
                                None
                            },
                            cle_id: crate::common::cloner_option_string(&ancienne.document.cle_id),
                            format: ancienne.document.format,
                            nonce: crate::common::cloner_option_string(&ancienne.document.nonce),
                            compression: crate::common::cloner_option_string(
                                &ancienne.document.compression,
                            ),
                            header: crate::common::cloner_option_string(&ancienne.document.header),
                        },
                        modification: now,
                    };
                    self.documents.set(i, ligne);
                    assert(self.documents.deep_view() =~= rows0.update(
                        i as int,
                        ligne_document_supprimee(rows0[i as int], supprime, now),
                    ));
                    proof {
                        lemma_update_conserve_cles_documents(
                            rows0,
                            i as int,
                            ligne_document_supprimee(rows0[i as int], supprime, now),
                        );
                    }
                    Ok(groupe_id)
                }
            },
            None => Err(ErreurDocuments::DocumentInconnu),
        }
    }
}

/// With unique keys, any matching index is the chosen one.
pub proof fn lemma_idx_document_unique(
    rows: Seq<RangeeDocumentView>,
    user_id: Seq<char>,
    doc_id: Seq<char>,
    i: int,
)
    requires
        cles_documents_uniques(rows),
        0 <= i < rows.len(),
        meme_cle_document(rows[i], user_id, doc_id),
    ensures
        idx_document(rows, user_id, doc_id) == i,
{
    let j = idx_document(rows, user_id, doc_id);
    assert(0 <= j < rows.len() && meme_cle_document(rows[j], user_id, doc_id));
    if i < j {
        assert(!meme_cle_document(rows[j], rows[i].user_id, rows[i].document.doc_id));
    } else if j < i {
        assert(!meme_cle_document(rows[i], rows[j].user_id, rows[j].document.doc_id));
    }
}

/// Replacing a row by one with the same key keeps the keys unique.
proof fn lemma_update_conserve_cles_documents(
    rows: Seq<RangeeDocumentView>,
    i: int,
    ligne: RangeeDocumentView,
)
    requires
        cles_documents_uniques(rows),
        0 <= i < rows.len(),
        ligne.user_id == rows[i].user_id,
        ligne.document.doc_id == rows[i].document.doc_id,
    ensures
        cles_documents_uniques(rows.update(i, ligne)),
{
    let rows2 = rows.update(i, ligne);
    assert forall|a: int, b: int| 0 <= a < b < rows2.len() implies !meme_cle_document(
        rows2[b],
        rows2[a].user_id,
        rows2[a].document.doc_id,
    ) by {
        assert(!meme_cle_document(rows[b], rows[a].user_id, rows[a].document.doc_id));
    }
}

/// Appending a row with a fresh key keeps the keys unique.
proof fn lemma_push_conserve_cles_documents(rows: Seq<RangeeDocumentView>, ligne: RangeeDocumentView)
    requires
        cles_documents_uniques(rows),
        !contient_document(rows, ligne.user_id, ligne.document.doc_id),
    ensures
        cles_documents_uniques(rows.push(ligne)),
{
    let rows2 = rows.push(ligne);
    assert forall|a: int, b: int| 0 <= a < b < rows2.len() implies !meme_cle_document(
        rows2[b],
        rows2[a].user_id,
        rows2[a].document.doc_id,
    ) by {
        if b == rows.len() {
            assert(rows2[b] == ligne);
            assert(rows2[a] == rows[a]);
            if meme_cle_document(ligne, rows[a].user_id, rows[a].document.doc_id) {
                assert(meme_cle_document(rows[a], ligne.user_id, ligne.document.doc_id));
            }
        } else {
            assert(rows2[a] == rows[a] && rows2[b] == rows[b]);
        }
    }
}

} // verus!
