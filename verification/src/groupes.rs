//! Group store.  One encrypted container per `(user_id, groupe_id)`, bound
//! immutably to a category once created, with a soft-delete lifecycle.
use vstd::prelude::*;

use crate::common::{
    DocGroupeUsager, DocGroupeUsagerView, TransactionSauvegarderGroupeUsager,
    TransactionSauvegarderGroupeUsagerView,
};
use crate::erreurs::ErreurDocuments;

verus! {

/// Stored group row together with its owner and last-modified stamp.
pub struct RangeeGroupe {
    pub user_id: String,
    pub groupe: DocGroupeUsager,
    pub modification: i64,
}

/// Mathematical view of [`RangeeGroupe`].
#[verifier::ext_equal]
pub struct RangeeGroupeView {
    pub user_id: Seq<char>,
    pub groupe: DocGroupeUsagerView,
    pub modification: i64,
}

impl View for RangeeGroupe {
    type V = RangeeGroupeView;

    open spec fn view(&self) -> RangeeGroupeView {
        RangeeGroupeView {
            user_id: self.user_id@,
            groupe: self.groupe@,
            modification: self.modification,
        }
    }
}

impl DeepView for RangeeGroupe {
    type V = RangeeGroupeView;

    open spec fn deep_view(&self) -> RangeeGroupeView {
        self.view()
    }
}

impl Clone for RangeeGroupe {
    /// Clones preserve the mathematical view.
    fn clone(&self) -> (res: Self)
        ensures
            res@ == self@,
    {
        RangeeGroupe {
            user_id: self.user_id.clone(),
            groupe: self.groupe.clone(),
            modification: self.modification,
        }
    }
}

/// Both rows target the same `(user_id, groupe_id)` key.
pub open spec fn meme_cle_groupe(r: RangeeGroupeView, user_id: Seq<char>, groupe_id: Seq<char>) -> bool {
    r.user_id == user_id && r.groupe.groupe_id == groupe_id
}

/// Some row carries this key.
pub open spec fn contient_groupe(
    rows: Seq<RangeeGroupeView>,
    user_id: Seq<char>,
    groupe_id: Seq<char>,
) -> bool {
    exists|i: int| 0 <= i < rows.len() && meme_cle_groupe(rows[i], user_id, groupe_id)
}

/// Index of the row carrying this key (meaningful only when one exists).
pub open spec fn idx_groupe(
    rows: Seq<RangeeGroupeView>,
    user_id: Seq<char>,
    groupe_id: Seq<char>,
) -> int {
    choose|i: int| 0 <= i < rows.len() && meme_cle_groupe(rows[i], user_id, groupe_id)
}

/// The table holds at most one row per `(user_id, groupe_id)`.
pub open spec fn cles_groupes_uniques(rows: Seq<RangeeGroupeView>) -> bool {
    forall|i: int, j: int|
        0 <= i < j < rows.len() ==> !meme_cle_groupe(
            rows[j],
            rows[i].user_id,
            rows[i].groupe.groupe_id,
        )
}

/// Group id recorded by a save: the one of the command, or the command's own
/// unique identifier when absent (first creation).
pub open spec fn spec_groupe_id(
    t: TransactionSauvegarderGroupeUsagerView,
    id_transaction: Seq<char>,
) -> Seq<char> {
    match t.groupe_id {
        Some(g) => g,
        None => id_transaction,
    }
}

/// Row written for a brand-new group.
pub open spec fn ligne_groupe_nouvelle(
    user_id: Seq<char>,
    groupe_id: Seq<char>,
    t: TransactionSauvegarderGroupeUsagerView,
    now: i64,
) -> RangeeGroupeView {
    RangeeGroupeView {
        user_id: user_id,
        groupe: DocGroupeUsagerView {
            groupe_id: groupe_id,
            categorie_id: t.categorie_id,
            data_chiffre: t.data_chiffre,
            supprime: None,
            supprime_date: None,
            cle_id: t.cle_id,
            format: t.format,
            nonce: t.nonce,
            header: t.header,
            ref_hachage_bytes: t.ref_hachage_bytes,
        },
        modification: now,
    }
}

/// Row written when an existing group is updated: the encrypted payload and
/// key material are replaced, while the category binding and the soft-delete
/// state are kept as stored.
pub open spec fn ligne_groupe_maj(
    ancienne: RangeeGroupeView,
    t: TransactionSauvegarderGroupeUsagerView,
    now: i64,
) -> RangeeGroupeView {
    RangeeGroupeView {
        user_id: ancienne.user_id,
        groupe: DocGroupeUsagerView {
            groupe_id: ancienne.groupe.groupe_id,
            categorie_id: ancienne.groupe.categorie_id,
            data_chiffre: t.data_chiffre,
            supprime: ancienne.groupe.supprime,
            supprime_date: ancienne.groupe.supprime_date,
            cle_id: t.cle_id,
            format: t.format,
            nonce: t.nonce,
            header: t.header,
            ref_hachage_bytes: t.ref_hachage_bytes,
        },
        modification: now,
    }
}

/// Encrypted groups of every owner.
pub struct CollectionGroupes {
    pub groupes: Vec<RangeeGroupe>,
}

impl CollectionGroupes {
    /// Well-formedness: the table is keyed uniquely.
    pub open spec fn inv(&self) -> bool {
        cles_groupes_uniques(self.groupes.deep_view())
    }

    /// An empty store.
    pub fn new() -> (r: CollectionGroupes)
        ensures
            r.inv(),
            r.groupes.deep_view() == Seq::<RangeeGroupeView>::empty(),
    {
        let r = CollectionGroupes { groupes: Vec::new() };
        assert(r.groupes.deep_view() =~= Seq::<RangeeGroupeView>::empty());
        r
    }

    /// Finds the row of `(user_id, groupe_id)`.
    pub fn chercher_groupe(&self, user_id: &String, groupe_id: &String) -> (r: Option<usize>)
        ensures
            match r {
                Some(i) => i < self.groupes.deep_view().len() && meme_cle_groupe(
                    self.groupes.deep_view()[i as int],
                    user_id@,
                    groupe_id@,
                ),
                None => !contient_groupe(self.groupes.deep_view(), user_id@, groupe_id@),
            },
    {
        let mut i: usize = 0;
        while i < self.groupes.len()
            invariant
                i <= self.groupes.len(),
                forall|k: int|
                    0 <= k < i ==> !meme_cle_groupe(
                        self.groupes.deep_view()[k],
                        user_id@,
                        groupe_id@,
                    ),
            decreases self.groupes.len() - i,
        {
            if self.groupes[i].user_id == *user_id && self.groupes[i].groupe.groupe_id
                == *groupe_id {
                assert(meme_cle_groupe(self.groupes.deep_view()[i as int], user_id@, groupe_id@));
                return Some(i);
            }
            i = i + 1;
        }
        None
    }

    /// Applies a group save: insert-or-update by `(user_id, groupe_id)`.
    /// The category binding of an existing group is never rewritten.
    /// Returns the recorded group id and the written row.
    pub fn transaction_sauvegarder_groupe_usager(
        &mut self,
        user_id: &String,
        id_transaction: &String,
        transaction: TransactionSauvegarderGroupeUsager,
        now: i64,
    ) -> (r: (String, DocGroupeUsager))
        requires
            old(self).inv(),
        ensures
            final(self).inv(),
            ({
                let gid = spec_groupe_id(transaction@, id_transaction@);
                let rows0 = old(self).groupes.deep_view();
                let ligne = if contient_groupe(rows0, user_id@, gid) {
                    ligne_groupe_maj(rows0[idx_groupe(rows0, user_id@, gid)], transaction@, now)
                } else {
                    ligne_groupe_nouvelle(user_id@, gid, transaction@, now)
                };
                &&& r.0@ == gid
                &&& r.1@ == ligne.groupe
                &&& final(self).groupes.deep_view() == (if contient_groupe(rows0, user_id@, gid) {
                    rows0.update(idx_groupe(rows0, user_id@, gid), ligne)
                } else {
                    rows0.push(ligne)
                })
            }),
    {
        let groupe_id: String = match transaction.groupe_id {
            Some(g) => g,
            None => id_transaction.clone(),
        };

        let ghost rows0 = self.groupes.deep_view();
        match self.chercher_groupe(user_id, &groupe_id) {
            Some(i) => {
                proof {
                    lemma_idx_groupe_unique(rows0, user_id@, groupe_id@, i as int);
                }
                let ancienne = &self.groupes[i];
                let ligne = RangeeGroupe {
                    user_id: ancienne.user_id.clone(),
                    groupe: DocGroupeUsager {
                        groupe_id: ancienne.groupe.groupe_id.clone(),
                        categorie_id: ancienne.groupe.categorie_id.clone(),
                        data_chiffre: transaction.data_chiffre,
                        supprime: ancienne.groupe.supprime,
                        supprime_date: ancienne.groupe.supprime_date,
                        cle_id: transaction.cle_id,
                        format: transaction.format,
                        nonce: transaction.nonce,
                        header: transaction.header,
                        ref_hachage_bytes: transaction.ref_hachage_bytes,
                    },
                    modification: now,
                };
                let document = ligne.groupe.clone();
                self.groupes.set(i, ligne);
                assert(self.groupes.deep_view() =~= rows0.update(
                    i as int,
                    ligne_groupe_maj(rows0[i as int], transaction@, now),
                ));
                proof {
                    lemma_update_conserve_cles_groupes(
                        rows0,
                        i as int,
                        ligne_groupe_maj(rows0[i as int], transaction@, now),
                    );
                }
                (groupe_id, document)
            },
            None => {
                let ligne = RangeeGroupe {
                    user_id: user_id.clone(),
                    groupe: DocGroupeUsager {
                        groupe_id: groupe_id.clone(),
                        categorie_id: transaction.categorie_id,
                        data_chiffre: transaction.data_chiffre,
                        supprime: None,
                        supprime_date: None,
                        cle_id: transaction.cle_id,
                        format: transaction.format,
                        nonce: transaction.nonce,
                        header: transaction.header,
                        ref_hachage_bytes: transaction.ref_hachage_bytes,
                    },
                    modification: now,
                };
                let document = ligne.groupe.clone();
                self.groupes.push(ligne);
                assert(self.groupes.deep_view() =~= rows0.push(
                    ligne_groupe_nouvelle(user_id@, groupe_id@, transaction@, now),
                ));
                proof {
                    lemma_push_conserve_cles_groupes(
                        rows0,
                        ligne_groupe_nouvelle(user_id@, groupe_id@, transaction@, now),
                    );
                }
                (groupe_id, document)
            },
        }
    }

    /// Flips the soft-delete flag of a group.  Fails with `GroupeInconnu`
    /// when no row matches, with `GroupeDejaSupprime` / `GroupeDejaRecupere`
    /// when the stored flag already equals the requested one; otherwise flips
    /// the flag, stamps or clears the deletion date, and stamps the
    /// modification date.
    pub fn transaction_supprimer_groupe(
        &mut self,
        user_id: &String,
        groupe_id: &String,
        supprime: bool,
        now: i64,
    ) -> (r: Result<(), ErreurDocuments>)
        requires
            old(self).inv(),
        ensures
            final(self).inv(),
            ({
                let rows0 = old(self).groupes.deep_view();
                if !contient_groupe(rows0, user_id@, groupe_id@) {
                    r == Err::<(), ErreurDocuments>(ErreurDocuments::GroupeInconnu)
                        && final(self).groupes.deep_view() == rows0
                } else {
                    let i = idx_groupe(rows0, user_id@, groupe_id@);
                    if (rows0[i].groupe.supprime == Some(true)) == supprime {
                        &&& r == Err::<(), ErreurDocuments>(
                            if supprime {
                                ErreurDocuments::GroupeDejaSupprime
                            } else {
                                ErreurDocuments::GroupeDejaRecupere
                            },
                        )
                        &&& final(self).groupes.deep_view() == rows0
                    } else {
                        &&& r is Ok
                        &&& final(self).groupes.deep_view() == rows0.update(
                            i,
                            ligne_groupe_supprimee(rows0[i], supprime, now),
                        )
                    }
                }
            }),
    {
        let ghost rows0 = self.groupes.deep_view();
        match self.chercher_groupe(user_id, groupe_id) {
            Some(i) => {
                proof {
                    lemma_idx_groupe_unique(rows0, user_id@, groupe_id@, i as int);
                }
                let ancienne = &self.groupes[i];
                let deja = match ancienne.groupe.supprime {
                    Some(true) => true,
                    _ => false,
                };
                if deja == supprime {
                    if supprime {
                        Err(ErreurDocuments::GroupeDejaSupprime)
                    } else {
                        Err(ErreurDocuments::GroupeDejaRecupere)
                    }
                } else {
                    let ligne = RangeeGroupe {
                        user_id: ancienne.user_id.clone(),
                        groupe: DocGroupeUsager {
                            groupe_id: ancienne.groupe.groupe_id.clone(),
                            categorie_id: ancienne.groupe.categorie_id.clone(),
                            data_chiffre: ancienne.groupe.data_chiffre.clone(),
                            supprime: Some(supprime),
                            supprime_date: if supprime {
                                Some(now)
                            } else {
                                None
                            },
                            cle_id: crate::common::cloner_option_string(&ancienne.groupe.cle_id),
                            format: ancienne.groupe.format,
                            nonce: crate::common::cloner_option_string(&ancienne.groupe.nonce),
                            header: crate::common::cloner_option_string(&ancienne.groupe.header),
                            ref_hachage_bytes: crate::common::cloner_option_string(
                                &ancienne.groupe.ref_hachage_bytes,
                            ),
                        },
                        modification: now,
                    };
                    self.groupes.set(i, ligne);
                    assert(self.groupes.deep_view() =~= rows0.update(
                        i as int,
                        ligne_groupe_supprimee(rows0[i as int], supprime, now),
                    ));
                    proof {
                        lemma_update_conserve_cles_groupes(
                            rows0,
                            i as int,
                            ligne_groupe_supprimee(rows0[i as int], supprime, now),
                        );
                    }
                    Ok(())
                }
            },
            None => Err(ErreurDocuments::GroupeInconnu),
        }
    }
}

/// Row written by a soft-delete or restore.
pub open spec fn ligne_groupe_supprimee(
    ancienne: RangeeGroupeView,
    supprime: bool,
    now: i64,
) -> RangeeGroupeView {
    RangeeGroupeView {
        user_id: ancienne.user_id,
        groupe: DocGroupeUsagerView {
            supprime: Some(supprime),
            supprime_date: if supprime {
                Some(now)
            } else {
                None
            },
            ..ancienne.groupe
        },
        modification: now,
    }
}

/// With unique keys, any matching index is the chosen one.
pub proof fn lemma_idx_groupe_unique(
    rows: Seq<RangeeGroupeView>,
    user_id: Seq<char>,
    groupe_id: Seq<char>,
    i: int,
)
    requires
        cles_groupes_uniques(rows),
        0 <= i < rows.len(),
        meme_cle_groupe(rows[i], user_id, groupe_id),
    ensures
        idx_groupe(rows, user_id, groupe_id) == i,
{
    let j = idx_groupe(rows, user_id, groupe_id);
    assert(0 <= j < rows.len() && meme_cle_groupe(rows[j], user_id, groupe_id));
    if i < j {
        assert(!meme_cle_groupe(rows[j], rows[i].user_id, rows[i].groupe.groupe_id));
    } else if j < i {
        assert(!meme_cle_groupe(rows[i], rows[j].user_id, rows[j].groupe.groupe_id));
    }
}

/// Replacing a row by one with the same key keeps the keys unique.
proof fn lemma_update_conserve_cles_groupes(
    rows: Seq<RangeeGroupeView>,
    i: int,
    ligne: RangeeGroupeView,
)
    requires
        cles_groupes_uniques(rows),
        0 <= i < rows.len(),
        ligne.user_id == rows[i].user_id,
        ligne.groupe.groupe_id == rows[i].groupe.groupe_id,
    ensures
        cles_groupes_uniques(rows.update(i, ligne)),
{
    let rows2 = rows.update(i, ligne);
    assert forall|a: int, b: int| 0 <= a < b < rows2.len() implies !meme_cle_groupe(
        rows2[b],
        rows2[a].user_id,
        rows2[a].groupe.groupe_id,
    ) by {
        assert(!meme_cle_groupe(rows[b], rows[a].user_id, rows[a].groupe.groupe_id));
    }
}

/// Appending a row with a fresh key keeps the keys unique.
proof fn lemma_push_conserve_cles_groupes(rows: Seq<RangeeGroupeView>, ligne: RangeeGroupeView)
    requires
        cles_groupes_uniques(rows),
        !contient_groupe(rows, ligne.user_id, ligne.groupe.groupe_id),
    ensures
        cles_groupes_uniques(rows.push(ligne)),
{
    let rows2 = rows.push(ligne);
    assert forall|a: int, b: int| 0 <= a < b < rows2.len() implies !meme_cle_groupe(
        rows2[b],
        rows2[a].user_id,
        rows2[a].groupe.groupe_id,
    ) by {
        if b == rows.len() {
            assert(rows2[b] == ligne);
            assert(rows2[a] == rows[a]);
            if meme_cle_groupe(ligne, rows[a].user_id, rows[a].groupe.groupe_id) {
                assert(meme_cle_groupe(rows[a], ligne.user_id, ligne.groupe.groupe_id));
            }
        } else {
            assert(rows2[a] == rows[a] && rows2[b] == rows[b]);
        }
    }
}

} // verus!
