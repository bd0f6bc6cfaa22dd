//! Versioned category store.  One *current* row per `(user_id, categorie_id)`
//! plus one *historical* row per `(user_id, categorie_id, version)`.
//!
//! A save replaces the current row only when it carries a strictly greater
//! version; otherwise the store is left unchanged and the save is rejected.
use vstd::prelude::*;

use crate::common::{
    DocCategorieUsager, DocCategorieUsagerView, TransactionSauvegarderCategorieUsager,
    TransactionSauvegarderCategorieUsagerView,
};
use crate::erreurs::ErreurDocuments;

verus! {

/// Both rows target the same current-table key.
pub open spec fn meme_cle_categorie(
    r: DocCategorieUsagerView,
    user_id: Seq<char>,
    categorie_id: Seq<char>,
) -> bool {
    r.user_id == user_id && r.categorie_id == categorie_id
}

/// Some row of the current table carries this key.
pub open spec fn contient_categorie(
    rows: Seq<DocCategorieUsagerView>,
    user_id: Seq<char>,
    categorie_id: Seq<char>,
) -> bool {
    exists|i: int| 0 <= i < rows.len() && meme_cle_categorie(rows[i], user_id, categorie_id)
}

/// Index of the row carrying this key (meaningful only when one exists).
pub open spec fn idx_categorie(
    rows: Seq<DocCategorieUsagerView>,
    user_id: Seq<char>,
    categorie_id: Seq<char>,
) -> int {
    choose|i: int| 0 <= i < rows.len() && meme_cle_categorie(rows[i], user_id, categorie_id)
}

/// Both rows target the same history-table key.
pub open spec fn meme_cle_version(
    r: DocCategorieUsagerView,
    user_id: Seq<char>,
    categorie_id: Seq<char>,
    version: usize,
) -> bool {
    r.user_id == user_id && r.categorie_id == categorie_id && r.version == version
}

/// Some row of the history table carries this key.
pub open spec fn contient_version(
    rows: Seq<DocCategorieUsagerView>,
    user_id: Seq<char>,
    categorie_id: Seq<char>,
    version: usize,
) -> bool {
    exists|i: int|
        0 <= i < rows.len() && meme_cle_version(rows[i], user_id, categorie_id, version)
}

/// Index of the history row carrying this key (meaningful only when one exists).
pub open spec fn idx_version(
    rows: Seq<DocCategorieUsagerView>,
    user_id: Seq<char>,
    categorie_id: Seq<char>,
    version: usize,
) -> int {
    choose|i: int|
        0 <= i < rows.len() && meme_cle_version(rows[i], user_id, categorie_id, version)
}

/// The current table holds at most one row per `(user_id, categorie_id)`.
pub open spec fn cles_categories_uniques(rows: Seq<DocCategorieUsagerView>) -> bool {
    forall|i: int, j: int|
        0 <= i < j < rows.len() ==> !meme_cle_categorie(
            rows[j],
            rows[i].user_id,
            rows[i].categorie_id,
        )
}

/// The history table holds at most one row per `(user_id, categorie_id, version)`.
pub open spec fn cles_versions_uniques(rows: Seq<DocCategorieUsagerView>) -> bool {
    forall|i: int, j: int|
        0 <= i < j < rows.len() ==> !meme_cle_version(
            rows[j],
            rows[i].user_id,
            rows[i].categorie_id,
            rows[i].version,
        )
}

/// Category id recorded by a save: the one of the command, or the command's
/// own unique identifier when absent (first creation).
pub open spec fn spec_categorie_id(
    t: TransactionSauvegarderCategorieUsagerView,
    id_transaction: Seq<char>,
) -> Seq<char> {
    match t.categorie_id {
        Some(c) => c,
        None => id_transaction,
    }
}

/// Version recorded by a save: the one of the command, or 1 when absent.
pub open spec fn spec_version_categorie(t: TransactionSauvegarderCategorieUsagerView) -> usize {
    match t.version {
        Some(v) => v,
        None => 1,
    }
}

/// Row written by an accepted save.
pub open spec fn ligne_categorie(
    user_id: Seq<char>,
    categorie_id: Seq<char>,
    t: TransactionSauvegarderCategorieUsagerView,
) -> DocCategorieUsagerView {
    DocCategorieUsagerView {
        user_id: user_id,
        categorie_id: categorie_id,
        version: spec_version_categorie(t),
        nom_categorie: t.nom_categorie,
        champs: t.champs,
    }
}

/// An accepted save: no current row yet, or a strictly smaller stored version.
pub open spec fn sauvegarde_categorie_acceptee(
    rows: Seq<DocCategorieUsagerView>,
    user_id: Seq<char>,
    categorie_id: Seq<char>,
    version: usize,
) -> bool {
    contient_categorie(rows, user_id, categorie_id) ==> rows[idx_categorie(
        rows,
        user_id,
        categorie_id,
    )].version < version
}

/// Current and historical category rows of every owner.
pub struct CollectionCategories {
    /// Current table: one row per `(user_id, categorie_id)`.
    pub courantes: Vec<DocCategorieUsager>,
    /// History table: one row per `(user_id, categorie_id, version)`.
    pub versions: Vec<DocCategorieUsager>,
}

impl CollectionCategories {
    /// Well-formedness: both tables are keyed uniquely.
    pub open spec fn inv(&self) -> bool {
        cles_categories_uniques(self.courantes.deep_view()) && cles_versions_uniques(
            self.versions.deep_view(),
        )
    }

    /// An empty store.
    pub fn new() -> (r: CollectionCategories)
        ensures
            r.inv(),
            r.courantes.deep_view() == Seq::<DocCategorieUsagerView>::empty(),
            r.versions.deep_view() == Seq::<DocCategorieUsagerView>::empty(),
    {
        let r = CollectionCategories { courantes: Vec::new(), versions: Vec::new() };
        assert(r.courantes.deep_view() =~= Seq::<DocCategorieUsagerView>::empty());
        assert(r.versions.deep_view() =~= Seq::<DocCategorieUsagerView>::empty());
        r
    }

    /// Finds the current row of `(user_id, categorie_id)`.
    fn chercher_courante(&self, user_id: &String, categorie_id: &String) -> (r: Option<usize>)
        ensures
            match r {
                Some(i) => i < self.courantes.deep_view().len() && meme_cle_categorie(
                    self.courantes.deep_view()[i as int],
                    user_id@,
                    categorie_id@,
                ),
                None => !contient_categorie(self.courantes.deep_view(), user_id@, categorie_id@),
            },
    {
        let mut i: usize = 0;
        while i < self.courantes.len()
            invariant
                i <= self.courantes.len(),
                forall|k: int|
                    0 <= k < i ==> !meme_cle_categorie(
                        self.courantes.deep_view()[k],
                        user_id@,
                        categorie_id@,
                    ),
            decreases self.courantes.len() - i,
        {
            if self.courantes[i].user_id == *user_id && self.courantes[i].categorie_id
                == *categorie_id {
                assert(meme_cle_categorie(
                    self.courantes.deep_view()[i as int],
                    user_id@,
                    categorie_id@,
                ));
                return Some(i);
            }
            i = i + 1;
        }
        None
    }

    /// Finds the history row of `(user_id, categorie_id, version)`.
    fn chercher_version(&self, user_id: &String, categorie_id: &String, version: usize) -> (r:
        Option<usize>)
        ensures
            match r {
                Some(i) => i < self.versions.deep_view().len() && meme_cle_version(
                    self.versions.deep_view()[i as int],
                    user_id@,
                    categorie_id@,
                    version,
                ),
                None => !contient_version(
                    self.versions.deep_view(),
                    user_id@,
                    categorie_id@,
                    version,
                ),
            },
    {
        let mut i: usize = 0;
        while i < self.versions.len()
            invariant
                i <= self.versions.len(),
                forall|k: int|
                    0 <= k < i ==> !meme_cle_version(
                        self.versions.deep_view()[k],
                        user_id@,
                        categorie_id@,
                        version,
                    ),
            decreases self.versions.len() - i,
        {
            if self.versions[i].user_id == *user_id && self.versions[i].categorie_id
                == *categorie_id && self.versions[i].version == version {
                assert(meme_cle_version(
                    self.versions.deep_view()[i as int],
                    user_id@,
                    categorie_id@,
                    version,
                ));
                return Some(i);
            }
            i = i + 1;
        }
        None
    }

    /// Applies a category save: replaces the current row when the version is
    /// strictly greater than the stored one (or when no row exists yet), and
    /// upserts the matching history row.  Returns the recorded category id
    /// and the written row; a stale version leaves the store unchanged.
    ///
    /// The two writes are independent: a crash between them in the real
    /// storage engine is tolerated by readers, and this model applies them in
    /// the same order (current first, history second).
    pub fn transaction_sauvegarder_categorie_usager(
        &mut self,
        user_id: &String,
        id_transaction: &String,
        transaction: TransactionSauvegarderCategorieUsager,
    ) -> (r: Result<(String, DocCategorieUsager), ErreurDocuments>)
        requires
            old(self).inv(),
        ensures
            final(self).inv(),
            r is Ok <==> sauvegarde_categorie_acceptee(
                old(self).courantes.deep_view(),
                user_id@,
                spec_categorie_id(transaction@, id_transaction@),
                spec_version_categorie(transaction@),
            ),
            r is Err ==> {
                &&& r == Err::<(String, DocCategorieUsager), ErreurDocuments>(
                    ErreurDocuments::VersionExiste,
                )
                &&& final(self).courantes.deep_view() == old(self).courantes.deep_view()
                &&& final(self).versions.deep_view() == old(self).versions.deep_view()
            },
            r matches Ok(ok) ==> {
                let cid = spec_categorie_id(transaction@, id_transaction@);
                let ligne = ligne_categorie(user_id@, cid, transaction@);
                let courantes0 = old(self).courantes.deep_view();
                let versions0 = old(self).versions.deep_view();
                &&& ok.0@ == cid
                &&& ok.1@ == ligne
                &&& final(self).courantes.deep_view() == (if contient_categorie(
                    courantes0,
                    user_id@,
                    cid,
                ) {
                    courantes0.update(idx_categorie(courantes0, user_id@, cid), ligne)
                } else {
                    courantes0.push(ligne)
                })
                &&& final(self).versions.deep_view() == (if contient_version(
                    versions0,
                    user_id@,
                    cid,
                    ligne.version,
                ) {
                    versions0.update(idx_version(versions0, user_id@, cid, ligne.version), ligne)
                } else {
                    versions0.push(ligne)
                })
            },
    {
        let categorie_id: String = match transaction.categorie_id {
            Some(c) => c,
            None => id_transaction.clone(),
        };
        let version: usize = match transaction.version {
            Some(v) => v,
            None => 1,
        };

        let ligne = DocCategorieUsager {
            user_id: user_id.clone(),
            categorie_id: categorie_id.clone(),
            version: version,
            nom_categorie: transaction.nom_categorie,
            champs: transaction.champs,
        };

        // Current table: conditional replace, guarded by the version check.
        let ghost courantes0 = self.courantes.deep_view();
        match self.chercher_courante(user_id, &categorie_id) {
            Some(i) => {
                proof {
                    lemma_idx_categorie_unique(courantes0, user_id@, categorie_id@, i as int);
                }
                if self.courantes[i].version < version {
                    self.courantes.set(i, ligne.clone());
                    assert(self.courantes.deep_view() =~= courantes0.update(i as int, ligne@));
                    proof {
                        lemma_update_conserve_cles_categories(
                            courantes0,
                            i as int,
                            ligne@,
                        );
                    }
                } else {
                    return Err(ErreurDocuments::VersionExiste);
                }
            },
            None => {
                self.courantes.push(ligne.clone());
                assert(self.courantes.deep_view() =~= courantes0.push(ligne@));
                proof {
                    lemma_push_conserve_cles_categories(courantes0, ligne@);
                }
            },
        }

        // History table: upsert by (user_id, categorie_id, version).
        let ghost versions0 = self.versions.deep_view();
        match self.chercher_version(user_id, &categorie_id, version) {
            Some(j) => {
                proof {
                    lemma_idx_version_unique(versions0, user_id@, categorie_id@, version, j as int);
                }
                self.versions.set(j, ligne.clone());
                assert(self.versions.deep_view() =~= versions0.update(j as int, ligne@));
                proof {
                    lemma_update_conserve_cles_versions(versions0, j as int, ligne@);
                }
            },
            None => {
                self.versions.push(ligne.clone());
                assert(self.versions.deep_view() =~= versions0.push(ligne@));
                proof {
                    lemma_push_conserve_cles_versions(versions0, ligne@);
                }
            },
        }

        Ok((categorie_id, ligne))
    }
}

/// With unique keys, any matching index is the chosen one.
pub proof fn lemma_idx_categorie_unique(
    rows: Seq<DocCategorieUsagerView>,
    user_id: Seq<char>,
    categorie_id: Seq<char>,
    i: int,
)
    requires
        cles_categories_uniques(rows),
        0 <= i < rows.len(),
        meme_cle_categorie(rows[i], user_id, categorie_id),
    ensures
        idx_categorie(rows, user_id, categorie_id) == i,
{
    let j = idx_categorie(rows, user_id, categorie_id);
    assert(0 <= j < rows.len() && meme_cle_categorie(rows[j], user_id, categorie_id));
    if i < j {
        assert(!meme_cle_categorie(rows[j], rows[i].user_id, rows[i].categorie_id));
    } else if j < i {
        assert(!meme_cle_categorie(rows[i], rows[j].user_id, rows[j].categorie_id));
    }
}

/// With unique keys, any matching history index is the chosen one.
proof fn lemma_idx_version_unique(
    rows: Seq<DocCategorieUsagerView>,
    user_id: Seq<char>,
    categorie_id: Seq<char>,
    version: usize,
    i: int,
)
    requires
        cles_versions_uniques(rows),
        0 <= i < rows.len(),
        meme_cle_version(rows[i], user_id, categorie_id, version),
    ensures
        idx_version(rows, user_id, categorie_id, version) == i,
{
    let j = idx_version(rows, user_id, categorie_id, version);
    assert(0 <= j < rows.len() && meme_cle_version(rows[j], user_id, categorie_id, version));
    if i < j {
        assert(!meme_cle_version(rows[j], rows[i].user_id, rows[i].categorie_id, rows[i].version));
    } else if j < i {
        assert(!meme_cle_version(rows[i], rows[j].user_id, rows[j].categorie_id, rows[j].version));
    }
}

/// Replacing a row by one with the same key keeps the keys unique.
proof fn lemma_update_conserve_cles_categories(
    rows: Seq<DocCategorieUsagerView>,
    i: int,
    ligne: DocCategorieUsagerView,
)
    requires
        cles_categories_uniques(rows),
        0 <= i < rows.len(),
        ligne.user_id == rows[i].user_id,
        ligne.categorie_id == rows[i].categorie_id,
    ensures
        cles_categories_uniques(rows.update(i, ligne)),
{
    let rows2 = rows.update(i, ligne);
    assert forall|a: int, b: int| 0 <= a < b < rows2.len() implies !meme_cle_categorie(
        rows2[b],
        rows2[a].user_id,
        rows2[a].categorie_id,
    ) by {
        assert(!meme_cle_categorie(rows[b], rows[a].user_id, rows[a].categorie_id));
    }
}

/// Appending a row with a fresh key keeps the keys unique.
proof fn lemma_push_conserve_cles_categories(
    rows: Seq<DocCategorieUsagerView>,
    ligne: DocCategorieUsagerView,
)
    requires
        cles_categories_uniques(rows),
        !contient_categorie(rows, ligne.user_id, ligne.categorie_id),
    ensures
        cles_categories_uniques(rows.push(ligne)),
{
    let rows2 = rows.push(ligne);
    assert forall|i: int, j: int| 0 <= i < j < rows2.len() implies !meme_cle_categorie(
        rows2[j],
        rows2[i].user_id,
        rows2[i].categorie_id,
    ) by {
        if j == rows.len() {
            assert(rows2[j] == ligne);
            assert(rows2[i] == rows[i]);
            if meme_cle_categorie(ligne, rows[i].user_id, rows[i].categorie_id) {
                assert(meme_cle_categorie(rows[i], ligne.user_id, ligne.categorie_id));
            }
        } else {
            assert(rows2[i] == rows[i] && rows2[j] == rows[j]);
        }
    }
}

/// Replacing a history row by one with the same key keeps the keys unique.
proof fn lemma_update_conserve_cles_versions(
    rows: Seq<DocCategorieUsagerView>,
    i: int,
    ligne: DocCategorieUsagerView,
)
    requires
        cles_versions_uniques(rows),
        0 <= i < rows.len(),
        ligne.user_id == rows[i].user_id,
        ligne.categorie_id == rows[i].categorie_id,
        ligne.version == rows[i].version,
    ensures
        cles_versions_uniques(rows.update(i, ligne)),
{
    let rows2 = rows.update(i, ligne);
    assert forall|a: int, b: int| 0 <= a < b < rows2.len() implies !meme_cle_version(
        rows2[b],
        rows2[a].user_id,
        rows2[a].categorie_id,
        rows2[a].version,
    ) by {
        assert(!meme_cle_version(rows[b], rows[a].user_id, rows[a].categorie_id, rows[a].version));
    }
}

/// Appending a history row with a fresh key keeps the keys unique.
proof fn lemma_push_conserve_cles_versions(
    rows: Seq<DocCategorieUsagerView>,
    ligne: DocCategorieUsagerView,
)
    requires
        cles_versions_uniques(rows),
        !contient_version(rows, ligne.user_id, ligne.categorie_id, ligne.version),
    ensures
        cles_versions_uniques(rows.push(ligne)),
{
    let rows2 = rows.push(ligne);
    assert forall|i: int, j: int| 0 <= i < j < rows2.len() implies !meme_cle_version(
        rows2[j],
        rows2[i].user_id,
        rows2[i].categorie_id,
        rows2[i].version,
    ) by {
        if j == rows.len() {
            assert(rows2[j] == ligne);
            assert(rows2[i] == rows[i]);
            if meme_cle_version(ligne, rows[i].user_id, rows[i].categorie_id, rows[i].version) {
                assert(meme_cle_version(
                    rows[i],
                    ligne.user_id,
                    ligne.categorie_id,
                    ligne.version,
                ));
            }
        } else {
            assert(rows2[i] == rows[i] && rows2[j] == rows[j]);
        }
    }
}

} // verus!
