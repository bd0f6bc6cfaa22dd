//! Laws of the domain, stated once over the store models and proved here:
//! version monotonicity of category saves, immutability of a group's
//! category binding, the tombstone toggle cycle, incremental sync, and the
//! shape of streamed listings.
use vstd::prelude::*;

use crate::categories::{
    cles_categories_uniques, contient_categorie, idx_categorie, ligne_categorie,
    lemma_idx_categorie_unique, sauvegarde_categorie_acceptee, spec_version_categorie,
};
use crate::common::{
    DocCategorieUsagerView, DocDocumentView, TransactionSauvegarderCategorieUsagerView,
    TransactionSauvegarderGroupeUsagerView,
};
use crate::documents::{
    cles_documents_uniques, contient_document, idx_document, lemma_idx_document_unique,
    ligne_document_supprimee, RangeeDocumentView,
};
use crate::groupes::{
    cles_groupes_uniques, contient_groupe, idx_groupe, lemma_idx_groupe_unique, ligne_groupe_maj,
    ligne_groupe_supprimee, RangeeGroupeView,
};
use crate::requetes::{
    documents_filtres, document_vise, etape_lots, plier_lots, CONST_STREAMING_BATCH_LEN,
};

verus! {

/// A category save is refused whenever the stored current version is at or
/// above the saved one, so the refusal (which leaves the store unchanged by
/// the save operation's contract) is exactly the stale-version case.
pub proof fn loi_version_refusee(
    rows: Seq<DocCategorieUsagerView>,
    user_id: Seq<char>,
    categorie_id: Seq<char>,
    i: int,
    version: usize,
)
    requires
        cles_categories_uniques(rows),
        0 <= i < rows.len(),
        rows[i].user_id == user_id,
        rows[i].categorie_id == categorie_id,
        rows[i].version >= version,
    ensures
        !sauvegarde_categorie_acceptee(rows, user_id, categorie_id, version),
{
    lemma_idx_categorie_unique(rows, user_id, categorie_id, i);
    assert(contient_categorie(rows, user_id, categorie_id)) by {
        assert(crate::categories::meme_cle_categorie(rows[i], user_id, categorie_id));
    }
}

/// Saving a brand-new category is accepted whatever its version, and the
/// store then holds that version as the current one for the new key.
pub proof fn loi_nouvelle_categorie(
    rows: Seq<DocCategorieUsagerView>,
    user_id: Seq<char>,
    categorie_id: Seq<char>,
    t: TransactionSauvegarderCategorieUsagerView,
)
    requires
        cles_categories_uniques(rows),
        !contient_categorie(rows, user_id, categorie_id),
    ensures
        sauvegarde_categorie_acceptee(rows, user_id, categorie_id, spec_version_categorie(t)),
        ({
            let apres = rows.push(ligne_categorie(user_id, categorie_id, t));
            &&& contient_categorie(apres, user_id, categorie_id)
            &&& apres[idx_categorie(apres, user_id, categorie_id)].version
                == spec_version_categorie(t)
        }),
{
    let ligne = ligne_categorie(user_id, categorie_id, t);
    let apres = rows.push(ligne);
    assert(crate::categories::meme_cle_categorie(
        apres[rows.len() as int],
        user_id,
        categorie_id,
    ));
    assert(contient_categorie(apres, user_id, categorie_id));
    let j = idx_categorie(apres, user_id, categorie_id);
    assert(0 <= j < apres.len() && crate::categories::meme_cle_categorie(
        apres[j],
        user_id,
        categorie_id,
    ));
    if j < rows.len() {
        assert(apres[j] == rows[j]);
        assert(contient_categorie(rows, user_id, categorie_id)) by {
            assert(crate::categories::meme_cle_categorie(rows[j], user_id, categorie_id));
        }
    }
}

/// Once a group exists, an update save keeps its stored category binding:
/// the written row carries the old category id, never the command's one.
pub proof fn loi_categorie_immuable(
    rows: Seq<RangeeGroupeView>,
    user_id: Seq<char>,
    groupe_id: Seq<char>,
    t: TransactionSauvegarderGroupeUsagerView,
    now: i64,
)
    requires
        cles_groupes_uniques(rows),
        contient_groupe(rows, user_id, groupe_id),
    ensures
        ({
            let i = idx_groupe(rows, user_id, groupe_id);
            let apres = rows.update(i, ligne_groupe_maj(rows[i], t, now));
            &&& contient_groupe(apres, user_id, groupe_id)
            &&& apres[idx_groupe(apres, user_id, groupe_id)].groupe.categorie_id
                == rows[i].groupe.categorie_id
        }),
{
    let i = idx_groupe(rows, user_id, groupe_id);
    assert(0 <= i < rows.len() && crate::groupes::meme_cle_groupe(rows[i], user_id, groupe_id));
    let ligne = ligne_groupe_maj(rows[i], t, now);
    let apres = rows.update(i, ligne);
    assert(crate::groupes::meme_cle_groupe(apres[i], user_id, groupe_id));
    assert(contient_groupe(apres, user_id, groupe_id));
    let j = idx_groupe(apres, user_id, groupe_id);
    assert(0 <= j < apres.len() && crate::groupes::meme_cle_groupe(apres[j], user_id, groupe_id));
    if j != i {
        assert(apres[j] == rows[j]);
        assert(crate::groupes::meme_cle_groupe(rows[j], user_id, groupe_id));
        assert(crate::groupes::meme_cle_groupe(rows[i], user_id, groupe_id));
        if i < j {
            assert(!crate::groupes::meme_cle_groupe(
                rows[j],
                rows[i].user_id,
                rows[i].groupe.groupe_id,
            ));
        } else {
            assert(!crate::groupes::meme_cle_groupe(
                rows[i],
                rows[j].user_id,
                rows[j].groupe.groupe_id,
            ));
        }
    }
}

/// After a successful document tombstone toggle, the same toggle finds the
/// row already in the requested state, so a second identical call is refused
/// by the toggle operation's contract without touching the store.
pub proof fn loi_double_bascule_document(
    rows: Seq<RangeeDocumentView>,
    user_id: Seq<char>,
    doc_id: Seq<char>,
    supprime: bool,
    now: i64,
)
    requires
        cles_documents_uniques(rows),
        contient_document(rows, user_id, doc_id),
    ensures
        ({
            let i = idx_document(rows, user_id, doc_id);
            let apres = rows.update(i, ligne_document_supprimee(rows[i], supprime, now));
            &&& contient_document(apres, user_id, doc_id)
            &&& (apres[idx_document(apres, user_id, doc_id)].document.supprime == Some(true))
                == supprime
        }),
{
    let i = idx_document(rows, user_id, doc_id);
    assert(0 <= i < rows.len() && crate::documents::meme_cle_document(rows[i], user_id, doc_id));
    let apres = rows.update(i, ligne_document_supprimee(rows[i], supprime, now));
    assert(crate::documents::meme_cle_document(apres[i], user_id, doc_id));
    assert(contient_document(apres, user_id, doc_id));
    assert(crate::documents::cles_documents_uniques(apres)) by {
        assert forall|a: int, b: int| 0 <= a < b < apres.len() implies !crate::documents::meme_cle_document(
            apres[b],
            apres[a].user_id,
            apres[a].document.doc_id,
        ) by {
            assert(!crate::documents::meme_cle_document(
                rows[b],
                rows[a].user_id,
                rows[a].document.doc_id,
            ));
        }
    }
    lemma_idx_document_unique(apres, user_id, doc_id, i);
}

/// After a successful group tombstone toggle, the same toggle finds the row
/// already in the requested state, so a second identical call is refused by
/// the toggle operation's contract without touching the store.
pub proof fn loi_double_bascule_groupe(
    rows: Seq<RangeeGroupeView>,
    user_id: Seq<char>,
    groupe_id: Seq<char>,
    supprime: bool,
    now: i64,
)
    requires
        cles_groupes_uniques(rows),
        contient_groupe(rows, user_id, groupe_id),
    ensures
        ({
            let i = idx_groupe(rows, user_id, groupe_id);
            let apres = rows.update(i, ligne_groupe_supprimee(rows[i], supprime, now));
            &&& contient_groupe(apres, user_id, groupe_id)
            &&& (apres[idx_groupe(apres, user_id, groupe_id)].groupe.supprime == Some(true))
                == supprime
        }),
{
    let i = idx_groupe(rows, user_id, groupe_id);
    assert(0 <= i < rows.len() && crate::groupes::meme_cle_groupe(rows[i], user_id, groupe_id));
    let apres = rows.update(i, ligne_groupe_supprimee(rows[i], supprime, now));
    assert(crate::groupes::meme_cle_groupe(apres[i], user_id, groupe_id));
    assert(contient_groupe(apres, user_id, groupe_id));
    assert(crate::groupes::cles_groupes_uniques(apres)) by {
        assert forall|a: int, b: int| 0 <= a < b < apres.len() implies !crate::groupes::meme_cle_groupe(
            apres[b],
            apres[a].user_id,
            apres[a].groupe.groupe_id,
        ) by {
            assert(!crate::groupes::meme_cle_groupe(
                rows[b],
                rows[a].user_id,
                rows[a].groupe.groupe_id,
            ));
        }
    }
    lemma_idx_groupe_unique(apres, user_id, groupe_id, i);
}

/// A live group row of an owner appears in the owner's live listing.
pub proof fn loi_groupe_vivant_liste(rows: Seq<RangeeGroupeView>, user_id: Seq<char>, i: int)
    requires
        0 <= i < rows.len(),
        rows[i].user_id == user_id,
        rows[i].groupe.supprime != Some(true),
    ensures
        crate::requetes::groupes_vivants(rows, user_id).contains(rows[i].groupe),
    decreases rows.len(),
{
    let vivants = crate::requetes::groupes_vivants(rows, user_id);
    if i == rows.len() - 1 {
        let prefixe = crate::requetes::groupes_vivants(rows.drop_last(), user_id);
        assert(vivants[prefixe.len() as int] == rows[i].groupe);
        assert(vivants.contains(rows[i].groupe));
    } else {
        assert(rows.drop_last()[i] == rows[i]);
        loi_groupe_vivant_liste(rows.drop_last(), user_id, i);
        let prefixe = crate::requetes::groupes_vivants(rows.drop_last(), user_id);
        let j = choose|j: int| 0 <= j < prefixe.len() && prefixe[j] == rows[i].groupe;
        assert(vivants[j] == rows[i].groupe);
        assert(vivants.contains(rows[i].groupe));
    }
}

/// Soft-deleting then restoring a group makes it queryable again: after the
/// two toggles its row is live and the owner's live listing carries it.
pub proof fn loi_bascule_restaure_visibilite_groupe(
    rows: Seq<RangeeGroupeView>,
    user_id: Seq<char>,
    groupe_id: Seq<char>,
    now1: i64,
    now2: i64,
)
    requires
        cles_groupes_uniques(rows),
        contient_groupe(rows, user_id, groupe_id),
    ensures
        ({
            let i = idx_groupe(rows, user_id, groupe_id);
            let efface = rows.update(i, ligne_groupe_supprimee(rows[i], true, now1));
            let restaure = efface.update(i, ligne_groupe_supprimee(efface[i], false, now2));
            crate::requetes::groupes_vivants(restaure, user_id).contains(restaure[i].groupe)
        }),
{
    let i = idx_groupe(rows, user_id, groupe_id);
    assert(0 <= i < rows.len() && crate::groupes::meme_cle_groupe(rows[i], user_id, groupe_id));
    let efface = rows.update(i, ligne_groupe_supprimee(rows[i], true, now1));
    let restaure = efface.update(i, ligne_groupe_supprimee(efface[i], false, now2));
    assert(restaure[i].groupe.supprime == Some(false));
    assert(restaure[i].user_id == user_id);
    loi_groupe_vivant_liste(restaure, user_id, i);
}

/// A row selected by the listing filter appears in the filtered listing.
pub proof fn loi_filtre_contient(
    rows: Seq<RangeeDocumentView>,
    user_id: Seq<char>,
    groupe_id: Seq<char>,
    date_sync: Option<i64>,
    i: int,
)
    requires
        0 <= i < rows.len(),
        document_vise(rows[i], user_id, groupe_id, date_sync),
    ensures
        documents_filtres(rows, user_id, groupe_id, date_sync).contains(rows[i].document),
    decreases rows.len(),
{
    let filtres = documents_filtres(rows, user_id, groupe_id, date_sync);
    if i == rows.len() - 1 {
        let prefixe = documents_filtres(rows.drop_last(), user_id, groupe_id, date_sync);
        assert(filtres[prefixe.len() as int] == rows[i].document);
        assert(filtres.contains(rows[i].document));
    } else {
        assert(rows.drop_last()[i] == rows[i]);
        loi_filtre_contient(rows.drop_last(), user_id, groupe_id, date_sync, i);
        let prefixe = documents_filtres(rows.drop_last(), user_id, groupe_id, date_sync);
        let j = choose|j: int| 0 <= j < prefixe.len() && prefixe[j] == rows[i].document;
        assert(filtres[j] == rows[i].document);
        assert(filtres.contains(rows[i].document));
    }
}

/// Incremental sync includes every later mutation: a document of the group
/// modified after the sync cursor appears in the listing filtered by that
/// cursor.
pub proof fn loi_sync_inclut_mutation(
    rows: Seq<RangeeDocumentView>,
    user_id: Seq<char>,
    groupe_id: Seq<char>,
    t1: i64,
    i: int,
)
    requires
        0 <= i < rows.len(),
        rows[i].user_id == user_id,
        rows[i].document.groupe_id == groupe_id,
        rows[i].modification > t1,
    ensures
        documents_filtres(rows, user_id, groupe_id, Some(t1)).contains(rows[i].document),
{
    loi_filtre_contient(rows, user_id, groupe_id, Some(t1), i);
}

/// Incremental sync from the present is empty: when no row was modified
/// after the cursor, the filtered listing has no element, so the single
/// final frame of a listing carries no document and no tombstone.
pub proof fn loi_sync_a_jour_vide(
    rows: Seq<RangeeDocumentView>,
    user_id: Seq<char>,
    groupe_id: Seq<char>,
    now: i64,
)
    requires
        forall|i: int| 0 <= i < rows.len() ==> #[trigger] rows[i].modification <= now,
    ensures
        documents_filtres(rows, user_id, groupe_id, Some(now)).len() == 0,
    decreases rows.len(),
{
    if rows.len() > 0 {
        assert(rows[rows.len() - 1].modification <= now);
        assert(forall|i: int|
            0 <= i < rows.drop_last().len() ==> #[trigger] rows.drop_last()[i].modification
                <= now);
        loi_sync_a_jour_vide(rows.drop_last(), user_id, groupe_id, now);
    }
}

/// Every flushed frame of a streamed listing is nonempty, and the size
/// counter recorded when it was flushed had passed the threshold (the item
/// that triggered the overflow is counted but carried to the next frame, so
/// a single oversized leading item never makes an empty frame).
pub proof fn loi_lots_non_vides(docs: Seq<DocDocumentView>, stream: bool, supprime_only: bool)
    ensures
        ({
            let etat = plier_lots(docs, stream, supprime_only);
            forall|k: int|
                0 <= k < etat.lots.len() ==> (#[trigger] etat.lots[k]).documents.len() > 0
                    && etat.lots[k].taille_au_flush > CONST_STREAMING_BATCH_LEN as int
        }),
    decreases docs.len(),
{
    if docs.len() > 0 {
        loi_lots_non_vides(docs.drop_last(), stream, supprime_only);
        let etat0 = plier_lots(docs.drop_last(), stream, supprime_only);
        let etat = etape_lots(etat0, docs.last(), stream, supprime_only);
        assert(forall|k: int|
            0 <= k < etat0.lots.len() ==> etat.lots[k] == #[trigger] etat0.lots[k]);
    }
}

/// Without streaming no batch is ever flushed: the whole listing is answered
/// by exactly one final frame.
pub proof fn loi_sans_stream_une_trame(docs: Seq<DocDocumentView>, supprime_only: bool)
    ensures
        plier_lots(docs, false, supprime_only).lots.len() == 0,
    decreases docs.len(),
{
    if docs.len() > 0 {
        loi_sans_stream_une_trame(docs.drop_last(), supprime_only);
    }
}

/// The streaming accumulator only appends documents to the open batch (when
/// it does not flush it), so without streaming a document placed in the
/// batch stays in the final frame.
pub proof fn loi_sans_stream_contient(docs: Seq<DocDocumentView>, supprime_only: bool, d: DocDocumentView)
    requires
        docs.contains(d),
        if supprime_only {
            d.supprime == Some(true)
        } else {
            d.supprime != Some(true)
        },
    ensures
        plier_lots(docs, false, supprime_only).documents.contains(d),
    decreases docs.len(),
{
    let etat0 = plier_lots(docs.drop_last(), false, supprime_only);
    let etat = plier_lots(docs, false, supprime_only);
    if docs.last() == d {
        assert(etat.documents[etat.documents.len() - 1] == d);
        assert(etat.documents.contains(d));
    } else {
        let j = choose|j: int| 0 <= j < docs.len() && docs[j] == d;
        assert(docs.drop_last()[j] == d);
        assert(docs.drop_last().contains(d));
        loi_sans_stream_contient(docs.drop_last(), supprime_only, d);
        let m = choose|m: int| 0 <= m < etat0.documents.len() && etat0.documents[m] == d;
        assert(etat.documents[m] == d);
        assert(etat.documents.contains(d));
    }
}

/// Soft-deleting then restoring a document makes it queryable again: after
/// the two toggles its row is live, and a full (non-streamed, non-deleted)
/// listing of its group carries the restored document in its final frame.
pub proof fn loi_bascule_restaure_visibilite(
    rows: Seq<RangeeDocumentView>,
    user_id: Seq<char>,
    doc_id: Seq<char>,
    now1: i64,
    now2: i64,
)
    requires
        cles_documents_uniques(rows),
        contient_document(rows, user_id, doc_id),
    ensures
        ({
            let i = idx_document(rows, user_id, doc_id);
            let efface = rows.update(i, ligne_document_supprimee(rows[i], true, now1));
            let restaure = efface.update(i, ligne_document_supprimee(efface[i], false, now2));
            let trouvables = documents_filtres(
                restaure,
                user_id,
                rows[i].document.groupe_id,
                None,
            );
            plier_lots(trouvables, false, false).documents.contains(
                restaure[i].document,
            )
        }),
{
    let i = idx_document(rows, user_id, doc_id);
    assert(0 <= i < rows.len() && crate::documents::meme_cle_document(rows[i], user_id, doc_id));
    let efface = rows.update(i, ligne_document_supprimee(rows[i], true, now1));
    let restaure = efface.update(i, ligne_document_supprimee(efface[i], false, now2));
    assert(restaure[i].document.supprime == Some(false));
    assert(restaure[i].user_id == user_id);
    assert(restaure[i].document.groupe_id == rows[i].document.groupe_id);
    assert(document_vise(restaure[i], user_id, rows[i].document.groupe_id, None));
    loi_filtre_contient(restaure, user_id, rows[i].document.groupe_id, None, i);
    loi_sans_stream_contient(
        documents_filtres(restaure, user_id, rows[i].document.groupe_id, None),
        false,
        restaure[i].document,
    );
}

} // verus!
