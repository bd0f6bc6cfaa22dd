//! Sync query engine: paginated category listings, live/tombstone group and
//! document listings with incremental sync, and the size-bounded streaming
//! protocol for large document sets.
use vstd::prelude::*;

use crate::common::{
    DocCategorieUsager, DocCategorieUsagerView, DocDocument, DocDocumentView, DocGroupeUsager,
    DocGroupeUsagerView,
};
use crate::categories::CollectionCategories;
use crate::documents::{CollectionDocuments, RangeeDocumentView};
use crate::erreurs::ErreurDocuments;
use crate::groupes::{CollectionGroupes, RangeeGroupeView};

verus! {

/// Size threshold above which a streamed batch is flushed.
pub const CONST_STREAMING_BATCH_LEN: usize = 500000;

/// Fixed per-item overhead added to the payload length.
pub const CONST_DOCUMENT_META_LEN: usize = 400;

/// Base size of an empty response frame.
pub const CONST_REPONSE_BASE_LEN: usize = 32;

/// Query asking for the category listing of the sender.
#[derive(Debug, PartialEq)]
pub struct RequeteGetCategoriesUsager {
    pub limit: Option<i32>,
    pub skip: Option<i32>,
}

/// Query asking for the group listing of the sender.  The page fields are
/// part of the wire shape but the group listing is always returned whole.
#[derive(Debug, PartialEq)]
pub struct RequeteGetGroupesUsager {
    pub limit: Option<i32>,
    pub skip: Option<i32>,
    pub supprime: Option<bool>,
}

/// Query asking for the documents of one group, with optional incremental
/// sync and streaming.  The page fields are part of the wire shape but the
/// listing is cut by the streaming protocol, not by pages.
#[derive(Debug, PartialEq)]
pub struct RequeteGetDocumentsGroupe {
    pub groupe_id: String,
    pub limit: Option<i32>,
    pub skip: Option<i32>,
    pub supprime: Option<bool>,
    /// Last sync date; when given, only later mutations are returned.
    pub date_sync: Option<i64>,
    pub stream: Option<bool>,
}

/// Response to the category listing.
#[derive(Debug)]
pub struct ReponseGetCategories {
    pub categories: Vec<DocCategorieUsager>,
}

/// Response to the group listing: live rows, tombstone ids, and the sync
/// cursor to hand back on the next call.
#[derive(Debug)]
pub struct ReponseGetGroupes {
    pub groupes: Vec<DocGroupeUsager>,
    pub supprimes: Vec<String>,
    pub date_sync: i64,
}

/// One frame of the document listing; `done` marks the final frame.
#[derive(Debug)]
pub struct ReponseGetDocumentsGroupe {
    pub documents: Vec<DocDocument>,
    pub supprimes: Vec<String>,
    pub date_sync: i64,
    pub done: bool,
}

/// Default page length when a query gives none.
pub open spec fn spec_limite(limit: Option<i32>) -> int {
    match limit {
        Some(l) => if l >= 0 {
            l as int
        } else {
            0
        },
        None => 100,
    }
}

/// Default page offset when a query gives none.
pub open spec fn spec_saut(skip: Option<i32>) -> int {
    match skip {
        Some(s) => if s >= 0 {
            s as int
        } else {
            0
        },
        None => 0,
    }
}

/// Page of a sequence: `limite` elements starting at `saut`, clipped.
pub open spec fn page<T>(s: Seq<T>, saut: int, limite: int) -> Seq<T>
    recommends
        saut >= 0,
        limite >= 0,
{
    let debut = if saut <= s.len() {
        saut
    } else {
        s.len() as int
    };
    let fin = if saut + limite <= s.len() {
        saut + limite
    } else {
        s.len() as int
    };
    if debut <= fin {
        s.subrange(debut, fin)
    } else {
        Seq::empty()
    }
}

/// Category rows of one owner, in storage order.
pub open spec fn filtrer_categories(
    rows: Seq<DocCategorieUsagerView>,
    user_id: Seq<char>,
) -> Seq<DocCategorieUsagerView>
    decreases rows.len(),
{
    if rows.len() == 0 {
        Seq::empty()
    } else {
        let prefixe = filtrer_categories(rows.drop_last(), user_id);
        if rows.last().user_id == user_id {
            prefixe.push(rows.last())
        } else {
            prefixe
        }
    }
}

/// Live groups of one owner (tombstones excluded), in storage order.
pub open spec fn groupes_vivants(
    rows: Seq<RangeeGroupeView>,
    user_id: Seq<char>,
) -> Seq<DocGroupeUsagerView>
    decreases rows.len(),
{
    if rows.len() == 0 {
        Seq::empty()
    } else {
        let prefixe = groupes_vivants(rows.drop_last(), user_id);
        if rows.last().user_id == user_id && rows.last().groupe.supprime != Some(true) {
            prefixe.push(rows.last().groupe)
        } else {
            prefixe
        }
    }
}

/// Soft-deleted groups of one owner, in storage order.
pub open spec fn groupes_supprimes(
    rows: Seq<RangeeGroupeView>,
    user_id: Seq<char>,
) -> Seq<DocGroupeUsagerView>
    decreases rows.len(),
{
    if rows.len() == 0 {
        Seq::empty()
    } else {
        let prefixe = groupes_supprimes(rows.drop_last(), user_id);
        if rows.last().user_id == user_id && rows.last().groupe.supprime == Some(true) {
            prefixe.push(rows.last().groupe)
        } else {
            prefixe
        }
    }
}

/// Ids of the soft-deleted groups of one owner, in storage order.
pub open spec fn ids_groupes_supprimes(
    rows: Seq<RangeeGroupeView>,
    user_id: Seq<char>,
) -> Seq<Seq<char>>
    decreases rows.len(),
{
    if rows.len() == 0 {
        Seq::empty()
    } else {
        let prefixe = ids_groupes_supprimes(rows.drop_last(), user_id);
        if rows.last().user_id == user_id && rows.last().groupe.supprime == Some(true) {
            prefixe.push(rows.last().groupe.groupe_id)
        } else {
            prefixe
        }
    }
}

/// A document row selected by the listing: right owner, right group, and
/// modified after the sync cursor when one is given.
pub open spec fn document_vise(
    r: RangeeDocumentView,
    user_id: Seq<char>,
    groupe_id: Seq<char>,
    date_sync: Option<i64>,
) -> bool {
    r.user_id == user_id && r.document.groupe_id == groupe_id && (match date_sync {
        Some(t) => r.modification > t,
        None => true,
    })
}

/// Documents selected by the listing, in storage order.
pub open spec fn documents_filtres(
    rows: Seq<RangeeDocumentView>,
    user_id: Seq<char>,
    groupe_id: Seq<char>,
    date_sync: Option<i64>,
) -> Seq<DocDocumentView>
    decreases rows.len(),
{
    if rows.len() == 0 {
        Seq::empty()
    } else {
        let prefixe = documents_filtres(rows.drop_last(), user_id, groupe_id, date_sync);
        if document_vise(rows.last(), user_id, groupe_id, date_sync) {
            prefixe.push(rows.last().document)
        } else {
            prefixe
        }
    }
}

/// Actions accepted as queries of this domain.
#[derive(Clone, Copy, Debug, PartialEq, Eq, Structural)]
pub enum ActionRequete {
    GetCategoriesUsager,
    GetGroupesUsager,
    GetClesGroupes,
    GetDocumentsGroupe,
    Inconnue,
}

/// Routing of a query action name.
pub open spec fn spec_router_requete(a: Seq<char>) -> ActionRequete {
    if a == "getCategoriesUsager"@ {
        ActionRequete::GetCategoriesUsager
    } else if a == "getGroupesUsager"@ {
        ActionRequete::GetGroupesUsager
    } else if a == "getClesGroupes"@ {
        ActionRequete::GetClesGroupes
    } else if a == "getDocumentsGroupe"@ {
        ActionRequete::GetDocumentsGroupe
    } else {
        ActionRequete::Inconnue
    }
}

/// Maps a query action name onto the closed variant set.
pub fn router_requete(action: &String) -> (r: ActionRequete)
    ensures
        r == spec_router_requete(action@),
{
    if crate::common::chaine_egale(action, "getCategoriesUsager") {
        ActionRequete::GetCategoriesUsager
    } else if crate::common::chaine_egale(action, "getGroupesUsager") {
        ActionRequete::GetGroupesUsager
    } else if crate::common::chaine_egale(action, "getClesGroupes") {
        ActionRequete::GetClesGroupes
    } else if crate::common::chaine_egale(action, "getDocumentsGroupe") {
        ActionRequete::GetDocumentsGroupe
    } else {
        ActionRequete::Inconnue
    }
}

/// Gate of the volatile queue for queries: the sender must pass the query
/// authorization rule, and the action must belong to the domain.  An unknown
/// action is dropped without an answer, as is an unknown domain upstream.
pub fn consommer_requete(enveloppe: &crate::autorisation::Enveloppe, action: &String) -> (r: Result<
    ActionRequete,
    ErreurDocuments,
>)
    ensures
        !crate::autorisation::spec_autoriser_requete(enveloppe) ==> r == Err::<
            ActionRequete,
            ErreurDocuments,
        >(ErreurDocuments::NonAutorise),
        crate::autorisation::spec_autoriser_requete(enveloppe) && spec_router_requete(action@)
            == ActionRequete::Inconnue ==> r == Err::<ActionRequete, ErreurDocuments>(
            ErreurDocuments::ActionInconnue,
        ),
        crate::autorisation::spec_autoriser_requete(enveloppe) && spec_router_requete(action@)
            != ActionRequete::Inconnue ==> r == Ok::<ActionRequete, ErreurDocuments>(
            spec_router_requete(action@),
        ),
{
    if !enveloppe.autoriser_requete() {
        return Err(ErreurDocuments::NonAutorise);
    }
    let route = router_requete(action);
    if let ActionRequete::Inconnue = route {
        return Err(ErreurDocuments::ActionInconnue);
    }
    Ok(route)
}

/// Query asking the key custodian to re-encrypt the keys of some groups.
#[derive(Debug, PartialEq)]
pub struct RequeteGetGroupesCles {
    pub cle_ids: Vec<String>,
}

/// Re-encryption request forwarded to the key custodian and redirected to
/// the requesting client; the transport layer attaches its certificate.
#[derive(Debug, PartialEq)]
pub struct RequeteDechiffrage {
    pub domaine: String,
    pub cle_ids: Vec<String>,
}

/// Key reference of a group row: the key id when one is recorded, otherwise
/// the legacy hash reference.
pub open spec fn cle_de_groupe(g: DocGroupeUsagerView) -> Option<Seq<char>> {
    match g.cle_id {
        Some(c) => Some(c),
        None => g.ref_hachage_bytes,
    }
}

/// A group row answers the key query: right owner, and its key id or its
/// legacy hash reference is among the requested ones.
pub open spec fn groupe_vise_cles(
    r: RangeeGroupeView,
    user_id: Seq<char>,
    cles: Seq<Seq<char>>,
) -> bool {
    r.user_id == user_id && ((r.groupe.cle_id matches Some(c) && cles.contains(c)) || (
    r.groupe.ref_hachage_bytes matches Some(h) && cles.contains(h)))
}

/// Key references selected by the key query, in storage order.
pub open spec fn cles_des_groupes(
    rows: Seq<RangeeGroupeView>,
    user_id: Seq<char>,
    cles: Seq<Seq<char>>,
) -> Seq<Seq<char>>
    decreases rows.len(),
{
    if rows.len() == 0 {
        Seq::empty()
    } else {
        let prefixe = cles_des_groupes(rows.drop_last(), user_id, cles);
        if groupe_vise_cles(rows.last(), user_id, cles) && cle_de_groupe(
            rows.last().groupe,
        ) is Some {
            prefixe.push(cle_de_groupe(rows.last().groupe)->Some_0)
        } else {
            prefixe
        }
    }
}

/// Whether a string is among the given ones.
fn contient_chaine(chaines: &Vec<String>, s: &String) -> (r: bool)
    ensures
        r == chaines.deep_view().contains(s@),
{
    let mut i: usize = 0;
    while i < chaines.len()
        invariant
            i <= chaines.len(),
            forall|k: int| 0 <= k < i ==> chaines.deep_view()[k] != s@,
        decreases chaines.len() - i,
    {
        let egal = chaines[i].eq(s);
        assert(chaines.deep_view()[i as int] == chaines@[i as int]@);
        if egal {
            assert(chaines.deep_view().contains(s@));
            return true;
        }
        i = i + 1;
    }
    assert(!chaines.deep_view().contains(s@));
    false
}

/// Collects the key references of the sender's groups that answer the query
/// and wraps them in a re-encryption request for the key custodian.  Fails
/// only when the certificate carries no owner id.
pub fn requete_get_groupes_cles(
    groupes: &CollectionGroupes,
    enveloppe: &crate::autorisation::Enveloppe,
    requete: &RequeteGetGroupesCles,
) -> (r: Result<RequeteDechiffrage, ErreurDocuments>)
    ensures
        enveloppe.user_id is None <==> r == Err::<RequeteDechiffrage, ErreurDocuments>(
            ErreurDocuments::AccesRefuse,
        ),
        enveloppe.user_id is Some ==> (r matches Ok(rep) && {
            &&& rep.domaine@ == "Documents"@
            &&& rep.cle_ids.deep_view() == cles_des_groupes(
                groupes.groupes.deep_view(),
                crate::commandes::spec_user_id(enveloppe),
                requete.cle_ids.deep_view(),
            )
        }),
{
    let user_id: &String = match &enveloppe.user_id {
        Some(u) => u,
        None => {
            return Err(ErreurDocuments::AccesRefuse);
        },
    };

    let rows = &groupes.groupes;
    let mut cle_ids: Vec<String> = Vec::new();
    let mut i: usize = 0;
    assert(cle_ids.deep_view() =~= cles_des_groupes(
        rows.deep_view().take(0),
        user_id@,
        requete.cle_ids.deep_view(),
    ));
    while i < rows.len()
        invariant
            i <= rows.len(),
            cle_ids.deep_view() == cles_des_groupes(
                rows.deep_view().take(i as int),
                user_id@,
                requete.cle_ids.deep_view(),
            ),
        decreases rows.len() - i,
    {
        let ghost avant = rows.deep_view().take(i as int);
        let ghost apres = rows.deep_view().take(i as int + 1);
        assert(apres.drop_last() =~= avant);
        assert(apres.last() == rows.deep_view()[i as int]);

        if rows[i].user_id == *user_id {
            let par_cle_id = match &rows[i].groupe.cle_id {
                Some(c) => contient_chaine(&requete.cle_ids, c),
                None => false,
            };
            let par_ref = match &rows[i].groupe.ref_hachage_bytes {
                Some(h) => contient_chaine(&requete.cle_ids, h),
                None => false,
            };
            if par_cle_id || par_ref {
                match &rows[i].groupe.cle_id {
                    Some(c) => cle_ids.push(c.clone()),
                    None => match &rows[i].groupe.ref_hachage_bytes {
                        Some(h) => cle_ids.push(h.clone()),
                        None => {
                            assert(false);
                        },
                    },
                }
            }
        }
        assert(cle_ids.deep_view() =~= cles_des_groupes(
            apres,
            user_id@,
            requete.cle_ids.deep_view(),
        ));
        i = i + 1;
    }
    assert(rows.deep_view().take(rows.deep_view().len() as int) =~= rows.deep_view());

    Ok(RequeteDechiffrage { domaine: "Documents".to_owned(), cle_ids })
}

/// True of the first separator position of a streamed correlation id.
pub open spec fn est_premiere_barre(s: Seq<char>, i: int) -> bool {
    0 <= i < s.len() && s[i] == '/' && (forall|j: int| 0 <= j < i ==> s[j] != '/')
}

/// The correlation id holds a separator.
pub open spec fn a_une_barre(s: Seq<char>) -> bool {
    exists|i: int| 0 <= i < s.len() && s[i] == '/'
}

/// The correlation id holds exactly one separator.
pub open spec fn une_seule_barre(s: Seq<char>) -> bool {
    a_une_barre(s) && (forall|i: int, j: int|
        0 <= i < s.len() && 0 <= j < s.len() && s[i] == '/' && s[j] == '/' ==> i == j)
}

/// Position of the first separator (meaningful only when one exists).
pub open spec fn idx_premiere_barre(s: Seq<char>) -> int {
    choose|i: int| est_premiere_barre(s, i)
}

/// Correlation id used for streamed frames: a correlation id of the form
/// `outer/inner` is split and only the segment after the separator is used,
/// letting an upstream router multiplex sub-streams under one outer id; any
/// other shape keeps the segment before the first separator (the whole id
/// when there is none).
pub open spec fn correlation_streaming(s: Seq<char>) -> Seq<char> {
    if !a_une_barre(s) {
        s
    } else {
        let p = idx_premiere_barre(s);
        if une_seule_barre(s) {
            s.subrange(p + 1, s.len() as int)
        } else {
            s.subrange(0, p)
        }
    }
}

/// Two first-separator positions are the same position.
proof fn lemma_premiere_barre_unique(s: Seq<char>, i: int, j: int)
    requires
        est_premiere_barre(s, i),
        est_premiere_barre(s, j),
    ensures
        i == j,
{
}

/// Computes the correlation id under which streamed frames are sent (see
/// [`correlation_streaming`]).
pub fn correlation_pour_streaming(correlation_id: &str) -> (r: String)
    ensures
        r@ == correlation_streaming(correlation_id@),
{
    let n = correlation_id.unicode_len();
    let mut premiere: Option<usize> = None;
    let mut deuxieme: Option<usize> = None;
    let mut i: usize = 0;
    while i < n
        invariant
            i <= n,
            n == correlation_id@.len(),
            match premiere {
                None => forall|k: int| 0 <= k < i ==> correlation_id@[k] != '/',
                Some(p) => est_premiere_barre(correlation_id@, p as int) && p < i,
            },
            match deuxieme {
                None => match premiere {
                    Some(p) => forall|k: int|
                        p < k < i ==> correlation_id@[k] != '/',
                    None => true,
                },
                Some(q) => premiere matches Some(p) && p < q < i && correlation_id@[q as int]
                    == '/',
            },
        decreases n - i,
    {
        let c = correlation_id.get_char(i);
        if c == '/' {
            match premiere {
                None => {
                    premiere = Some(i);
                },
                Some(_) => {
                    if deuxieme.is_none() {
                        deuxieme = Some(i);
                    }
                },
            }
        }
        i = i + 1;
    }

    match premiere {
        None => {
            assert(!a_une_barre(correlation_id@));
            correlation_id.to_owned()
        },
        Some(p) => {
            assert(a_une_barre(correlation_id@));
            proof {
                lemma_premiere_barre_unique(
                    correlation_id@,
                    p as int,
                    idx_premiere_barre(correlation_id@),
                );
            }
            match deuxieme {
                None => {
                    // Exactly one separator: keep the inner segment.
                    assert(une_seule_barre(correlation_id@)) by {
                        assert(forall|k: int|
                            0 <= k < correlation_id@.len() && correlation_id@[k] == '/' ==> k
                                == p as int);
                    }
                    let r = correlation_id.substring_char(p + 1, n);
                    r.to_owned()
                },
                Some(q) => {
                    // Several separators: keep the outer segment.
                    assert(correlation_id@[q as int] == '/' && q != p);
                    assert(!une_seule_barre(correlation_id@));
                    let r = correlation_id.substring_char(0, p);
                    r.to_owned()
                },
            }
        },
    }
}

/// Saturating addition of the approximate size counter: the counter never
/// wraps, and once above the flush threshold it stays above it.
pub open spec fn sat_add(a: int, b: int) -> int {
    if a + b > usize::MAX {
        usize::MAX as int
    } else {
        a + b
    }
}

/// Approximate weight of one document in a response: its payload length plus
/// a fixed per-item overhead.
pub open spec fn poids_document(d: DocDocumentView) -> int {
    d.data_chiffre.len() + CONST_DOCUMENT_META_LEN
}

/// One flushed batch of a streamed listing, with the size counter recorded
/// at the moment of the flush.
pub struct LotDocuments {
    pub documents: Seq<DocDocumentView>,
    pub supprimes: Seq<Seq<char>>,
    pub taille_au_flush: int,
}

/// Running state of the streaming accumulator.
#[verifier::ext_equal]
pub struct EtatLots {
    pub lots: Seq<LotDocuments>,
    pub documents: Seq<DocDocumentView>,
    pub supprimes: Seq<Seq<char>>,
    pub taille: int,
}

/// Accumulator before any document was seen.
pub open spec fn etat_lots_initial() -> EtatLots {
    EtatLots {
        lots: Seq::empty(),
        documents: Seq::empty(),
        supprimes: Seq::empty(),
        taille: CONST_REPONSE_BASE_LEN as int,
    }
}

/// One step of the streaming accumulator: count the document's weight; when
/// streaming, the threshold is exceeded and at least one document is already
/// buffered, flush the buffered batch and restart the counter at the weight
/// of the document that triggered the overflow; then file the document as
/// live or tombstone.
pub open spec fn etape_lots(
    etat: EtatLots,
    d: DocDocumentView,
    stream: bool,
    supprime_only: bool,
) -> EtatLots {
    let taille2 = sat_add(etat.taille, poids_document(d));
    let etat2 = if stream && etat.documents.len() > 0 && taille2 > CONST_STREAMING_BATCH_LEN as int {
        EtatLots {
            lots: etat.lots.push(
                LotDocuments {
                    documents: etat.documents,
                    supprimes: etat.supprimes,
                    taille_au_flush: taille2,
                },
            ),
            documents: Seq::empty(),
            supprimes: Seq::empty(),
            taille: sat_add(0, poids_document(d)),
        }
    } else {
        EtatLots { taille: taille2, ..etat }
    };
    if supprime_only {
        if d.supprime == Some(true) {
            EtatLots { documents: etat2.documents.push(d), ..etat2 }
        } else {
            etat2
        }
    } else {
        if d.supprime == Some(true) {
            EtatLots { supprimes: etat2.supprimes.push(d.doc_id), ..etat2 }
        } else {
            EtatLots { documents: etat2.documents.push(d), ..etat2 }
        }
    }
}

/// Streaming accumulator run over a whole listing.
pub open spec fn plier_lots(
    docs: Seq<DocDocumentView>,
    stream: bool,
    supprime_only: bool,
) -> EtatLots
    decreases docs.len(),
{
    if docs.len() == 0 {
        etat_lots_initial()
    } else {
        etape_lots(
            plier_lots(docs.drop_last(), stream, supprime_only),
            docs.last(),
            stream,
            supprime_only,
        )
    }
}

/// An emitted frame matches one batch of the accumulator.
pub open spec fn trame_conforme(
    t: ReponseGetDocumentsGroupe,
    documents: Seq<DocDocumentView>,
    supprimes: Seq<Seq<char>>,
    done: bool,
    now: i64,
) -> bool {
    t.documents.deep_view() == documents && t.supprimes.deep_view() == supprimes && t.done == done
        && t.date_sync == now
}

/// Saturating addition on machine integers (see [`sat_add`]).
fn ajouter_taille(a: usize, b: usize) -> (r: usize)
    ensures
        r as int == sat_add(a as int, b as int),
{
    if a > usize::MAX - b {
        usize::MAX
    } else {
        a + b
    }
}

/// Lists the documents of one group for the sender: the rows modified after
/// the sync cursor when one is given, split into live rows and tombstone
/// ids (or only soft-deleted rows when `supprime` is set), cut into frames
/// by the streaming protocol.
///
/// Without streaming the result is a single final frame.  With streaming,
/// every batch whose accumulated size passes the threshold is flushed as a
/// non-final frame (`done == false`); the final frame is always emitted with
/// `done == true`, even when no document matched.  The transport layer
/// acknowledges the stream before the frames and tags every non-final frame
/// with its side-channel streaming marker.
pub fn requete_get_documents_groupe(
    documents: &CollectionDocuments,
    enveloppe: &crate::autorisation::Enveloppe,
    requete: &RequeteGetDocumentsGroupe,
    now: i64,
) -> (r: Result<Vec<ReponseGetDocumentsGroupe>, ErreurDocuments>)
    ensures
        enveloppe.user_id is None <==> r == Err::<
            Vec<ReponseGetDocumentsGroupe>,
            ErreurDocuments,
        >(ErreurDocuments::AccesRefuse),
        enveloppe.user_id is Some ==> (r matches Ok(trames) && {
            let user = crate::commandes::spec_user_id(enveloppe);
            let filtres = documents_filtres(
                documents.documents.deep_view(),
                user,
                requete.groupe_id@,
                requete.date_sync,
            );
            let etat = plier_lots(
                filtres,
                requete.stream == Some(true),
                requete.supprime == Some(true),
            );
            &&& trames@.len() == etat.lots.len() + 1
            &&& (forall|m: int|
                0 <= m < etat.lots.len() ==> trame_conforme(
                    #[trigger] trames@[m],
                    etat.lots[m].documents,
                    etat.lots[m].supprimes,
                    false,
                    now,
                ))
            &&& trame_conforme(
                trames@[etat.lots.len() as int],
                etat.documents,
                etat.supprimes,
                true,
                now,
            )
        }),
{
    let user_id: &String = match &enveloppe.user_id {
        Some(u) => u,
        None => {
            return Err(ErreurDocuments::AccesRefuse);
        },
    };

    let supprime_only = match requete.supprime {
        Some(true) => true,
        _ => false,
    };
    let stream = match requete.stream {
        Some(true) => true,
        _ => false,
    };

    // First pass: the rows selected by owner, group and sync cursor.
    let rows = &documents.documents;
    let mut filtres: Vec<DocDocument> = Vec::new();
    let mut i: usize = 0;
    assert(filtres.deep_view() =~= documents_filtres(
        rows.deep_view().take(0),
        user_id@,
        requete.groupe_id@,
        requete.date_sync,
    ));
    while i < rows.len()
        invariant
            i <= rows.len(),
            filtres.deep_view() == documents_filtres(
                rows.deep_view().take(i as int),
                user_id@,
                requete.groupe_id@,
                requete.date_sync,
            ),
        decreases rows.len() - i,
    {
        let ghost avant = rows.deep_view().take(i as int);
        let ghost apres = rows.deep_view().take(i as int + 1);
        assert(apres.drop_last() =~= avant);
        assert(apres.last() == rows.deep_view()[i as int]);

        let vise = rows[i].user_id == *user_id && rows[i].document.groupe_id == requete.groupe_id
            && (match requete.date_sync {
            Some(t) => rows[i].modification > t,
            None => true,
        });
        if vise {
            let c = rows[i].document.clone();
            assert(c.deep_view() == rows.deep_view()[i as int].document);
            filtres.push(c);
        }
        assert(filtres.deep_view() =~= documents_filtres(
            apres,
            user_id@,
            requete.groupe_id@,
            requete.date_sync,
        ));
        i = i + 1;
    }
    assert(rows.deep_view().take(rows.deep_view().len() as int) =~= rows.deep_view());
    let ghost fviews = filtres.deep_view();

    // Second pass: cut the listing into frames.
    let mut trames: Vec<ReponseGetDocumentsGroupe> = Vec::new();
    let mut docs_lot: Vec<DocDocument> = Vec::new();
    let mut suppr_lot: Vec<String> = Vec::new();
    let mut taille: usize = CONST_REPONSE_BASE_LEN;
    let mut k: usize = 0;
    assert(docs_lot.deep_view() =~= Seq::<DocDocumentView>::empty());
    assert(suppr_lot.deep_view() =~= Seq::<Seq<char>>::empty());
    assert(fviews.take(0) =~= Seq::<DocDocumentView>::empty());
    while k < filtres.len()
        invariant
            k <= filtres.len(),
            filtres.deep_view() == fviews,
            ({
                let etat = plier_lots(fviews.take(k as int), stream, supprime_only);
                &&& trames@.len() == etat.lots.len()
                &&& (forall|m: int|
                    0 <= m < etat.lots.len() ==> trame_conforme(
                        #[trigger] trames@[m],
                        etat.lots[m].documents,
                        etat.lots[m].supprimes,
                        false,
                        now,
                    ))
                &&& docs_lot.deep_view() == etat.documents
                &&& suppr_lot.deep_view() == etat.supprimes
                &&& taille as int == etat.taille
            }),
        decreases filtres.len() - k,
    {
        let ghost avant = fviews.take(k as int);
        let ghost apres = fviews.take(k as int + 1);
        assert(apres.drop_last() =~= avant);
        assert(apres.last() == fviews[k as int]);
        let ghost etat0 = plier_lots(avant, stream, supprime_only);

        // Count the document's weight, flushing the buffered batch first
        // when it would push a streamed response past the threshold.
        let poids = ajouter_taille(
            filtres[k].data_chiffre.as_str().unicode_len(),
            CONST_DOCUMENT_META_LEN,
        );
        assert(poids as int == sat_add(0, poids_document(fviews[k as int])));
        let taille2 = ajouter_taille(taille, poids);
        assert(taille2 as int == sat_add(etat0.taille, poids_document(fviews[k as int])));
        if stream && docs_lot.len() > 0 && taille2 > CONST_STREAMING_BATCH_LEN {
            trames.push(
                ReponseGetDocumentsGroupe {
                    documents: docs_lot,
                    supprimes: suppr_lot,
                    date_sync: now,
                    done: false,
                },
            );
            docs_lot = Vec::new();
            suppr_lot = Vec::new();
            taille = poids;
            assert(docs_lot.deep_view() =~= Seq::<DocDocumentView>::empty());
            assert(suppr_lot.deep_view() =~= Seq::<Seq<char>>::empty());
        } else {
            taille = taille2;
        }

        // File the document as live or tombstone.
        let efface = match filtres[k].supprime {
            Some(true) => true,
            _ => false,
        };
        if supprime_only {
            if efface {
                let c = filtres[k].clone();
                assert(c.deep_view() == fviews[k as int]);
                docs_lot.push(c);
            }
        } else {
            if efface {
                suppr_lot.push(filtres[k].doc_id.clone());
            } else {
                let c = filtres[k].clone();
                assert(c.deep_view() == fviews[k as int]);
                docs_lot.push(c);
            }
        }

        proof {
            let etat1 = plier_lots(apres, stream, supprime_only);
            assert(etat1 == etape_lots(etat0, fviews[k as int], stream, supprime_only));
            assert(docs_lot.deep_view() =~= etat1.documents);
            assert(suppr_lot.deep_view() =~= etat1.supprimes);
        }
        k = k + 1;
    }
    assert(fviews.take(fviews.len() as int) =~= fviews);

    // The final frame is always emitted, even with no matching document.
    trames.push(
        ReponseGetDocumentsGroupe {
            documents: docs_lot,
            supprimes: suppr_lot,
            date_sync: now,
            done: true,
        },
    );

    Ok(trames)
}

/// Lists the categories of the sender, paginated by `limit` / `skip`
/// (defaults 100 and 0; negative values read as 0).  Fails only when the
/// certificate carries no owner id.
pub fn requete_get_categories_usager(
    categories: &CollectionCategories,
    enveloppe: &crate::autorisation::Enveloppe,
    requete: &RequeteGetCategoriesUsager,
) -> (r: Result<ReponseGetCategories, ErreurDocuments>)
    ensures
        enveloppe.user_id is None <==> r == Err::<ReponseGetCategories, ErreurDocuments>(
            ErreurDocuments::AccesRefuse,
        ),
        enveloppe.user_id is Some ==> (r matches Ok(rep) && rep.categories.deep_view() == page(
            filtrer_categories(
                categories.courantes.deep_view(),
                crate::commandes::spec_user_id(enveloppe),
            ),
            spec_saut(requete.skip),
            spec_limite(requete.limit),
        )),
{
    let user_id: &String = match &enveloppe.user_id {
        Some(u) => u,
        None => {
            return Err(ErreurDocuments::AccesRefuse);
        },
    };

    let limite: usize = match requete.limit {
        Some(l) => if l >= 0 {
            l as usize
        } else {
            0
        },
        None => 100,
    };
    let saut: usize = match requete.skip {
        Some(s) => if s >= 0 {
            s as usize
        } else {
            0
        },
        None => 0,
    };

    // First pass: every category of the owner, in storage order.
    let rows = &categories.courantes;
    let mut toutes: Vec<DocCategorieUsager> = Vec::new();
    let mut i: usize = 0;
    assert(toutes.deep_view() =~= filtrer_categories(rows.deep_view().take(0), user_id@));
    while i < rows.len()
        invariant
            i <= rows.len(),
            toutes.deep_view() == filtrer_categories(rows.deep_view().take(i as int), user_id@),
        decreases rows.len() - i,
    {
        let ghost avant = rows.deep_view().take(i as int);
        let ghost apres = rows.deep_view().take(i as int + 1);
        assert(apres.drop_last() =~= avant);
        assert(apres.last() == rows.deep_view()[i as int]);
        if rows[i].user_id == *user_id {
            toutes.push(rows[i].clone());
            assert(toutes.deep_view() =~= filtrer_categories(apres, user_id@));
        } else {
            assert(toutes.deep_view() =~= filtrer_categories(apres, user_id@));
        }
        i = i + 1;
    }
    assert(rows.deep_view().take(rows.deep_view().len() as int) =~= rows.deep_view());

    // Second pass: the requested page.
    let ghost filtre = filtrer_categories(rows.deep_view(), user_id@);
    let debut: usize = if saut <= toutes.len() {
        saut
    } else {
        toutes.len()
    };
    let fin: usize = if limite <= toutes.len() - debut {
        debut + limite
    } else {
        toutes.len()
    };
    let mut pages: Vec<DocCategorieUsager> = Vec::new();
    let mut j: usize = debut;
    while j < fin
        invariant
            debut <= j <= fin <= toutes.len(),
            toutes.deep_view() == filtre,
            pages.deep_view() =~= filtre.subrange(debut as int, j as int),
        decreases fin - j,
    {
        let c = toutes[j].clone();
        assert(c.deep_view() == toutes.deep_view()[j as int]);
        assert(toutes.deep_view()[j as int] == filtre[j as int]);
        pages.push(c);
        assert(filtre.subrange(debut as int, j as int + 1) =~= filtre.subrange(
            debut as int,
            j as int,
        ).push(filtre[j as int]));
        assert(pages.deep_view() =~= filtre.subrange(debut as int, j as int + 1));
        j = j + 1;
    }
    assert(debut as int == (if saut as int <= filtre.len() {
        saut as int
    } else {
        filtre.len() as int
    }));
    assert(fin as int == (if saut as int + limite as int <= filtre.len() {
        saut as int + limite as int
    } else {
        filtre.len() as int
    }));
    assert(pages.deep_view() =~= filtre.subrange(debut as int, fin as int));
    assert(pages.deep_view() =~= page(filtre, saut as int, limite as int));

    Ok(ReponseGetCategories { categories: pages })
}

/// Lists the groups of the sender: live rows and tombstone ids, or only the
/// soft-deleted rows when `supprime` is set, together with a fresh sync
/// cursor.  Fails only when the certificate carries no owner id.
pub fn requete_get_groupes_usager(
    groupes: &CollectionGroupes,
    enveloppe: &crate::autorisation::Enveloppe,
    requete: &RequeteGetGroupesUsager,
    now: i64,
) -> (r: Result<ReponseGetGroupes, ErreurDocuments>)
    ensures
        enveloppe.user_id is None <==> r == Err::<ReponseGetGroupes, ErreurDocuments>(
            ErreurDocuments::AccesRefuse,
        ),
        enveloppe.user_id is Some ==> (r matches Ok(rep) && {
            let user = crate::commandes::spec_user_id(enveloppe);
            let rows = groupes.groupes.deep_view();
            &&& rep.date_sync == now
            &&& (requete.supprime == Some(true) ==> rep.groupes.deep_view() == groupes_supprimes(
                rows,
                user,
            ) && rep.supprimes.deep_view() == Seq::<Seq<char>>::empty())
            &&& (requete.supprime != Some(true) ==> rep.groupes.deep_view() == groupes_vivants(
                rows,
                user,
            ) && rep.supprimes.deep_view() == ids_groupes_supprimes(rows, user))
        }),
{
    let user_id: &String = match &enveloppe.user_id {
        Some(u) => u,
        None => {
            return Err(ErreurDocuments::AccesRefuse);
        },
    };

    let supprime_only = match requete.supprime {
        Some(true) => true,
        _ => false,
    };

    let rows = &groupes.groupes;
    let mut liste_groupes: Vec<DocGroupeUsager> = Vec::new();
    let mut liste_supprimes: Vec<String> = Vec::new();
    let mut i: usize = 0;
    assert(liste_groupes.deep_view() =~= groupes_vivants(rows.deep_view().take(0), user_id@));
    assert(liste_groupes.deep_view() =~= groupes_supprimes(rows.deep_view().take(0), user_id@));
    assert(liste_supprimes.deep_view() =~= ids_groupes_supprimes(
        rows.deep_view().take(0),
        user_id@,
    ));
    while i < rows.len()
        invariant
            i <= rows.len(),
            supprime_only ==> liste_groupes.deep_view() == groupes_supprimes(
                rows.deep_view().take(i as int),
                user_id@,
            ) && liste_supprimes.deep_view() == Seq::<Seq<char>>::empty(),
            !supprime_only ==> liste_groupes.deep_view() == groupes_vivants(
                rows.deep_view().take(i as int),
                user_id@,
            ) && liste_supprimes.deep_view() == ids_groupes_supprimes(
                rows.deep_view().take(i as int),
                user_id@,
            ),
        decreases rows.len() - i,
    {
        let ghost avant = rows.deep_view().take(i as int);
        let ghost apres = rows.deep_view().take(i as int + 1);
        assert(apres.drop_last() =~= avant);
        assert(apres.last() == rows.deep_view()[i as int]);

        let concerne = rows[i].user_id == *user_id;
        let efface = match rows[i].groupe.supprime {
            Some(true) => true,
            _ => false,
        };
        if supprime_only {
            if concerne && efface {
                liste_groupes.push(rows[i].groupe.clone());
            }
            assert(liste_groupes.deep_view() =~= groupes_supprimes(apres, user_id@));
        } else {
            if concerne && efface {
                liste_supprimes.push(rows[i].groupe.groupe_id.clone());
            } else if concerne {
                liste_groupes.push(rows[i].groupe.clone());
            }
            assert(liste_groupes.deep_view() =~= groupes_vivants(apres, user_id@));
            assert(liste_supprimes.deep_view() =~= ids_groupes_supprimes(apres, user_id@));
        }
        i = i + 1;
    }
    assert(rows.deep_view().take(rows.deep_view().len() as int) =~= rows.deep_view());

    Ok(ReponseGetGroupes { groupes: liste_groupes, supprimes: liste_supprimes, date_sync: now })
}

} // verus!
