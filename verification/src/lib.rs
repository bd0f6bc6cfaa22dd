//! Core logic of the Documents domain: versioned user categories, encrypted
//! groups and documents with a soft-delete lifecycle, authorization rules,
//! and the size-bounded streaming read path with incremental sync.
//!
//! Everything here works on plain values; the surrounding process wires the
//! message bus, the database and the key custodian around these functions.
use vstd::prelude::*;

pub mod autorisation;
pub mod categories;
pub mod commandes;
pub mod cles;
pub mod common;
pub mod documents;
pub mod domain_manager;
pub mod erreurs;
pub mod evenements;
pub mod groupes;
pub mod lois;
pub mod requetes;
pub mod transactions;

verus! {

/// Domain name under which every queue, event and collection is registered.
pub fn domaine_nom() -> (r: &'static str)
    ensures
        r@ == "Documents"@,
{
    "Documents"
}

} // verus!
