//! Authorization gate: every inbound command, query and transaction is
//! classified from the certificate of the sender before any store is touched.
//!
//! An [`Enveloppe`] carries what a certificate says, as plain values.
use vstd::prelude::*;

verus! {

/// Trust tier of the channel a message arrived on.
#[derive(Clone, Copy, Debug, PartialEq, Eq, Structural)]
pub enum Securite {
    L1Public,
    L2Prive,
    L3Protege,
    L4Secure,
}

/// Facts the sender's certificate carries.
#[derive(Debug)]
pub struct Enveloppe {
    /// Owner the certificate acts for, when it carries one.
    pub user_id: Option<String>,
    /// Whether the certificate carries the private-account role.
    pub role_compte_prive: bool,
    /// Whether the certificate holds the global owner delegation.
    pub delegation_globale_proprietaire: bool,
    /// Trust tiers of the exchanges the certificate is valid on.
    pub exchanges: Vec<Securite>,
}

/// The sender is a flagged private account identified by an owner id.
pub open spec fn spec_usager_prive(env: &Enveloppe) -> bool {
    env.role_compte_prive && env.user_id is Some
}

/// The certificate is valid on at least one of the given trust tiers.
pub open spec fn spec_detient_exchange(env: &Enveloppe, tiers: Seq<Securite>) -> bool {
    exists|i: int, j: int|
        0 <= i < env.exchanges@.len() && 0 <= j < tiers.len() && env.exchanges@[i] == tiers[j]
}

/// A command is allowed for a private-account owner, for any of the
/// service's internal trust tiers, or under the global owner delegation.
pub open spec fn spec_autoriser_commande(env: &Enveloppe) -> bool {
    ||| spec_usager_prive(env)
    ||| spec_detient_exchange(
        env,
        seq![Securite::L1Public, Securite::L2Prive, Securite::L3Protege, Securite::L4Secure],
    )
    ||| env.delegation_globale_proprietaire
}

/// A query is allowed for a private-account owner, for the inter-service
/// tiers, or under the global owner delegation.
pub open spec fn spec_autoriser_requete(env: &Enveloppe) -> bool {
    ||| spec_usager_prive(env)
    ||| spec_detient_exchange(env, seq![Securite::L2Prive, Securite::L3Protege])
    ||| env.delegation_globale_proprietaire
}

/// A replayed transaction is allowed only on the most secure tier.
pub open spec fn spec_autoriser_transaction(env: &Enveloppe) -> bool {
    spec_detient_exchange(env, seq![Securite::L4Secure])
}

/// Inside a command handler an action on an owner's data is allowed for the
/// private-account role or under the global owner delegation.
pub open spec fn spec_autoriser_action_usager(env: &Enveloppe) -> bool {
    env.role_compte_prive || env.delegation_globale_proprietaire
}

impl Enveloppe {
    /// Whether the certificate is valid on any of the given trust tiers.
    pub fn verifier_exchanges(&self, tiers: &Vec<Securite>) -> (r: bool)
        ensures
            r == spec_detient_exchange(self, tiers@),
    {
        let mut i: usize = 0;
        while i < self.exchanges.len()
            invariant
                i <= self.exchanges.len(),
                forall|k: int, j: int|
                    0 <= k < i && 0 <= j < tiers@.len() ==> self.exchanges@[k] != tiers@[j],
            decreases self.exchanges.len() - i,
        {
            let mut j: usize = 0;
            while j < tiers.len()
                invariant
                    i < self.exchanges.len(),
                    j <= tiers.len(),
                    forall|l: int| 0 <= l < j ==> self.exchanges@[i as int] != tiers@[l],
                decreases tiers.len() - j,
            {
                if self.exchanges[i] == tiers[j] {
                    return true;
                }
                j = j + 1;
            }
            i = i + 1;
        }
        false
    }

    /// Gate for inbound commands.
    pub fn autoriser_commande(&self) -> (r: bool)
        ensures
            r == spec_autoriser_commande(self),
    {
        if self.role_compte_prive && self.user_id.is_some() {
            true
        } else {
            let tiers = vec![
                Securite::L1Public,
                Securite::L2Prive,
                Securite::L3Protege,
                Securite::L4Secure,
            ];
            assert(tiers@ =~= seq![
                Securite::L1Public,
                Securite::L2Prive,
                Securite::L3Protege,
                Securite::L4Secure,
            ]);
            if self.verifier_exchanges(&tiers) {
                true
            } else {
                self.delegation_globale_proprietaire
            }
        }
    }

    /// Gate for inbound queries.
    pub fn autoriser_requete(&self) -> (r: bool)
        ensures
            r == spec_autoriser_requete(self),
    {
        if self.role_compte_prive && self.user_id.is_some() {
            true
        } else {
            let tiers = vec![Securite::L2Prive, Securite::L3Protege];
            assert(tiers@ =~= seq![Securite::L2Prive, Securite::L3Protege]);
            if self.verifier_exchanges(&tiers) {
                true
            } else {
                self.delegation_globale_proprietaire
            }
        }
    }

    /// Gate for replayed transactions.
    pub fn autoriser_transaction(&self) -> (r: bool)
        ensures
            r == spec_autoriser_transaction(self),
    {
        let tiers = vec![Securite::L4Secure];
        assert(tiers@ =~= seq![Securite::L4Secure]);
        self.verifier_exchanges(&tiers)
    }

    /// Per-command gate: private-account role or global owner delegation.
    pub fn autoriser_action_usager(&self) -> (r: bool)
        ensures
            r == spec_autoriser_action_usager(self),
    {
        self.role_compte_prive || self.delegation_globale_proprietaire
    }
}

} // verus!
