//! The device registry and handshake.
//!
//! Before a device task speaks the protocol, the process allocates a pending
//! registration for it: a one-shot acknowledgment slot keyed by the device's
//! identity. When the dispatcher later sees the matching `IDENTIFY` message it
//! delivers a single `200 OK` on that slot, removes it, and marks the identity
//! confirmed; only confirmed devices may report readings. A second `IDENTIFY`
//! for the same identity finds no slot and is silently dropped.

use vstd::prelude::*;
use std::collections::{HashMap, HashSet};

verus! {

broadcast use vstd::std_specs::hash::group_hash_axioms;

#[verifier::external_type_specification]
#[verifier::external_body]
#[verifier::reject_recursive_types(T)]
pub struct ExRemetenteUnico<T>(tokio::sync::oneshot::Sender<T>);

/// Relies on tokio::sync::oneshot::Sender::send: hands the value to the
/// waiting receiver if it still exists, fails at once otherwise, and consumes
/// the sender either way, so the slot can deliver at most one value.
#[verifier::external_body]
fn enviar_confirmacao(
    confirmacao: tokio::sync::oneshot::Sender<String>,
    resposta: String,
) -> (entregue: bool) {
    confirmacao.send(resposta).is_ok()
}

/// The device registry: pending acknowledgment slots and confirmed devices.
pub struct Registro {
    /// One outstanding acknowledgment slot per identity still waiting for its
    /// `IDENTIFY` to arrive.
    pub pendentes: HashMap<u128, tokio::sync::oneshot::Sender<String>>,
    /// Identities whose handshake completed.
    pub confirmados: HashSet<u128>,
}

impl Registro {
    /// An empty registry.
    pub fn novo() -> (registro: Registro)
        ensures
            registro.pendentes@ == Map::<u128, tokio::sync::oneshot::Sender<String>>::empty(),
            registro.confirmados@ == Set::<u128>::empty(),
    {
        Registro { pendentes: HashMap::new(), confirmados: HashSet::new() }
    }

    /// Allocate the pending registration for a new device, before the device
    /// first speaks. An identity that already has a slot, or that was already
    /// confirmed, is refused, so at most one slot ever exists per identity.
    pub fn registrar(
        &mut self,
        id: u128,
        confirmacao: tokio::sync::oneshot::Sender<String>,
    ) -> (aceito: bool)
        ensures
            aceito == (!old(self).pendentes@.contains_key(id) && !old(self).confirmados@.contains(
                id,
            )),
            final(self).pendentes@ == if aceito {
                old(self).pendentes@.insert(id, confirmacao)
            } else {
                old(self).pendentes@
            },
            final(self).confirmados@ == old(self).confirmados@,
    {
        if self.pendentes.contains_key(&id) || self.confirmados.contains(&id) {
            false
        } else {
            self.pendentes.insert(id, confirmacao);
            true
        }
    }

    /// Correlate an arrived `IDENTIFY` with its pending registration: the
    /// slot keyed by exactly this identity, if one is outstanding, receives
    /// the given acknowledgment, is removed, and the identity becomes
    /// confirmed. An unknown or already-consumed identity changes nothing —
    /// the message is silently dropped.
    pub fn entregar_confirmacao(&mut self, id: u128, resposta: String) -> (entregue: bool)
        ensures
            entregue == old(self).pendentes@.contains_key(id),
            final(self).pendentes@ == old(self).pendentes@.remove(id),
            final(self).confirmados@ == if entregue {
                old(self).confirmados@.insert(id)
            } else {
                old(self).confirmados@
            },
    {
        match self.pendentes.remove(&id) {
            Some(confirmacao) => {
                let _ = enviar_confirmacao(confirmacao, resposta);
                self.confirmados.insert(id);
                true
            },
            None => {
                proof {
                    assert(old(self).pendentes@.remove(id) =~= old(self).pendentes@);
                }
                false
            },
        }
    }

    /// Whether a device completed its handshake.
    pub fn esta_confirmado(&self, id: u128) -> (confirmado: bool)
        ensures
            confirmado == self.confirmados@.contains(id),
    {
        self.confirmados.contains(&id)
    }
}

/// Handshake correlation: when two devices with distinct identities are both
/// pending, delivering the confirmation of one consumes exactly that one's
/// slot — the other identity keeps its own untouched slot, with the same
/// acknowledgment channel, and delivering it afterwards consumes that slot
/// and no other. Acknowledgments are never cross-delivered.
pub proof fn lema_correlacao_identidades(registro: Registro, a: u128, b: u128)
    requires
        a != b,
        registro.pendentes@.contains_key(a),
        registro.pendentes@.contains_key(b),
    ensures
        !registro.pendentes@.remove(a).contains_key(a),
        registro.pendentes@.remove(a).contains_key(b),
        registro.pendentes@.remove(a)[b] == registro.pendentes@[b],
        !registro.pendentes@.remove(a).remove(b).contains_key(a),
        !registro.pendentes@.remove(a).remove(b).contains_key(b),
{
}

} // verus!
