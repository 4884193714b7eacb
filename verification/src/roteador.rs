//! The command router.
//!
//! Each actuator owns a small bounded channel; the router maps an actuator's
//! identity to the sending half and forwards command text without blocking.
//! Delivery is best-effort by design: an absent target is a silent no-op and
//! a full channel drops the command, because the control loop re-evaluates on
//! every pass and re-issues the command on the next disagreement.

use vstd::prelude::*;
use std::collections::HashMap;

verus! {

broadcast use vstd::std_specs::hash::group_hash_axioms;

#[verifier::external_type_specification]
#[verifier::external_body]
#[verifier::reject_recursive_types(T)]
pub struct ExRemetenteComando<T>(tokio::sync::mpsc::Sender<T>);

/// Relies on tokio::sync::mpsc::Sender::try_send: enqueues the message if the
/// channel has room and the receiver still exists, and otherwise fails at
/// once; it never blocks and never delivers more than this one message.
#[verifier::external_body]
fn tentar_enviar(canal: &tokio::sync::mpsc::Sender<String>, comando: String) -> (enviado: bool) {
    canal.try_send(comando).is_ok()
}

/// The Device Channel Table: actuator identity to command channel.
pub struct Roteador {
    /// The sending half of each live actuator's bounded command channel.
    pub canais: HashMap<u128, tokio::sync::mpsc::Sender<String>>,
}

impl Roteador {
    /// An empty table.
    pub fn novo() -> (roteador: Roteador)
        ensures
            roteador.canais@ == Map::<u128, tokio::sync::mpsc::Sender<String>>::empty(),
    {
        Roteador { canais: HashMap::new() }
    }

    /// Record a newly started actuator's channel. An identity already present
    /// keeps its channel and the call reports failure, so one entry exists
    /// per live actuator.
    pub fn registrar_canal(
        &mut self,
        id: u128,
        canal: tokio::sync::mpsc::Sender<String>,
    ) -> (aceito: bool)
        ensures
            aceito == !old(self).canais@.contains_key(id),
            final(self).canais@ == if aceito {
                old(self).canais@.insert(id, canal)
            } else {
                old(self).canais@
            },
    {
        if self.canais.contains_key(&id) {
            false
        } else {
            self.canais.insert(id, canal);
            true
        }
    }

    /// Forward a command to the actuator with identity `alvo`, best-effort:
    /// an unknown target is a silent no-op, and a full or closed channel
    /// drops the command. No error ever reaches the caller.
    pub fn rotear(&self, alvo: u128, comando: String) -> (encaminhado: bool)
        ensures
            !self.canais@.contains_key(alvo) ==> !encaminhado,
    {
        match self.canais.get(&alvo) {
            Some(canal) => tentar_enviar(canal, comando),
            None => false,
        }
    }
}

} // verus!
