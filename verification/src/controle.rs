//! The control-loop state machine.
//!
//! Once per fixed interval the process takes the lock on the shared record
//! and runs one control pass: the door drives the light and — after the grace
//! period — the alarm, and the temperature drives the cooler, which in turn
//! pulls the temperature down one step per pass. Every actuator command is
//! debounced: it is issued only when the computed flag actually changed.
//!
//! The pass itself is a pure function of the record and the current second;
//! the process supplies the clock and performs the pass inside its critical
//! section.

use vstd::prelude::*;
use crate::dispositivos::{texto_comando, Acao, Comando};
use crate::estado::{EstadoSistema, FOLGA_RESFRIAMENTO, PASSO_RESFRIAMENTO, TEMP_MAX_DECIMOS};
use crate::roteador::Roteador;

verus! {

/// Whole seconds elapsed since `t0`, zero if the clock ran backwards.
pub open spec fn decorrido(t0: u64, agora: u64) -> int {
    if agora >= t0 {
        agora - t0
    } else {
        0
    }
}

/// `x` confined to `[baixo, alto]` (well-formed records keep `baixo <= alto`).
pub open spec fn limitar(x: int, baixo: int, alto: int) -> int {
    if x < baixo {
        baixo
    } else if x > alto {
        alto
    } else {
        x
    }
}

/// The door stage of one pass: an open door keeps the light on and, once the
/// grace period is exceeded, turns the alarm on; a closed door turns both off
/// and clears the timer. Commands go out only on a change of flag, and the
/// alarm command in particular only on the off-to-on edge.
pub open spec fn spec_passo_porta(e: EstadoSistema, agora: u64) -> (EstadoSistema, Seq<Comando>) {
    if e.porta_aberta {
        let comandos_luz: Seq<Comando> = if !e.luz_ligada {
            seq![Comando { alvo: e.id_luz, acao: Acao::Acender }]
        } else {
            Seq::empty()
        };
        let dispara = match e.ultima_atualizacao_porta {
            Some(t0) => decorrido(t0, agora) > e.tempo_alerta_porta,
            None => false,
        };
        let comandos_alarme: Seq<Comando> = if dispara && !e.alarme_ativado {
            seq![Comando { alvo: e.id_alarme, acao: Acao::Ativar }]
        } else {
            Seq::empty()
        };
        (
            EstadoSistema { luz_ligada: true, alarme_ativado: e.alarme_ativado || dispara, ..e },
            comandos_luz + comandos_alarme,
        )
    } else {
        let comandos_luz: Seq<Comando> = if e.luz_ligada {
            seq![Comando { alvo: e.id_luz, acao: Acao::Apagar }]
        } else {
            Seq::empty()
        };
        let comandos_alarme: Seq<Comando> = if e.alarme_ativado {
            seq![Comando { alvo: e.id_alarme, acao: Acao::Desativar }]
        } else {
            Seq::empty()
        };
        (
            EstadoSistema {
                luz_ligada: false,
                alarme_ativado: false,
                ultima_atualizacao_porta: None,
                ..e
            },
            comandos_luz + comandos_alarme,
        )
    }
}

/// The cooling stage of one pass: the cooler runs exactly while the
/// temperature sits above the threshold; a change of flag issues a command;
/// a running cooler pulls the temperature down one step, held inside
/// `[threshold - 5.0 °C, 50.0 °C]`.
pub open spec fn spec_passo_resfriamento(e: EstadoSistema) -> (EstadoSistema, Seq<Comando>) {
    let ligado = e.temperatura_interna > e.temperatura_ideal;
    let comandos: Seq<Comando> = if ligado && !e.refrigerador_ligado {
        seq![Comando { alvo: e.id_refrigerador, acao: Acao::Ligar }]
    } else if !ligado && e.refrigerador_ligado {
        seq![Comando { alvo: e.id_refrigerador, acao: Acao::Desligar }]
    } else {
        Seq::empty()
    };
    let temperatura = if ligado {
        limitar(
            e.temperatura_interna - PASSO_RESFRIAMENTO,
            e.temperatura_ideal - FOLGA_RESFRIAMENTO,
            TEMP_MAX_DECIMOS as int,
        )
    } else {
        e.temperatura_interna as int
    };
    (
        EstadoSistema {
            refrigerador_ligado: ligado,
            temperatura_interna: temperatura as i32,
            ..e
        },
        comandos,
    )
}

/// One whole control pass: the door stage, then the cooling stage, with the
/// commands of both in that order.
pub open spec fn spec_passo(e: EstadoSistema, agora: u64) -> (EstadoSistema, Seq<Comando>) {
    let (e1, comandos_porta) = spec_passo_porta(e, agora);
    let (e2, comandos_frio) = spec_passo_resfriamento(e1);
    (e2, comandos_porta + comandos_frio)
}

/// Run one control pass over the record at second `agora`, returning the
/// commands to route.
pub fn passo(estado: &mut EstadoSistema, agora: u64) -> (comandos: Vec<Comando>)
    requires
        old(estado).bem_formado(),
    ensures
        *final(estado) == spec_passo(*old(estado), agora).0,
        comandos@ == spec_passo(*old(estado), agora).1,
        final(estado).bem_formado(),
{
    let mut comandos: Vec<Comando> = Vec::new();
    if estado.porta_aberta {
        if !estado.luz_ligada {
            estado.luz_ligada = true;
            comandos.push(Comando { alvo: estado.id_luz, acao: Acao::Acender });
        }
        match estado.ultima_atualizacao_porta {
            Some(t0) => {
                if agora >= t0 && agora - t0 > estado.tempo_alerta_porta {
                    if !estado.alarme_ativado {
                        estado.alarme_ativado = true;
                        comandos.push(Comando { alvo: estado.id_alarme, acao: Acao::Ativar });
                    }
                }
            },
            None => {},
        }
    } else {
        if estado.luz_ligada {
            estado.luz_ligada = false;
            comandos.push(Comando { alvo: estado.id_luz, acao: Acao::Apagar });
        }
        if estado.alarme_ativado {
            estado.alarme_ativado = false;
            comandos.push(Comando { alvo: estado.id_alarme, acao: Acao::Desativar });
        }
        estado.ultima_atualizacao_porta = None;
    }
    let ghost meio = spec_passo_porta(*old(estado), agora);
    proof {
        assert(*estado == meio.0);
        assert(comandos@ =~= meio.1);
    }
    let ligado = estado.temperatura_interna > estado.temperatura_ideal;
    if ligado && !estado.refrigerador_ligado {
        comandos.push(Comando { alvo: estado.id_refrigerador, acao: Acao::Ligar });
    } else if !ligado && estado.refrigerador_ligado {
        comandos.push(Comando { alvo: estado.id_refrigerador, acao: Acao::Desligar });
    }
    estado.refrigerador_ligado = ligado;
    if ligado {
        let baixo = estado.temperatura_ideal - FOLGA_RESFRIAMENTO;
        let nova = estado.temperatura_interna - PASSO_RESFRIAMENTO;
        estado.temperatura_interna = if nova < baixo {
            baixo
        } else if nova > TEMP_MAX_DECIMOS {
            TEMP_MAX_DECIMOS
        } else {
            nova
        };
    }
    proof {
        assert(*estado == spec_passo(*old(estado), agora).0);
        assert(comandos@ =~= spec_passo(*old(estado), agora).1);
    }
    comandos
}

/// Run one control pass and route every command it produced to its actuator.
/// Routing is best-effort: a missing channel or a full queue drops the
/// command, and the next pass re-issues it on the next disagreement.
pub fn passo_controle(estado: &mut EstadoSistema, agora: u64, roteador: &Roteador) -> (comandos:
    Vec<Comando>)
    requires
        old(estado).bem_formado(),
    ensures
        *final(estado) == spec_passo(*old(estado), agora).0,
        comandos@ == spec_passo(*old(estado), agora).1,
        final(estado).bem_formado(),
{
    let comandos = passo(estado, agora);
    let mut i: usize = 0;
    while i < comandos.len()
        decreases comandos@.len() - i,
    {
        let comando = comandos[i];
        let _ = roteador.rotear(comando.alvo, texto_comando(comando.acao));
        i += 1;
    }
    comandos
}

/// How many alarm activations a command batch carries.
pub open spec fn conta_ativar(comandos: Seq<Comando>) -> nat
    decreases comandos.len(),
{
    if comandos.len() == 0 {
        0
    } else {
        conta_ativar(comandos.drop_last()) + if comandos.last().acao == Acao::Ativar {
            1nat
        } else {
            0nat
        }
    }
}

/// Counting alarm activations distributes over concatenation.
proof fn lema_conta_ativar_soma(a: Seq<Comando>, b: Seq<Comando>)
    ensures
        conta_ativar(a + b) == conta_ativar(a) + conta_ativar(b),
    decreases b.len(),
{
    if b.len() == 0 {
        assert(a + b =~= a);
    } else {
        assert((a + b).drop_last() =~= a + b.drop_last());
        lema_conta_ativar_soma(a, b.drop_last());
    }
}

/// An empty batch carries no activation.
proof fn lema_conta_vazia()
    ensures
        conta_ativar(Seq::<Comando>::empty()) == 0,
{
}

/// A single command counts as an activation exactly when it is one.
proof fn lema_conta_um(comando: Comando)
    ensures
        conta_ativar(seq![comando]) == if comando.acao == Acao::Ativar {
            1int
        } else {
            0int
        },
{
    assert(seq![comando].drop_last() =~= Seq::<Comando>::empty());
    lema_conta_vazia();
}

/// One pass emits an alarm activation exactly on the off-to-on edge of the
/// alarm flag.
proof fn lema_conta_passo(e: EstadoSistema, agora: u64)
    ensures
        conta_ativar(spec_passo(e, agora).1) == if !e.alarme_ativado && spec_passo(
            e,
            agora,
        ).0.alarme_ativado {
            1int
        } else {
            0int
        },
{
    let (ep, cp) = spec_passo_porta(e, agora);
    let cf = spec_passo_resfriamento(ep).1;
    lema_conta_ativar_soma(cp, cf);
    if ep.temperatura_interna > ep.temperatura_ideal && !ep.refrigerador_ligado {
        lema_conta_um(Comando { alvo: ep.id_refrigerador, acao: Acao::Ligar });
    } else if !(ep.temperatura_interna > ep.temperatura_ideal) && ep.refrigerador_ligado {
        lema_conta_um(Comando { alvo: ep.id_refrigerador, acao: Acao::Desligar });
    } else {
        lema_conta_vazia();
    }
    if e.porta_aberta {
        let dispara = match e.ultima_atualizacao_porta {
            Some(t0) => decorrido(t0, agora) > e.tempo_alerta_porta,
            None => false,
        };
        let comandos_luz: Seq<Comando> = if !e.luz_ligada {
            seq![Comando { alvo: e.id_luz, acao: Acao::Acender }]
        } else {
            Seq::empty()
        };
        let comandos_alarme: Seq<Comando> = if dispara && !e.alarme_ativado {
            seq![Comando { alvo: e.id_alarme, acao: Acao::Ativar }]
        } else {
            Seq::empty()
        };
        lema_conta_ativar_soma(comandos_luz, comandos_alarme);
        lema_conta_um(Comando { alvo: e.id_luz, acao: Acao::Acender });
        lema_conta_um(Comando { alvo: e.id_alarme, acao: Acao::Ativar });
        lema_conta_vazia();
    } else {
        let comandos_luz: Seq<Comando> = if e.luz_ligada {
            seq![Comando { alvo: e.id_luz, acao: Acao::Apagar }]
        } else {
            Seq::empty()
        };
        let comandos_alarme: Seq<Comando> = if e.alarme_ativado {
            seq![Comando { alvo: e.id_alarme, acao: Acao::Desativar }]
        } else {
            Seq::empty()
        };
        lema_conta_ativar_soma(comandos_luz, comandos_alarme);
        lema_conta_um(Comando { alvo: e.id_luz, acao: Acao::Apagar });
        lema_conta_um(Comando { alvo: e.id_alarme, acao: Acao::Desativar });
        lema_conta_vazia();
    }
}

/// The alarm is edge-triggered: over one continuous open-door period a pass
/// issues an activation only on the off-to-on transition of the alarm flag —
/// exactly one when the pass raises it, and none on any later pass, however
/// long the door stays open. A pass raises the flag exactly when the open
/// door has outlived the grace period, never touches the door itself, and
/// keeps a raised flag raised while the door stays open, so the count stays
/// at zero by induction over all later passes of the period.
pub proof fn lema_alarme_dispara_uma_vez(e: EstadoSistema, agora1: u64, agora2: u64)
    ensures
        conta_ativar(spec_passo(e, agora1).1) == if !e.alarme_ativado && spec_passo(
            e,
            agora1,
        ).0.alarme_ativado {
            1int
        } else {
            0int
        },
        spec_passo(e, agora1).0.porta_aberta == e.porta_aberta,
        e.porta_aberta ==> spec_passo(e, agora1).0.alarme_ativado == (e.alarme_ativado || match e
            .ultima_atualizacao_porta {
            Some(t0) => decorrido(t0, agora1) > e.tempo_alerta_porta,
            None => false,
        }),
        spec_passo(e, agora1).0.alarme_ativado && spec_passo(e, agora1).0.porta_aberta ==> {
            &&& conta_ativar(spec_passo(spec_passo(e, agora1).0, agora2).1) == 0
            &&& spec_passo(spec_passo(e, agora1).0, agora2).0.alarme_ativado
            &&& spec_passo(spec_passo(e, agora1).0, agora2).0.porta_aberta
        },
{
    lema_conta_passo(e, agora1);
    let e1 = spec_passo(e, agora1).0;
    if e1.alarme_ativado && e1.porta_aberta {
        lema_conta_passo(e1, agora2);
    }
}

} // verus!
