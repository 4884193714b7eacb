//! Device kinds and actuator commands.
//!
//! Each simulated device is a long-lived task with a unique identity and a
//! kind. The control loop addresses actuators through typed commands; the
//! actuator task receives the command text on its private channel and applies
//! it to the shared record.

use vstd::prelude::*;
use crate::estado::EstadoSistema;

verus! {

/// The kinds of sensor devices a unit runs.
#[derive(Clone, Copy, PartialEq, Eq, Structural, Debug)]
pub enum TipoSensor {
    Temperatura,
    Estoque,
    Porta,
}

/// The kinds of actuator devices a unit runs.
#[derive(Clone, Copy, PartialEq, Eq, Structural, Debug)]
pub enum TipoAtuador {
    Refrigerador,
    Luz,
    Alarme,
}

/// An action the control loop may ask an actuator to perform.
#[derive(Clone, Copy, PartialEq, Eq, Structural, Debug)]
pub enum Acao {
    Ligar,
    Desligar,
    Acender,
    Apagar,
    Ativar,
    Desativar,
}

/// A routed command: which device, and what it should do.
#[derive(Clone, Copy, PartialEq, Eq, Structural, Debug)]
pub struct Comando {
    /// Identity of the actuator the command is addressed to.
    pub alvo: u128,
    /// What the actuator should do.
    pub acao: Acao,
}

/// The wire text of each action.
pub open spec fn texto_da_acao(acao: Acao) -> Seq<char> {
    match acao {
        Acao::Ligar => "LIGAR"@,
        Acao::Desligar => "DESLIGAR"@,
        Acao::Acender => "ACENDER"@,
        Acao::Apagar => "APAGAR"@,
        Acao::Ativar => "ATIVAR"@,
        Acao::Desativar => "DESATIVAR"@,
    }
}

/// Render an action as the text that travels on an actuator's channel.
pub fn texto_comando(acao: Acao) -> (texto: String)
    ensures
        texto@ == texto_da_acao(acao),
{
    match acao {
        Acao::Ligar => "LIGAR".to_owned(),
        Acao::Desligar => "DESLIGAR".to_owned(),
        Acao::Acender => "ACENDER".to_owned(),
        Acao::Apagar => "APAGAR".to_owned(),
        Acao::Ativar => "ATIVAR".to_owned(),
        Acao::Desativar => "DESATIVAR".to_owned(),
    }
}

/// What a command text does to the record when actuator `tipo` executes it:
/// its own on/off flag is set for the two texts it understands, and any other
/// text is ignored.
pub open spec fn spec_executar_comando(
    e: EstadoSistema,
    tipo: TipoAtuador,
    texto: Seq<char>,
) -> EstadoSistema {
    match tipo {
        TipoAtuador::Refrigerador => if texto == "LIGAR"@ {
            EstadoSistema { refrigerador_ligado: true, ..e }
        } else if texto == "DESLIGAR"@ {
            EstadoSistema { refrigerador_ligado: false, ..e }
        } else {
            e
        },
        TipoAtuador::Luz => if texto == "ACENDER"@ {
            EstadoSistema { luz_ligada: true, ..e }
        } else if texto == "APAGAR"@ {
            EstadoSistema { luz_ligada: false, ..e }
        } else {
            e
        },
        TipoAtuador::Alarme => if texto == "ATIVAR"@ {
            EstadoSistema { alarme_ativado: true, ..e }
        } else if texto == "DESATIVAR"@ {
            EstadoSistema { alarme_ativado: false, ..e }
        } else {
            e
        },
    }
}

/// Execute a received command text on the shared record, as the actuator task
/// of kind `tipo` does when a routed command reaches it.
pub fn executar_comando(estado: &mut EstadoSistema, tipo: TipoAtuador, texto: &String)
    ensures
        *final(estado) == spec_executar_comando(*old(estado), tipo, texto@),
        old(estado).bem_formado() ==> final(estado).bem_formado(),
{
    match tipo {
        TipoAtuador::Refrigerador => {
            if texto.eq(&"LIGAR".to_owned()) {
                estado.refrigerador_ligado = true;
            } else if texto.eq(&"DESLIGAR".to_owned()) {
                estado.refrigerador_ligado = false;
            }
        },
        TipoAtuador::Luz => {
            if texto.eq(&"ACENDER".to_owned()) {
                estado.luz_ligada = true;
            } else if texto.eq(&"APAGAR".to_owned()) {
                estado.luz_ligada = false;
            }
        },
        TipoAtuador::Alarme => {
            if texto.eq(&"ATIVAR".to_owned()) {
                estado.alarme_ativado = true;
            } else if texto.eq(&"DESATIVAR".to_owned()) {
                estado.alarme_ativado = false;
            }
        },
    }
}

impl EstadoSistema {
    /// The identity of the unit's sensor of the given kind.
    pub fn id_sensor(&self, tipo: TipoSensor) -> (id: u128)
        ensures
            id == match tipo {
                TipoSensor::Temperatura => self.id_temperatura,
                TipoSensor::Estoque => self.id_estoque,
                TipoSensor::Porta => self.id_porta,
            },
    {
        match tipo {
            TipoSensor::Temperatura => self.id_temperatura,
            TipoSensor::Estoque => self.id_estoque,
            TipoSensor::Porta => self.id_porta,
        }
    }

    /// The identity of the unit's actuator of the given kind.
    pub fn id_atuador(&self, tipo: TipoAtuador) -> (id: u128)
        ensures
            id == match tipo {
                TipoAtuador::Refrigerador => self.id_refrigerador,
                TipoAtuador::Luz => self.id_luz,
                TipoAtuador::Alarme => self.id_alarme,
            },
    {
        match tipo {
            TipoAtuador::Refrigerador => self.id_refrigerador,
            TipoAtuador::Luz => self.id_luz,
            TipoAtuador::Alarme => self.id_alarme,
        }
    }
}

} // verus!
