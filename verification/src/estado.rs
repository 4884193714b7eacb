//! The shared environmental/actuator record of the unit.
//!
//! Exactly one `EstadoSistema` exists per running unit; every component
//! reads and writes it under an exclusive-access discipline that the caller
//! provides (the process wraps it in a lock). Temperatures are stored as
//! whole tenths of a degree Celsius, so `40` means 4.0 °C.

use vstd::prelude::*;

verus! {

/// Lowest temperature a sensor report may carry, in tenths (-20.0 °C).
pub const TEMP_MIN_DECIMOS: i32 = -200;

/// Highest temperature a sensor report may carry, in tenths (50.0 °C).
pub const TEMP_MAX_DECIMOS: i32 = 500;

/// How far cooling may undershoot the threshold, in tenths (5.0 °C).
pub const FOLGA_RESFRIAMENTO: i32 = 50;

/// Temperature lost per control tick while the cooler runs, in tenths (0.5 °C).
pub const PASSO_RESFRIAMENTO: i32 = 5;

/// Grace period before an open door raises the alarm, in seconds.
pub const TEMPO_ALERTA_PADRAO: u64 = 30;

/// Temperature the unit starts at and aims for, in tenths (4.0 °C).
pub const TEMPERATURA_INICIAL: i32 = 40;

/// The single record of environmental and actuator state.
///
/// Device identities are 128-bit values (the numeric form of the UUID each
/// device is created with). The record stores the identity of each of the
/// unit's own devices so the control loop can address its commands.
pub struct EstadoSistema {
    /// Last accepted temperature reading, in tenths of a degree.
    pub temperatura_interna: i32,
    /// Last accepted stock level, as a percentage (0 to 100).
    pub nivel_estoque: u8,
    /// Whether the door is currently open.
    pub porta_aberta: bool,
    /// Second at which the door last went from closed to open;
    /// present exactly while the door is open.
    pub ultima_atualizacao_porta: Option<u64>,
    /// Whether the cooler actuator is on.
    pub refrigerador_ligado: bool,
    /// Whether the light actuator is on.
    pub luz_ligada: bool,
    /// Whether the alarm actuator is on.
    pub alarme_ativado: bool,
    /// Desired temperature threshold, in tenths of a degree.
    pub temperatura_ideal: i32,
    /// Grace period before an open door raises the alarm, in seconds.
    pub tempo_alerta_porta: u64,
    /// Identity of the temperature sensor.
    pub id_temperatura: u128,
    /// Identity of the door sensor.
    pub id_porta: u128,
    /// Identity of the stock sensor.
    pub id_estoque: u128,
    /// Identity of the cooler actuator.
    pub id_refrigerador: u128,
    /// Identity of the light actuator.
    pub id_luz: u128,
    /// Identity of the alarm actuator.
    pub id_alarme: u128,
}

impl EstadoSistema {
    /// Well-formedness of the record. Every constructor establishes it and
    /// every verified mutation preserves it.
    ///
    /// The stored temperature may sit up to `FOLGA_RESFRIAMENTO` below the
    /// lowest reportable reading, because cooling undershoots the threshold
    /// by at most that much.
    pub open spec fn bem_formado(self) -> bool {
        &&& TEMP_MIN_DECIMOS - FOLGA_RESFRIAMENTO <= self.temperatura_interna <= TEMP_MAX_DECIMOS
        &&& self.nivel_estoque <= 100
        &&& TEMP_MIN_DECIMOS <= self.temperatura_ideal <= TEMP_MAX_DECIMOS
        &&& self.porta_aberta <==> self.ultima_atualizacao_porta is Some
    }

    /// A freshly initialized unit: 4.0 °C measured and desired, empty stock,
    /// door closed, every actuator off, 30-second door grace period.
    ///
    /// The caller supplies the identities of the unit's devices (the process
    /// draws them at device creation).
    pub fn novo(
        id_temperatura: u128,
        id_porta: u128,
        id_estoque: u128,
        id_refrigerador: u128,
        id_luz: u128,
        id_alarme: u128,
    ) -> (estado: EstadoSistema)
        ensures
            estado.bem_formado(),
            estado.temperatura_interna == TEMPERATURA_INICIAL,
            estado.nivel_estoque == 0,
            !estado.porta_aberta,
            estado.ultima_atualizacao_porta is None,
            !estado.refrigerador_ligado,
            !estado.luz_ligada,
            !estado.alarme_ativado,
            estado.temperatura_ideal == TEMPERATURA_INICIAL,
            estado.tempo_alerta_porta == TEMPO_ALERTA_PADRAO,
            estado.id_temperatura == id_temperatura,
            estado.id_porta == id_porta,
            estado.id_estoque == id_estoque,
            estado.id_refrigerador == id_refrigerador,
            estado.id_luz == id_luz,
            estado.id_alarme == id_alarme,
    {
        EstadoSistema {
            temperatura_interna: TEMPERATURA_INICIAL,
            nivel_estoque: 0,
            porta_aberta: false,
            ultima_atualizacao_porta: None,
            refrigerador_ligado: false,
            luz_ligada: false,
            alarme_ativado: false,
            temperatura_ideal: TEMPERATURA_INICIAL,
            tempo_alerta_porta: TEMPO_ALERTA_PADRAO,
            id_temperatura,
            id_porta,
            id_estoque,
            id_refrigerador,
            id_luz,
            id_alarme,
        }
    }

    /// What [`Self::definir_porta`] does: a closed-to-open transition records
    /// the current second; reporting an already-open door keeps the running
    /// timer; closing clears it.
    pub open spec fn spec_definir_porta(self, aberta: bool, agora: u64) -> EstadoSistema {
        if aberta {
            if self.porta_aberta {
                self
            } else {
                EstadoSistema {
                    porta_aberta: true,
                    ultima_atualizacao_porta: Some(agora),
                    ..self
                }
            }
        } else {
            EstadoSistema { porta_aberta: false, ultima_atualizacao_porta: None, ..self }
        }
    }

    /// Record the door state reported at second `agora`.
    ///
    /// The open-transition starts the alarm grace timer; repeating an
    /// already-reported state changes nothing, so a second open report does
    /// not restart the timer.
    pub fn definir_porta(&mut self, aberta: bool, agora: u64)
        ensures
            *final(self) == old(self).spec_definir_porta(aberta, agora),
            old(self).bem_formado() ==> final(self).bem_formado(),
    {
        if aberta {
            if !self.porta_aberta {
                self.porta_aberta = true;
                self.ultima_atualizacao_porta = Some(agora);
            }
        } else {
            self.porta_aberta = false;
            self.ultima_atualizacao_porta = None;
        }
    }

    /// Reporting an open door twice leaves the door open both times and keeps
    /// the grace timer of the first report: the second report does not
    /// restart it.
    pub proof fn lema_porta_idempotente(self, agora1: u64, agora2: u64)
        ensures
            self.spec_definir_porta(true, agora1).porta_aberta,
            self.spec_definir_porta(true, agora1).spec_definir_porta(true, agora2).porta_aberta,
            self.spec_definir_porta(true, agora1).spec_definir_porta(true, agora2)
                == self.spec_definir_porta(true, agora1),
    {
    }
}

} // verus!
