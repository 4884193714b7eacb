//! The protocol dispatcher.
//!
//! A request is one framed line; its first token selects the handler. Sensor
//! and actuator messages either carry `IDENTIFY` (the handshake, answered and
//! correlated with the pending registration) or are automatic reports, which
//! are accepted only from confirmed devices. Client messages query or mutate
//! the shared record directly. A report that fails validation is rejected as
//! a whole: none of its readings is applied.

use vstd::prelude::*;
use vstd::string::*;
use crate::estado::{EstadoSistema, TEMP_MAX_DECIMOS, TEMP_MIN_DECIMOS};
use crate::numero::{
    analisa_decimos, analisa_estoque, analisar_decimos, analisar_estoque, bytes_decimos,
    formatar_decimos,
};
use crate::registro::Registro;
use crate::texto::{
    bytes_iguais, bytes_iguais_sem_caixa, iguais_sem_caixa, tokenizar, tokens_de, vistas,
};

verus! {

/// Names the 128-bit value that uuid::Uuid::try_parse_ascii reads out of a
/// textual UUID, or `None` where the bytes are no valid UUID text; the
/// outcome depends on the bytes alone.
pub uninterp spec fn uuid_of(s: Seq<u8>) -> Option<u128>;

/// Relies on uuid::Uuid::try_parse_ascii (with uuid::Uuid::as_u128): parses
/// the textual forms of a UUID from ASCII bytes into its 128-bit value.
#[verifier::external_body]
fn analisar_uuid(s: &[u8]) -> (identidade: Option<u128>)
    ensures
        identidade == uuid_of(s@),
{
    match uuid::Uuid::try_parse_ascii(s) {
        Ok(u) => Some(u.as_u128()),
        Err(_) => None,
    }
}

/// The acknowledgment every completed exchange gets.
pub open spec fn resposta_ok() -> Seq<u8> {
    "GERENCIADOR/1.0 200 OK\r\n\r\n".spec_bytes()
}

/// The refusal of a malformed or unrecognized message.
pub open spec fn resposta_erro() -> Seq<u8> {
    "GERENCIADOR/1.0 400 ERROR\r\n\r\n".spec_bytes()
}

/// The refusal of a temperature reading that does not parse or leaves the
/// physical range.
pub open spec fn resposta_temperatura_invalida() -> Seq<u8> {
    "GERENCIADOR/1.0 400 INVALID_TEMP\r\n\r\n".spec_bytes()
}

/// The refusal of an unrecognized door-state token.
pub open spec fn resposta_porta_invalida() -> Seq<u8> {
    "GERENCIADOR/1.0 400 INVALID_DOOR\r\n\r\n".spec_bytes()
}

/// The refusal of a stock level that does not parse or exceeds 100.
pub open spec fn resposta_estoque_invalido() -> Seq<u8> {
    "GERENCIADOR/1.0 400 INVALID_STOCK\r\n\r\n".spec_bytes()
}

/// The refusal of an automatic report from a device that has not completed
/// its handshake.
pub open spec fn resposta_nao_confirmado() -> Seq<u8> {
    "GERENCIADOR/1.0 403 COMANDO AUTOMATICO\r\n\r\n".spec_bytes()
}

/// The status report a client gets: the four live readings of the unit.
pub open spec fn resposta_status(e: EstadoSistema) -> Seq<u8> {
    "GERENCIADOR/1.0 200 OK\r\nTEMPERATURA: ".spec_bytes() + bytes_decimos(
        e.temperatura_interna as int,
    ) + "\r\nPORTA: ".spec_bytes() + (if e.porta_aberta {
        "ABERTA".spec_bytes()
    } else {
        "FECHADA".spec_bytes()
    }) + "\r\nREFRIGERADOR: ".spec_bytes() + (if e.refrigerador_ligado {
        "LIGADO".spec_bytes()
    } else {
        "DESLIGADO".spec_bytes()
    }) + "\r\nALARME: ".spec_bytes() + (if e.alarme_ativado {
        "ATIVADO".spec_bytes()
    } else {
        "NORMAL".spec_bytes()
    }) + "\r\n\r\n".spec_bytes()
}

/// The acknowledgment of an accepted threshold, echoing the stored value.
pub open spec fn resposta_limite(decimos: int) -> Seq<u8> {
    "GERENCIADOR/1.0 200 OK\r\nLIMITE: ".spec_bytes() + bytes_decimos(decimos)
        + "\r\n\r\n".spec_bytes()
}

/// The acknowledgment of an accepted door command, echoing the new state.
pub open spec fn resposta_porta(aberta: bool) -> Seq<u8> {
    "GERENCIADOR/1.0 200 OK\r\nPORTA: ".spec_bytes() + (if aberta {
        "ABERTA".spec_bytes()
    } else {
        "FECHADA".spec_bytes()
    }) + "\r\n\r\n".spec_bytes()
}

/// Copy a fixed response.
fn resposta_fixa(texto: &str) -> (resposta: Vec<u8>)
    ensures
        resposta@ == texto.spec_bytes(),
{
    vstd::slice::slice_to_vec(texto.as_bytes())
}

/// Append fixed text to a response under construction.
fn anexar_texto(resposta: &mut Vec<u8>, texto: &str)
    ensures
        final(resposta)@ == old(resposta)@ + texto.spec_bytes(),
{
    let mut pedaco = vstd::slice::slice_to_vec(texto.as_bytes());
    resposta.append(&mut pedaco);
}

/// The readings one sensor report carries, each at most once applied.
pub struct Atualizacao {
    /// Temperature to store, in tenths.
    pub temperatura: Option<int>,
    /// Door state to record.
    pub porta: Option<bool>,
    /// Stock level to store.
    pub estoque: Option<u8>,
}

/// A report with no readings yet.
pub open spec fn atualizacao_vazia() -> Atualizacao {
    Atualizacao { temperatura: None, porta: None, estoque: None }
}

/// Which validation failed, failing the whole report.
#[derive(Clone, Copy, PartialEq, Eq, Structural, Debug)]
pub enum ErroLeitura {
    Temperatura,
    Porta,
    Estoque,
}

/// The response each validation failure draws.
pub open spec fn resposta_de_erro(erro: ErroLeitura) -> Seq<u8> {
    match erro {
        ErroLeitura::Temperatura => resposta_temperatura_invalida(),
        ErroLeitura::Porta => resposta_porta_invalida(),
        ErroLeitura::Estoque => resposta_estoque_invalido(),
    }
}

/// Scan the tokens of a sensor report from position `i`: each known keyword
/// takes the following token as its value, a later reading of the same kind
/// replaces an earlier one, `ID` and its value are skipped, and anything else
/// is ignored. The first invalid value fails the whole report.
pub open spec fn analisa_leituras(toks: Seq<Seq<u8>>, i: int, acc: Atualizacao) -> Result<
    Atualizacao,
    ErroLeitura,
>
    decreases toks.len() - i,
{
    if !(0 <= i < toks.len()) {
        Ok(acc)
    } else if toks[i] == "TEMPERATURA".spec_bytes() && i + 1 < toks.len() {
        match analisa_decimos(toks[i + 1]) {
            Some(v) => if TEMP_MIN_DECIMOS <= v <= TEMP_MAX_DECIMOS {
                analisa_leituras(toks, i + 2, Atualizacao { temperatura: Some(v), ..acc })
            } else {
                Err(ErroLeitura::Temperatura)
            },
            None => Err(ErroLeitura::Temperatura),
        }
    } else if toks[i] == "PORTA".spec_bytes() && i + 1 < toks.len() {
        if iguais_sem_caixa(toks[i + 1], "ABERTA".spec_bytes()) {
            analisa_leituras(toks, i + 2, Atualizacao { porta: Some(true), ..acc })
        } else if iguais_sem_caixa(toks[i + 1], "FECHADA".spec_bytes()) {
            analisa_leituras(toks, i + 2, Atualizacao { porta: Some(false), ..acc })
        } else {
            Err(ErroLeitura::Porta)
        }
    } else if toks[i] == "ESTOQUE".spec_bytes() && i + 1 < toks.len() {
        match analisa_estoque(toks[i + 1]) {
            Some(p) => analisa_leituras(toks, i + 2, Atualizacao { estoque: Some(p), ..acc }),
            None => Err(ErroLeitura::Estoque),
        }
    } else if toks[i] == "ID".spec_bytes() && i + 1 < toks.len() {
        analisa_leituras(toks, i + 2, acc)
    } else {
        analisa_leituras(toks, i + 1, acc)
    }
}

/// Apply the readings of an accepted report, as one all-or-nothing write:
/// temperature, then stock, then the door (whose open-transition starts the
/// grace timer at second `agora`).
pub open spec fn spec_aplicar_leituras(
    e: EstadoSistema,
    atu: Atualizacao,
    agora: u64,
) -> EstadoSistema {
    let com_temperatura = match atu.temperatura {
        Some(t) => EstadoSistema { temperatura_interna: t as i32, ..e },
        None => e,
    };
    let com_estoque = match atu.estoque {
        Some(p) => EstadoSistema { nivel_estoque: p, ..com_temperatura },
        None => com_temperatura,
    };
    match atu.porta {
        Some(aberta) => com_estoque.spec_definir_porta(aberta, agora),
        None => com_estoque,
    }
}

/// The readings gathered so far by the executable scan.
pub open spec fn como_atualizacao(
    temperatura: Option<i32>,
    porta: Option<bool>,
    estoque: Option<u8>,
) -> Atualizacao {
    Atualizacao {
        temperatura: match temperatura {
            Some(v) => Some(v as int),
            None => None,
        },
        porta,
        estoque,
    }
}

/// Handle a sensor report (tokens of the whole message, the protocol token
/// first): validate every reading, then apply all of them, or none on the
/// first failure.
pub fn handle_sensor_data(tokens: &Vec<Vec<u8>>, estado: &mut EstadoSistema, agora: u64) -> (
    resposta: Vec<u8>)
    requires
        old(estado).bem_formado(),
    ensures
        final(estado).bem_formado(),
        match analisa_leituras(vistas(tokens@), 1, atualizacao_vazia()) {
            Ok(atu) => *final(estado) == spec_aplicar_leituras(*old(estado), atu, agora)
                && resposta@ == resposta_ok(),
            Err(erro) => *final(estado) == *old(estado) && resposta@ == resposta_de_erro(erro),
        },
{
    let ghost toks = vistas(tokens@);
    let mut temperatura_nova: Option<i32> = None;
    let mut porta_nova: Option<bool> = None;
    let mut estoque_novo: Option<u8> = None;
    let mut i: usize = 1;
    while i < tokens.len()
        invariant
            1 <= i,
            toks == vistas(tokens@),
            toks.len() == tokens@.len(),
            old(estado).bem_formado(),
            *estado == *old(estado),
            analisa_leituras(toks, 1, atualizacao_vazia()) == analisa_leituras(
                toks,
                i as int,
                como_atualizacao(temperatura_nova, porta_nova, estoque_novo),
            ),
            match temperatura_nova {
                Some(v) => TEMP_MIN_DECIMOS <= v <= TEMP_MAX_DECIMOS,
                None => true,
            },
            match estoque_novo {
                Some(p) => p <= 100,
                None => true,
            },
        decreases tokens@.len() - i,
    {
        proof {
            assert(toks[i as int] == tokens@[i as int]@);
            if i + 1 < tokens.len() {
                assert(toks[i as int + 1] == tokens@[i as int + 1]@);
            }
        }
        let token = &tokens[i];
        if bytes_iguais(token.as_slice(), "TEMPERATURA".as_bytes()) && i + 1 < tokens.len() {
            let valor = &tokens[i + 1];
            match analisar_decimos(valor.as_slice()) {
                Some(v) => {
                    if TEMP_MIN_DECIMOS <= v && v <= TEMP_MAX_DECIMOS {
                        temperatura_nova = Some(v);
                        i += 2;
                    } else {
                        return resposta_fixa("GERENCIADOR/1.0 400 INVALID_TEMP\r\n\r\n");
                    }
                },
                None => {
                    return resposta_fixa("GERENCIADOR/1.0 400 INVALID_TEMP\r\n\r\n");
                },
            }
        } else if bytes_iguais(token.as_slice(), "PORTA".as_bytes()) && i + 1 < tokens.len() {
            let valor = &tokens[i + 1];
            if bytes_iguais_sem_caixa(valor.as_slice(), "ABERTA".as_bytes()) {
                porta_nova = Some(true);
                i += 2;
            } else if bytes_iguais_sem_caixa(valor.as_slice(), "FECHADA".as_bytes()) {
                porta_nova = Some(false);
                i += 2;
            } else {
                return resposta_fixa("GERENCIADOR/1.0 400 INVALID_DOOR\r\n\r\n");
            }
        } else if bytes_iguais(token.as_slice(), "ESTOQUE".as_bytes()) && i + 1 < tokens.len() {
            let valor = &tokens[i + 1];
            match analisar_estoque(valor.as_slice()) {
                Some(p) => {
                    estoque_novo = Some(p);
                    i += 2;
                },
                None => {
                    return resposta_fixa("GERENCIADOR/1.0 400 INVALID_STOCK\r\n\r\n");
                },
            }
        } else if bytes_iguais(token.as_slice(), "ID".as_bytes()) && i + 1 < tokens.len() {
            i += 2;
        } else {
            i += 1;
        }
    }
    match temperatura_nova {
        Some(v) => {
            estado.temperatura_interna = v;
        },
        None => {},
    }
    match estoque_novo {
        Some(p) => {
            estado.nivel_estoque = p;
        },
        None => {},
    }
    match porta_nova {
        Some(aberta) => {
            estado.definir_porta(aberta, agora);
        },
        None => {},
    }
    resposta_fixa("GERENCIADOR/1.0 200 OK\r\n\r\n")
}

/// What a client command does: `GET_STATUS` reports the unit, `SET_LIMIT`
/// stores a threshold inside the physical range, `SET_PORTA` records the door
/// (case-insensitively), and anything else — a missing argument, a value out
/// of range, an unknown command — is refused without touching the record.
pub open spec fn spec_comando_cliente(toks: Seq<Seq<u8>>, e: EstadoSistema, agora: u64) -> (
    EstadoSistema,
    Seq<u8>,
) {
    if toks.len() < 2 {
        (e, resposta_erro())
    } else if toks[1] == "GET_STATUS".spec_bytes() {
        (e, resposta_status(e))
    } else if toks[1] == "SET_LIMIT".spec_bytes() {
        if toks.len() >= 3 {
            match analisa_decimos(toks[2]) {
                Some(v) => if TEMP_MIN_DECIMOS <= v <= TEMP_MAX_DECIMOS {
                    (EstadoSistema { temperatura_ideal: v as i32, ..e }, resposta_limite(v))
                } else {
                    (e, resposta_erro())
                },
                None => (e, resposta_erro()),
            }
        } else {
            (e, resposta_erro())
        }
    } else if toks[1] == "SET_PORTA".spec_bytes() {
        if toks.len() >= 3 {
            if iguais_sem_caixa(toks[2], "ABERTA".spec_bytes()) {
                (e.spec_definir_porta(true, agora), resposta_porta(true))
            } else if iguais_sem_caixa(toks[2], "FECHADA".spec_bytes()) {
                (e.spec_definir_porta(false, agora), resposta_porta(false))
            } else {
                (e, resposta_erro())
            }
        } else {
            (e, resposta_erro())
        }
    } else {
        (e, resposta_erro())
    }
}

/// Build the status report of the record.
fn montar_status(estado: &EstadoSistema) -> (resposta: Vec<u8>)
    requires
        estado.bem_formado(),
    ensures
        resposta@ == resposta_status(*estado),
{
    let mut resposta = resposta_fixa("GERENCIADOR/1.0 200 OK\r\nTEMPERATURA: ");
    let mut decimos = formatar_decimos(estado.temperatura_interna);
    resposta.append(&mut decimos);
    anexar_texto(&mut resposta, "\r\nPORTA: ");
    if estado.porta_aberta {
        anexar_texto(&mut resposta, "ABERTA");
    } else {
        anexar_texto(&mut resposta, "FECHADA");
    }
    anexar_texto(&mut resposta, "\r\nREFRIGERADOR: ");
    if estado.refrigerador_ligado {
        anexar_texto(&mut resposta, "LIGADO");
    } else {
        anexar_texto(&mut resposta, "DESLIGADO");
    }
    anexar_texto(&mut resposta, "\r\nALARME: ");
    if estado.alarme_ativado {
        anexar_texto(&mut resposta, "ATIVADO");
    } else {
        anexar_texto(&mut resposta, "NORMAL");
    }
    anexar_texto(&mut resposta, "\r\n\r\n");
    resposta
}

/// Handle a client command (tokens of the whole message, the protocol token
/// first).
pub fn handle_client_command(tokens: &Vec<Vec<u8>>, estado: &mut EstadoSistema, agora: u64) -> (
    resposta: Vec<u8>)
    requires
        old(estado).bem_formado(),
    ensures
        final(estado).bem_formado(),
        *final(estado) == spec_comando_cliente(vistas(tokens@), *old(estado), agora).0,
        resposta@ == spec_comando_cliente(vistas(tokens@), *old(estado), agora).1,
{
    proof {
        if tokens@.len() >= 2 {
            assert(vistas(tokens@)[1] == tokens@[1]@);
        }
        if tokens@.len() >= 3 {
            assert(vistas(tokens@)[2] == tokens@[2]@);
        }
    }
    if tokens.len() < 2 {
        return resposta_fixa("GERENCIADOR/1.0 400 ERROR\r\n\r\n");
    }
    let comando = &tokens[1];
    if bytes_iguais(comando.as_slice(), "GET_STATUS".as_bytes()) {
        montar_status(estado)
    } else if bytes_iguais(comando.as_slice(), "SET_LIMIT".as_bytes()) {
        if tokens.len() >= 3 {
            let valor = &tokens[2];
            match analisar_decimos(valor.as_slice()) {
                Some(v) => {
                    if TEMP_MIN_DECIMOS <= v && v <= TEMP_MAX_DECIMOS {
                        estado.temperatura_ideal = v;
                        let mut resposta = resposta_fixa("GERENCIADOR/1.0 200 OK\r\nLIMITE: ");
                        let mut decimos = formatar_decimos(v);
                        resposta.append(&mut decimos);
                        anexar_texto(&mut resposta, "\r\n\r\n");
                        resposta
                    } else {
                        resposta_fixa("GERENCIADOR/1.0 400 ERROR\r\n\r\n")
                    }
                },
                None => resposta_fixa("GERENCIADOR/1.0 400 ERROR\r\n\r\n"),
            }
        } else {
            resposta_fixa("GERENCIADOR/1.0 400 ERROR\r\n\r\n")
        }
    } else if bytes_iguais(comando.as_slice(), "SET_PORTA".as_bytes()) {
        if tokens.len() >= 3 {
            let valor = &tokens[2];
            if bytes_iguais_sem_caixa(valor.as_slice(), "ABERTA".as_bytes()) {
                estado.definir_porta(true, agora);
                let mut resposta = resposta_fixa("GERENCIADOR/1.0 200 OK\r\nPORTA: ");
                anexar_texto(&mut resposta, "ABERTA");
                anexar_texto(&mut resposta, "\r\n\r\n");
                resposta
            } else if bytes_iguais_sem_caixa(valor.as_slice(), "FECHADA".as_bytes()) {
                estado.definir_porta(false, agora);
                let mut resposta = resposta_fixa("GERENCIADOR/1.0 200 OK\r\nPORTA: ");
                anexar_texto(&mut resposta, "FECHADA");
                anexar_texto(&mut resposta, "\r\n\r\n");
                resposta
            } else {
                resposta_fixa("GERENCIADOR/1.0 400 ERROR\r\n\r\n")
            }
        } else {
            resposta_fixa("GERENCIADOR/1.0 400 ERROR\r\n\r\n")
        }
    } else {
        resposta_fixa("GERENCIADOR/1.0 400 ERROR\r\n\r\n")
    }
}

/// Whether the message is a handshake: any token reads `IDENTIFY`.
pub open spec fn eh_identify(toks: Seq<Seq<u8>>) -> bool {
    exists|i: int| 0 <= i < toks.len() && toks[i] == "IDENTIFY".spec_bytes()
}

/// The identity a message names: the token after the first `ID` keyword,
/// read as a UUID; `None` when there is no such token or it is no UUID.
pub open spec fn identidade_em(toks: Seq<Seq<u8>>, i: int) -> Option<u128>
    decreases toks.len() - i,
{
    if !(0 <= i < toks.len()) {
        None
    } else if toks[i] == "ID".spec_bytes() && i + 1 < toks.len() {
        uuid_of(toks[i + 1])
    } else {
        identidade_em(toks, i + 1)
    }
}

/// Whether any token of the message reads `IDENTIFY`.
fn contem_identify(tokens: &Vec<Vec<u8>>) -> (achado: bool)
    ensures
        achado == eh_identify(vistas(tokens@)),
{
    let mut i: usize = 0;
    while i < tokens.len()
        invariant
            0 <= i <= tokens@.len(),
            forall|m: int|
                0 <= m < i ==> vistas(tokens@)[m] != "IDENTIFY".spec_bytes(),
        decreases tokens@.len() - i,
    {
        proof {
            assert(vistas(tokens@)[i as int] == tokens@[i as int]@);
        }
        if bytes_iguais(tokens[i].as_slice(), "IDENTIFY".as_bytes()) {
            return true;
        }
        i += 1;
    }
    false
}

/// Find the identity the message names.
fn achar_identidade(tokens: &Vec<Vec<u8>>) -> (identidade: Option<u128>)
    ensures
        identidade == identidade_em(vistas(tokens@), 0),
{
    let ghost toks = vistas(tokens@);
    let mut i: usize = 0;
    while i < tokens.len()
        invariant
            0 <= i <= tokens@.len(),
            toks == vistas(tokens@),
            toks.len() == tokens@.len(),
            identidade_em(toks, 0) == identidade_em(toks, i as int),
        decreases tokens@.len() - i,
    {
        proof {
            assert(toks[i as int] == tokens@[i as int]@);
            if i + 1 < tokens.len() {
                assert(toks[i as int + 1] == tokens@[i as int + 1]@);
            }
        }
        if bytes_iguais(tokens[i].as_slice(), "ID".as_bytes()) && i + 1 < tokens.len() {
            return analisar_uuid(tokens[i + 1].as_slice());
        }
        i += 1;
    }
    None
}

/// What the dispatcher answers and how it changes the record: handshakes are
/// acknowledged, sensor reports are validated and applied only for confirmed
/// devices, actuator messages other than handshakes are refused, client
/// commands run, and anything else is an error.
pub open spec fn spec_processar(
    toks: Seq<Seq<u8>>,
    e: EstadoSistema,
    confirmados: Set<u128>,
    agora: u64,
) -> (EstadoSistema, Seq<u8>) {
    if toks.len() == 0 {
        (e, resposta_erro())
    } else if toks[0] == "SENSOR/1.0".spec_bytes() || toks[0] == "ACTUATOR/1.0".spec_bytes() {
        if eh_identify(toks) {
            (e, resposta_ok())
        } else if toks[0] == "SENSOR/1.0".spec_bytes() {
            match identidade_em(toks, 0) {
                Some(id) => if confirmados.contains(id) {
                    match analisa_leituras(toks, 1, atualizacao_vazia()) {
                        Ok(atu) => (spec_aplicar_leituras(e, atu, agora), resposta_ok()),
                        Err(erro) => (e, resposta_de_erro(erro)),
                    }
                } else {
                    (e, resposta_nao_confirmado())
                },
                None => (e, resposta_nao_confirmado()),
            }
        } else {
            (e, resposta_nao_confirmado())
        }
    } else if toks[0] == "CLIENT/1.0".spec_bytes() {
        spec_comando_cliente(toks, e, agora)
    } else {
        (e, resposta_erro())
    }
}

/// The identity whose pending registration the message consumes: present only
/// for a sensor or actuator handshake that names a known textual UUID.
pub open spec fn spec_identidade_identify(toks: Seq<Seq<u8>>) -> Option<u128> {
    if toks.len() > 0 && (toks[0] == "SENSOR/1.0".spec_bytes() || toks[0]
        == "ACTUATOR/1.0".spec_bytes()) && eh_identify(toks) {
        identidade_em(toks, 0)
    } else {
        None
    }
}

/// Dispatch one framed request: parse it, answer it, and perform its effect
/// on the record and — for a handshake — on the registry.
pub fn process_request(
    req: &[u8],
    estado: &mut EstadoSistema,
    registro: &mut Registro,
    agora: u64,
) -> (resposta: Vec<u8>)
    requires
        old(estado).bem_formado(),
    ensures
        final(estado).bem_formado(),
        *final(estado) == spec_processar(
            tokens_de(req@),
            *old(estado),
            old(registro).confirmados@,
            agora,
        ).0,
        resposta@ == spec_processar(
            tokens_de(req@),
            *old(estado),
            old(registro).confirmados@,
            agora,
        ).1,
        match spec_identidade_identify(tokens_de(req@)) {
            Some(id) => final(registro).pendentes@ == old(registro).pendentes@.remove(id)
                && final(registro).confirmados@ == (if old(registro).pendentes@.contains_key(id) {
                old(registro).confirmados@.insert(id)
            } else {
                old(registro).confirmados@
            }),
            None => *final(registro) == *old(registro),
        },
{
    let tokens = tokenizar(req);
    proof {
        if tokens@.len() > 0 {
            assert(vistas(tokens@)[0] == tokens@[0]@);
        }
    }
    if tokens.len() == 0 {
        return resposta_fixa("GERENCIADOR/1.0 400 ERROR\r\n\r\n");
    }
    let eh_sensor = bytes_iguais(tokens[0].as_slice(), "SENSOR/1.0".as_bytes());
    let eh_atuador = bytes_iguais(tokens[0].as_slice(), "ACTUATOR/1.0".as_bytes());
    if eh_sensor || eh_atuador {
        if contem_identify(&tokens) {
            match achar_identidade(&tokens) {
                Some(id) => {
                    let _ = registro.entregar_confirmacao(
                        id,
                        "GERENCIADOR/1.0 200 OK\r\n\r\n".to_owned(),
                    );
                },
                None => {},
            }
            resposta_fixa("GERENCIADOR/1.0 200 OK\r\n\r\n")
        } else if eh_sensor {
            match achar_identidade(&tokens) {
                Some(id) => {
                    if registro.esta_confirmado(id) {
                        handle_sensor_data(&tokens, estado, agora)
                    } else {
                        resposta_fixa("GERENCIADOR/1.0 403 COMANDO AUTOMATICO\r\n\r\n")
                    }
                },
                None => resposta_fixa("GERENCIADOR/1.0 403 COMANDO AUTOMATICO\r\n\r\n"),
            }
        } else {
            resposta_fixa("GERENCIADOR/1.0 403 COMANDO AUTOMATICO\r\n\r\n")
        }
    } else if bytes_iguais(tokens[0].as_slice(), "CLIENT/1.0".as_bytes()) {
        handle_client_command(&tokens, estado, agora)
    } else {
        resposta_fixa("GERENCIADOR/1.0 400 ERROR\r\n\r\n")
    }
}

/// The three client keywords differ as byte strings: two by length, the last
/// pair by its fifth byte.
proof fn lema_comandos_distintos()
    ensures
        "SET_PORTA".spec_bytes() != "GET_STATUS".spec_bytes(),
        "SET_PORTA".spec_bytes() != "SET_LIMIT".spec_bytes(),
{
    reveal_strlit("SET_PORTA");
    reveal_strlit("GET_STATUS");
    reveal_strlit("SET_LIMIT");
    assert(vstd::utf8::is_ascii_chars("SET_PORTA"@));
    assert(vstd::utf8::is_ascii_chars("GET_STATUS"@));
    assert(vstd::utf8::is_ascii_chars("SET_LIMIT"@));
    vstd::utf8::is_ascii_chars_encode_utf8("SET_PORTA"@);
    vstd::utf8::is_ascii_chars_encode_utf8("GET_STATUS"@);
    vstd::utf8::is_ascii_chars_encode_utf8("SET_LIMIT"@);
    assert("SET_PORTA".spec_bytes().len() == 9);
    assert("GET_STATUS".spec_bytes().len() == 10);
    assert("SET_PORTA"@[4] == 'P');
    assert("SET_LIMIT"@[4] == 'L');
    assert("SET_PORTA".spec_bytes()[4] == 'P' as u8);
    assert("SET_LIMIT".spec_bytes()[4] == 'L' as u8);
}

/// Sending `SET_PORTA ABERTA` twice in a row reports the door open both
/// times and starts the alarm grace timer only once: the second command
/// leaves the record exactly as the first left it, the timer included.
pub proof fn lema_set_porta_idempotente(
    toks: Seq<Seq<u8>>,
    e: EstadoSistema,
    agora1: u64,
    agora2: u64,
)
    requires
        toks.len() >= 3,
        toks[1] == "SET_PORTA".spec_bytes(),
        iguais_sem_caixa(toks[2], "ABERTA".spec_bytes()),
    ensures
        spec_comando_cliente(toks, e, agora1).0.porta_aberta,
        spec_comando_cliente(toks, spec_comando_cliente(toks, e, agora1).0, agora2).0
            == spec_comando_cliente(toks, e, agora1).0,
        spec_comando_cliente(toks, spec_comando_cliente(toks, e, agora1).0, agora2).0.porta_aberta,
{
    lema_comandos_distintos();
}

/// Every temperature reading worth a value outside the physical range of
/// -20.0 °C to 50.0 °C — or no value at all — fails the report it leads:
/// the scan returns the temperature validation error, so the handler leaves
/// the record unchanged and answers the temperature refusal.
pub proof fn lema_rejeita_temperatura_fora(
    cabeca: Seq<u8>,
    valor: Seq<u8>,
    resto: Seq<Seq<u8>>,
    acc: Atualizacao,
)
    requires
        match analisa_decimos(valor) {
            Some(v) => !(TEMP_MIN_DECIMOS <= v <= TEMP_MAX_DECIMOS),
            None => true,
        },
    ensures
        analisa_leituras(
            seq![cabeca, "TEMPERATURA".spec_bytes(), valor] + resto,
            1,
            acc,
        ) == Err::<Atualizacao, ErroLeitura>(ErroLeitura::Temperatura),
{
    let toks = seq![cabeca, "TEMPERATURA".spec_bytes(), valor] + resto;
    assert(toks[1] == "TEMPERATURA".spec_bytes());
    assert(toks[2] == valor);
}

/// The three reading keywords have different lengths, so their byte forms
/// differ.
proof fn lema_palavras_chave_distintas()
    ensures
        "ESTOQUE".spec_bytes() != "TEMPERATURA".spec_bytes(),
        "ESTOQUE".spec_bytes() != "PORTA".spec_bytes(),
{
    reveal_strlit("ESTOQUE");
    reveal_strlit("TEMPERATURA");
    reveal_strlit("PORTA");
    assert(vstd::utf8::is_ascii_chars("ESTOQUE"@));
    assert(vstd::utf8::is_ascii_chars("TEMPERATURA"@));
    assert(vstd::utf8::is_ascii_chars("PORTA"@));
    vstd::utf8::is_ascii_chars_encode_utf8("ESTOQUE"@);
    vstd::utf8::is_ascii_chars_encode_utf8("TEMPERATURA"@);
    vstd::utf8::is_ascii_chars_encode_utf8("PORTA"@);
    assert("ESTOQUE".spec_bytes().len() == 7);
    assert("TEMPERATURA".spec_bytes().len() == 11);
    assert("PORTA".spec_bytes().len() == 5);
}

/// Every stock reading whose token is not a digit run worth 0 to 100 fails
/// the report it leads: the scan returns the stock validation error, so the
/// handler leaves the record unchanged and answers the stock refusal.
pub proof fn lema_rejeita_estoque_fora(
    cabeca: Seq<u8>,
    valor: Seq<u8>,
    resto: Seq<Seq<u8>>,
    acc: Atualizacao,
)
    requires
        analisa_estoque(valor) is None,
    ensures
        analisa_leituras(seq![cabeca, "ESTOQUE".spec_bytes(), valor] + resto, 1, acc)
            == Err::<Atualizacao, ErroLeitura>(ErroLeitura::Estoque),
{
    lema_palavras_chave_distintas();
    let toks = seq![cabeca, "ESTOQUE".spec_bytes(), valor] + resto;
    assert(toks[1] == "ESTOQUE".spec_bytes());
    assert(toks[2] == valor);
}

} // verus!
