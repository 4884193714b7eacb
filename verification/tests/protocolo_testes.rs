use camara_fria::estado::EstadoSistema;
use camara_fria::protocolo::process_request;
use camara_fria::registro::Registro;

const UUID_A: &str = "550e8400-e29b-41d4-a716-446655440000";
const UUID_B: &str = "67e55044-10b1-426f-9247-bb680e5fe0c8";

fn estado_novo() -> EstadoSistema {
    EstadoSistema::novo(1, 2, 3, 4, 5, 6)
}

fn id_de(texto: &str) -> u128 {
    uuid::Uuid::parse_str(texto).unwrap().as_u128()
}

/// Register a device, deliver its IDENTIFY, and hand back its receiver.
fn confirmar(
    registro: &mut Registro,
    estado: &mut EstadoSistema,
    uuid: &str,
) -> tokio::sync::oneshot::Receiver<String> {
    let (tx, rx) = tokio::sync::oneshot::channel::<String>();
    assert!(registro.registrar(id_de(uuid), tx));
    let pedido = format!("SENSOR/1.0 IDENTIFY ID {}\r\n\r\n", uuid);
    let resposta = process_request(pedido.as_bytes(), estado, registro, 0);
    assert_eq!(resposta, b"GERENCIADOR/1.0 200 OK\r\n\r\n".to_vec());
    rx
}

#[test]
fn status_do_estado_recem_iniciado() {
    let mut estado = estado_novo();
    let mut registro = Registro::novo();
    let resposta = process_request(b"CLIENT/1.0 GET_STATUS\r\n\r\n", &mut estado, &mut registro, 0);
    assert_eq!(
        resposta,
        b"GERENCIADOR/1.0 200 OK\r\nTEMPERATURA: 4.0\r\nPORTA: FECHADA\r\nREFRIGERADOR: DESLIGADO\r\nALARME: NORMAL\r\n\r\n"
            .to_vec()
    );
}

#[test]
fn set_limit_aceito() {
    let mut estado = estado_novo();
    let mut registro = Registro::novo();
    let resposta =
        process_request(b"CLIENT/1.0 SET_LIMIT 10.5\r\n\r\n", &mut estado, &mut registro, 0);
    assert_eq!(resposta, b"GERENCIADOR/1.0 200 OK\r\nLIMITE: 10.5\r\n\r\n".to_vec());
    assert_eq!(estado.temperatura_ideal, 105);
}

#[test]
fn set_limit_recusado() {
    let mut estado = estado_novo();
    let mut registro = Registro::novo();
    for pedido in [
        &b"CLIENT/1.0 SET_LIMIT abc\r\n\r\n"[..],
        b"CLIENT/1.0 SET_LIMIT\r\n\r\n",
        b"CLIENT/1.0 SET_LIMIT 50.1\r\n\r\n",
        b"CLIENT/1.0 SET_LIMIT -20.1\r\n\r\n",
    ] {
        let resposta = process_request(pedido, &mut estado, &mut registro, 0);
        assert_eq!(resposta, b"GERENCIADOR/1.0 400 ERROR\r\n\r\n".to_vec());
        assert_eq!(estado.temperatura_ideal, 40);
    }
}

#[test]
fn set_porta_abre_e_fecha() {
    let mut estado = estado_novo();
    let mut registro = Registro::novo();
    let resposta =
        process_request(b"CLIENT/1.0 SET_PORTA ABERTA\r\n\r\n", &mut estado, &mut registro, 7);
    assert_eq!(resposta, b"GERENCIADOR/1.0 200 OK\r\nPORTA: ABERTA\r\n\r\n".to_vec());
    assert!(estado.porta_aberta);
    assert_eq!(estado.ultima_atualizacao_porta, Some(7));
    let resposta =
        process_request(b"CLIENT/1.0 SET_PORTA fechada\r\n\r\n", &mut estado, &mut registro, 9);
    assert_eq!(resposta, b"GERENCIADOR/1.0 200 OK\r\nPORTA: FECHADA\r\n\r\n".to_vec());
    assert!(!estado.porta_aberta);
    assert_eq!(estado.ultima_atualizacao_porta, None);
}

#[test]
fn set_porta_repetida_nao_reinicia_o_temporizador() {
    let mut estado = estado_novo();
    let mut registro = Registro::novo();
    process_request(b"CLIENT/1.0 SET_PORTA ABERTA\r\n\r\n", &mut estado, &mut registro, 0);
    assert!(estado.porta_aberta);
    assert_eq!(estado.ultima_atualizacao_porta, Some(0));
    process_request(b"CLIENT/1.0 SET_PORTA ABERTA\r\n\r\n", &mut estado, &mut registro, 20);
    assert!(estado.porta_aberta);
    assert_eq!(estado.ultima_atualizacao_porta, Some(0));
}

#[test]
fn set_porta_token_desconhecido() {
    let mut estado = estado_novo();
    let mut registro = Registro::novo();
    let resposta =
        process_request(b"CLIENT/1.0 SET_PORTA BANANA\r\n\r\n", &mut estado, &mut registro, 0);
    assert_eq!(resposta, b"GERENCIADOR/1.0 400 ERROR\r\n\r\n".to_vec());
    assert!(!estado.porta_aberta);
}

#[test]
fn comando_de_cliente_desconhecido() {
    let mut estado = estado_novo();
    let mut registro = Registro::novo();
    let resposta = process_request(b"CLIENT/1.0 REBOOT\r\n\r\n", &mut estado, &mut registro, 0);
    assert_eq!(resposta, b"GERENCIADOR/1.0 400 ERROR\r\n\r\n".to_vec());
    let resposta = process_request(b"CLIENT/1.0\r\n\r\n", &mut estado, &mut registro, 0);
    assert_eq!(resposta, b"GERENCIADOR/1.0 400 ERROR\r\n\r\n".to_vec());
}

#[test]
fn mensagem_desconhecida() {
    let mut estado = estado_novo();
    let mut registro = Registro::novo();
    let resposta = process_request(b"GATO/1.0 MIAU\r\n\r\n", &mut estado, &mut registro, 0);
    assert_eq!(resposta, b"GERENCIADOR/1.0 400 ERROR\r\n\r\n".to_vec());
    let resposta = process_request(b"\r\n\r\n", &mut estado, &mut registro, 0);
    assert_eq!(resposta, b"GERENCIADOR/1.0 400 ERROR\r\n\r\n".to_vec());
}

#[test]
fn relato_de_dispositivo_nao_confirmado() {
    let mut estado = estado_novo();
    let mut registro = Registro::novo();
    let pedido = format!("SENSOR/1.0 TEMPERATURA 10.0 ID {}\r\n\r\n", UUID_A);
    let resposta = process_request(pedido.as_bytes(), &mut estado, &mut registro, 0);
    assert_eq!(resposta, b"GERENCIADOR/1.0 403 COMANDO AUTOMATICO\r\n\r\n".to_vec());
    assert_eq!(estado.temperatura_interna, 40);
    let resposta = process_request(b"SENSOR/1.0 TEMPERATURA 10.0\r\n\r\n", &mut estado, &mut registro, 0);
    assert_eq!(resposta, b"GERENCIADOR/1.0 403 COMANDO AUTOMATICO\r\n\r\n".to_vec());
}

#[test]
fn mensagem_de_atuador_nao_e_relato() {
    let mut estado = estado_novo();
    let mut registro = Registro::novo();
    let resposta =
        process_request(b"ACTUATOR/1.0 TEMPERATURA 10.0\r\n\r\n", &mut estado, &mut registro, 0);
    assert_eq!(resposta, b"GERENCIADOR/1.0 403 COMANDO AUTOMATICO\r\n\r\n".to_vec());
}

#[test]
fn handshake_confirma_e_aceita_relato() {
    let mut estado = estado_novo();
    let mut registro = Registro::novo();
    let mut rx = confirmar(&mut registro, &mut estado, UUID_A);
    assert_eq!(rx.try_recv().unwrap(), "GERENCIADOR/1.0 200 OK\r\n\r\n".to_string());
    let pedido = format!("SENSOR/1.0 TEMPERATURA 10.0 ID {}\r\n\r\n", UUID_A);
    let resposta = process_request(pedido.as_bytes(), &mut estado, &mut registro, 0);
    assert_eq!(resposta, b"GERENCIADOR/1.0 200 OK\r\n\r\n".to_vec());
    assert_eq!(estado.temperatura_interna, 100);
}

#[test]
fn identify_para_identidade_desconhecida_e_descartado() {
    let mut estado = estado_novo();
    let mut registro = Registro::novo();
    let pedido = format!("SENSOR/1.0 IDENTIFY ID {}\r\n\r\n", UUID_A);
    let resposta = process_request(pedido.as_bytes(), &mut estado, &mut registro, 0);
    assert_eq!(resposta, b"GERENCIADOR/1.0 200 OK\r\n\r\n".to_vec());
    assert!(!registro.esta_confirmado(id_de(UUID_A)));
}

#[test]
fn segundo_identify_nao_tem_efeito() {
    let mut estado = estado_novo();
    let mut registro = Registro::novo();
    let _rx = confirmar(&mut registro, &mut estado, UUID_A);
    assert!(registro.esta_confirmado(id_de(UUID_A)));
    let pedido = format!("SENSOR/1.0 IDENTIFY ID {}\r\n\r\n", UUID_A);
    let resposta = process_request(pedido.as_bytes(), &mut estado, &mut registro, 0);
    assert_eq!(resposta, b"GERENCIADOR/1.0 200 OK\r\n\r\n".to_vec());
    assert!(registro.esta_confirmado(id_de(UUID_A)));
}

#[test]
fn confirmacoes_nunca_se_cruzam() {
    let mut estado = estado_novo();
    let mut registro = Registro::novo();
    let (tx_a, mut rx_a) = tokio::sync::oneshot::channel::<String>();
    let (tx_b, mut rx_b) = tokio::sync::oneshot::channel::<String>();
    assert!(registro.registrar(id_de(UUID_A), tx_a));
    assert!(registro.registrar(id_de(UUID_B), tx_b));
    let pedido = format!("ACTUATOR/1.0 IDENTIFY ID {}\r\n\r\n", UUID_A);
    process_request(pedido.as_bytes(), &mut estado, &mut registro, 0);
    assert_eq!(rx_a.try_recv().unwrap(), "GERENCIADOR/1.0 200 OK\r\n\r\n".to_string());
    assert!(rx_b.try_recv().is_err());
    let pedido = format!("ACTUATOR/1.0 IDENTIFY ID {}\r\n\r\n", UUID_B);
    process_request(pedido.as_bytes(), &mut estado, &mut registro, 0);
    assert_eq!(rx_b.try_recv().unwrap(), "GERENCIADOR/1.0 200 OK\r\n\r\n".to_string());
}

#[test]
fn temperatura_fora_da_faixa_rejeitada() {
    let mut estado = estado_novo();
    let mut registro = Registro::novo();
    let _rx = confirmar(&mut registro, &mut estado, UUID_A);
    for valor in ["50.1", "-20.1", "60", "abc", "1000000000"] {
        let pedido = format!("SENSOR/1.0 TEMPERATURA {} ID {}\r\n\r\n", valor, UUID_A);
        let resposta = process_request(pedido.as_bytes(), &mut estado, &mut registro, 0);
        assert_eq!(resposta, b"GERENCIADOR/1.0 400 INVALID_TEMP\r\n\r\n".to_vec());
        assert_eq!(estado.temperatura_interna, 40);
    }
    for (valor, decimos) in [("50.0", 500), ("-20.0", -200), ("0", 0)] {
        let pedido = format!("SENSOR/1.0 TEMPERATURA {} ID {}\r\n\r\n", valor, UUID_A);
        let resposta = process_request(pedido.as_bytes(), &mut estado, &mut registro, 0);
        assert_eq!(resposta, b"GERENCIADOR/1.0 200 OK\r\n\r\n".to_vec());
        assert_eq!(estado.temperatura_interna, decimos);
    }
}

#[test]
fn estoque_fora_da_faixa_rejeitado() {
    let mut estado = estado_novo();
    let mut registro = Registro::novo();
    let _rx = confirmar(&mut registro, &mut estado, UUID_A);
    for valor in ["101", "999", "-1", "abc", "5.0"] {
        let pedido = format!("SENSOR/1.0 ESTOQUE {} ID {}\r\n\r\n", valor, UUID_A);
        let resposta = process_request(pedido.as_bytes(), &mut estado, &mut registro, 0);
        assert_eq!(resposta, b"GERENCIADOR/1.0 400 INVALID_STOCK\r\n\r\n".to_vec());
        assert_eq!(estado.nivel_estoque, 0);
    }
    let pedido = format!("SENSOR/1.0 ESTOQUE 100 ID {}\r\n\r\n", UUID_A);
    let resposta = process_request(pedido.as_bytes(), &mut estado, &mut registro, 0);
    assert_eq!(resposta, b"GERENCIADOR/1.0 200 OK\r\n\r\n".to_vec());
    assert_eq!(estado.nivel_estoque, 100);
}

#[test]
fn relato_invalido_nao_aplica_nada() {
    let mut estado = estado_novo();
    let mut registro = Registro::novo();
    let _rx = confirmar(&mut registro, &mut estado, UUID_A);
    let pedido = format!(
        "SENSOR/1.0 TEMPERATURA 10.0 PORTA BANANA ID {}\r\n\r\n",
        UUID_A
    );
    let resposta = process_request(pedido.as_bytes(), &mut estado, &mut registro, 0);
    assert_eq!(resposta, b"GERENCIADOR/1.0 400 INVALID_DOOR\r\n\r\n".to_vec());
    assert_eq!(estado.temperatura_interna, 40);
    assert!(!estado.porta_aberta);
}

#[test]
fn relato_com_varias_leituras() {
    let mut estado = estado_novo();
    let mut registro = Registro::novo();
    let _rx = confirmar(&mut registro, &mut estado, UUID_A);
    let pedido = format!(
        "SENSOR/1.0 TEMPERATURA -1.5 ESTOQUE 42 PORTA aberta ID {}\r\n\r\n",
        UUID_A
    );
    let resposta = process_request(pedido.as_bytes(), &mut estado, &mut registro, 33);
    assert_eq!(resposta, b"GERENCIADOR/1.0 200 OK\r\n\r\n".to_vec());
    assert_eq!(estado.temperatura_interna, -15);
    assert_eq!(estado.nivel_estoque, 42);
    assert!(estado.porta_aberta);
    assert_eq!(estado.ultima_atualizacao_porta, Some(33));
}

#[test]
fn status_reflete_o_estado() {
    let mut estado = estado_novo();
    let mut registro = Registro::novo();
    let _rx = confirmar(&mut registro, &mut estado, UUID_A);
    let pedido = format!("SENSOR/1.0 TEMPERATURA -0.5 PORTA ABERTA ID {}\r\n\r\n", UUID_A);
    process_request(pedido.as_bytes(), &mut estado, &mut registro, 0);
    estado.refrigerador_ligado = true;
    estado.alarme_ativado = true;
    let resposta = process_request(b"CLIENT/1.0 GET_STATUS\r\n\r\n", &mut estado, &mut registro, 0);
    assert_eq!(
        resposta,
        b"GERENCIADOR/1.0 200 OK\r\nTEMPERATURA: -0.5\r\nPORTA: ABERTA\r\nREFRIGERADOR: LIGADO\r\nALARME: ATIVADO\r\n\r\n"
            .to_vec()
    );
}
