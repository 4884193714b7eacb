use camara_fria::controle::{passo, passo_controle};
use camara_fria::dispositivos::{executar_comando, texto_comando, Acao, TipoAtuador, TipoSensor};
use camara_fria::estado::EstadoSistema;
use camara_fria::roteador::Roteador;

const ID_REFRIGERADOR: u128 = 4;
const ID_LUZ: u128 = 5;
const ID_ALARME: u128 = 6;

fn estado_novo() -> EstadoSistema {
    EstadoSistema::novo(1, 2, 3, ID_REFRIGERADOR, ID_LUZ, ID_ALARME)
}

#[test]
fn porta_aberta_liga_a_luz_uma_vez() {
    let mut estado = estado_novo();
    estado.definir_porta(true, 0);
    let comandos = passo(&mut estado, 1);
    assert!(estado.luz_ligada);
    assert_eq!(comandos.len(), 1);
    assert_eq!(comandos[0].alvo, ID_LUZ);
    assert_eq!(comandos[0].acao, Acao::Acender);
    let comandos = passo(&mut estado, 16);
    assert!(estado.luz_ligada);
    assert!(comandos.is_empty());
}

#[test]
fn alarme_dispara_depois_da_carencia_uma_so_vez() {
    let mut estado = estado_novo();
    estado.definir_porta(true, 0);
    let comandos = passo(&mut estado, 15);
    assert!(!estado.alarme_ativado);
    assert!(comandos.iter().all(|c| c.acao != Acao::Ativar));
    let comandos = passo(&mut estado, 31);
    assert!(estado.alarme_ativado);
    let ativacoes: Vec<_> = comandos.iter().filter(|c| c.acao == Acao::Ativar).collect();
    assert_eq!(ativacoes.len(), 1);
    assert_eq!(ativacoes[0].alvo, ID_ALARME);
    let comandos = passo(&mut estado, 46);
    assert!(estado.alarme_ativado);
    assert!(comandos.iter().all(|c| c.acao != Acao::Ativar));
    let comandos = passo(&mut estado, 61);
    assert!(comandos.iter().all(|c| c.acao != Acao::Ativar));
}

#[test]
fn alarme_nao_dispara_no_limite_da_carencia() {
    let mut estado = estado_novo();
    estado.definir_porta(true, 0);
    let _ = passo(&mut estado, 30);
    assert!(!estado.alarme_ativado);
    let _ = passo(&mut estado, 31);
    assert!(estado.alarme_ativado);
}

#[test]
fn fechar_a_porta_desliga_e_limpa() {
    let mut estado = estado_novo();
    estado.definir_porta(true, 0);
    let _ = passo(&mut estado, 31);
    assert!(estado.luz_ligada && estado.alarme_ativado);
    estado.definir_porta(false, 40);
    let comandos = passo(&mut estado, 46);
    assert!(!estado.luz_ligada);
    assert!(!estado.alarme_ativado);
    assert_eq!(estado.ultima_atualizacao_porta, None);
    assert_eq!(comandos.len(), 2);
    assert_eq!(comandos[0].alvo, ID_LUZ);
    assert_eq!(comandos[0].acao, Acao::Apagar);
    assert_eq!(comandos[1].alvo, ID_ALARME);
    assert_eq!(comandos[1].acao, Acao::Desativar);
}

#[test]
fn resfriamento_liga_e_abaixa_a_temperatura() {
    let mut estado = estado_novo();
    estado.temperatura_interna = 100;
    let comandos = passo(&mut estado, 0);
    assert!(estado.refrigerador_ligado);
    assert_eq!(comandos.len(), 1);
    assert_eq!(comandos[0].alvo, ID_REFRIGERADOR);
    assert_eq!(comandos[0].acao, Acao::Ligar);
    assert_eq!(estado.temperatura_interna, 95);
    let comandos = passo(&mut estado, 15);
    assert!(comandos.is_empty());
    assert_eq!(estado.temperatura_interna, 90);
}

#[test]
fn resfriamento_desliga_no_limite() {
    let mut estado = estado_novo();
    estado.temperatura_interna = 44;
    let _ = passo(&mut estado, 0);
    assert!(estado.refrigerador_ligado);
    assert_eq!(estado.temperatura_interna, 39);
    let comandos = passo(&mut estado, 15);
    assert!(!estado.refrigerador_ligado);
    assert_eq!(comandos.len(), 1);
    assert_eq!(comandos[0].acao, Acao::Desligar);
    assert_eq!(estado.temperatura_interna, 39);
}

#[test]
fn passo_roteia_os_comandos() {
    let mut estado = estado_novo();
    estado.definir_porta(true, 0);
    estado.temperatura_interna = 100;
    let mut roteador = Roteador::novo();
    let (tx_luz, mut rx_luz) = tokio::sync::mpsc::channel::<String>(5);
    let (tx_frio, mut rx_frio) = tokio::sync::mpsc::channel::<String>(5);
    let (tx_alarme, mut rx_alarme) = tokio::sync::mpsc::channel::<String>(5);
    assert!(roteador.registrar_canal(ID_LUZ, tx_luz));
    assert!(roteador.registrar_canal(ID_REFRIGERADOR, tx_frio));
    assert!(roteador.registrar_canal(ID_ALARME, tx_alarme));
    let comandos = passo_controle(&mut estado, 31, &roteador);
    assert_eq!(comandos.len(), 3);
    assert_eq!(rx_luz.try_recv().unwrap(), "ACENDER".to_string());
    assert_eq!(rx_alarme.try_recv().unwrap(), "ATIVAR".to_string());
    assert_eq!(rx_frio.try_recv().unwrap(), "LIGAR".to_string());
    assert!(rx_alarme.try_recv().is_err());
}

#[test]
fn rotear_sem_canal_e_silencioso() {
    let roteador = Roteador::novo();
    assert!(!roteador.rotear(99, "LIGAR".to_string()));
}

#[test]
fn rotear_com_canal_cheio_descarta() {
    let mut roteador = Roteador::novo();
    let (tx, mut rx) = tokio::sync::mpsc::channel::<String>(1);
    assert!(roteador.registrar_canal(7, tx));
    assert!(roteador.rotear(7, "LIGAR".to_string()));
    assert!(!roteador.rotear(7, "DESLIGAR".to_string()));
    assert_eq!(rx.try_recv().unwrap(), "LIGAR".to_string());
    assert!(rx.try_recv().is_err());
}

#[test]
fn canal_nao_e_substituido() {
    let mut roteador = Roteador::novo();
    let (tx1, mut rx1) = tokio::sync::mpsc::channel::<String>(5);
    let (tx2, _rx2) = tokio::sync::mpsc::channel::<String>(5);
    assert!(roteador.registrar_canal(7, tx1));
    assert!(!roteador.registrar_canal(7, tx2));
    assert!(roteador.rotear(7, "LIGAR".to_string()));
    assert_eq!(rx1.try_recv().unwrap(), "LIGAR".to_string());
}

#[test]
fn textos_dos_comandos() {
    assert_eq!(texto_comando(Acao::Ligar), "LIGAR");
    assert_eq!(texto_comando(Acao::Desligar), "DESLIGAR");
    assert_eq!(texto_comando(Acao::Acender), "ACENDER");
    assert_eq!(texto_comando(Acao::Apagar), "APAGAR");
    assert_eq!(texto_comando(Acao::Ativar), "ATIVAR");
    assert_eq!(texto_comando(Acao::Desativar), "DESATIVAR");
}

#[test]
fn atuador_executa_seu_comando() {
    let mut estado = estado_novo();
    executar_comando(&mut estado, TipoAtuador::Refrigerador, &"LIGAR".to_string());
    assert!(estado.refrigerador_ligado);
    executar_comando(&mut estado, TipoAtuador::Refrigerador, &"DESLIGAR".to_string());
    assert!(!estado.refrigerador_ligado);
    executar_comando(&mut estado, TipoAtuador::Luz, &"ACENDER".to_string());
    assert!(estado.luz_ligada);
    executar_comando(&mut estado, TipoAtuador::Alarme, &"ATIVAR".to_string());
    assert!(estado.alarme_ativado);
    executar_comando(&mut estado, TipoAtuador::Alarme, &"LIGAR".to_string());
    assert!(estado.alarme_ativado);
    executar_comando(&mut estado, TipoAtuador::Alarme, &"DESATIVAR".to_string());
    assert!(!estado.alarme_ativado);
}

#[test]
fn identidades_por_tipo() {
    let estado = estado_novo();
    assert_eq!(estado.id_sensor(TipoSensor::Temperatura), 1);
    assert_eq!(estado.id_sensor(TipoSensor::Porta), 2);
    assert_eq!(estado.id_sensor(TipoSensor::Estoque), 3);
    assert_eq!(estado.id_atuador(TipoAtuador::Refrigerador), ID_REFRIGERADOR);
    assert_eq!(estado.id_atuador(TipoAtuador::Luz), ID_LUZ);
    assert_eq!(estado.id_atuador(TipoAtuador::Alarme), ID_ALARME);
}
