//! Numbers on the wire.
//!
//! The protocol carries temperatures as decimal numerals with at most one
//! fraction digit (the dialect every formatter of this unit emits), and
//! stock levels as plain digit runs. This module parses those numerals into
//! whole tenths and formats tenths back, with exact specifications.

use vstd::prelude::*;

verus! {

/// Largest integer part a temperature numeral may carry. Anything above is
/// rejected as out of range long before the physical range check applies.
pub const TETO_INTEIRO: u64 = 100000;

/// Whether `b` is an ASCII digit.
pub open spec fn eh_digito(b: u8) -> bool {
    48 <= b <= 57
}

/// Whether `s` consists of ASCII digits only.
pub open spec fn so_digitos(s: Seq<u8>) -> bool {
    forall|i: int| 0 <= i < s.len() ==> eh_digito(#[trigger] s[i])
}

/// The value of a run of ASCII digits, most significant first.
pub open spec fn valor_digitos(s: Seq<u8>) -> nat
    decreases s.len(),
{
    if s.len() == 0 {
        0
    } else {
        valor_digitos(s.drop_last()) * 10 + (s.last() - 48) as nat
    }
}

/// Extending a digit run by one digit multiplies its value by ten.
proof fn lema_valor_passo(s: Seq<u8>, i: int)
    requires
        0 <= i < s.len(),
    ensures
        valor_digitos(s.take(i + 1)) == valor_digitos(s.take(i)) * 10 + (s[i] - 48) as nat,
{
    assert(s.take(i + 1).drop_last() =~= s.take(i));
    assert(s.take(i + 1).last() == s[i]);
}

/// A digit run is worth at least any of its prefixes.
proof fn lema_valor_prefixo(s: Seq<u8>, i: int)
    requires
        0 <= i <= s.len(),
    ensures
        valor_digitos(s) >= valor_digitos(s.take(i)),
    decreases s.len() - i,
{
    if i == s.len() {
        assert(s.take(i) =~= s);
    } else {
        lema_valor_passo(s, i);
        lema_valor_prefixo(s, i + 1);
    }
}

/// Parses a non-empty run of ASCII digits, refusing values above `teto`.
fn analisar_digitos(s: &[u8], teto: u64) -> (r: Option<u64>)
    requires
        teto <= 0x7fff_ffff,
    ensures
        match r {
            Some(v) => {
                &&& so_digitos(s@)
                &&& s@.len() >= 1
                &&& v == valor_digitos(s@)
                &&& v <= teto
            },
            None => !(so_digitos(s@) && s@.len() >= 1 && valor_digitos(s@) <= teto),
        },
{
    if s.len() == 0 {
        return None;
    }
    let mut acumulado: u64 = 0;
    let mut i: usize = 0;
    while i < s.len()
        invariant
            0 <= i <= s@.len(),
            teto <= 0x7fff_ffff,
            acumulado == valor_digitos(s@.take(i as int)),
            acumulado <= teto,
            forall|j: int| 0 <= j < i ==> eh_digito(#[trigger] s@[j]),
        decreases s@.len() - i,
    {
        let b = s[i];
        if b < 48 || b > 57 {
            return None;
        }
        proof {
            lema_valor_passo(s@, i as int);
        }
        let proximo: u64 = acumulado * 10 + (b - 48) as u64;
        if proximo > teto {
            proof {
                if so_digitos(s@) {
                    lema_valor_prefixo(s@, i + 1);
                }
            }
            return None;
        }
        acumulado = proximo;
        i += 1;
    }
    proof {
        assert(s@.take(i as int) =~= s@);
    }
    Some(acumulado)
}

/// The numeral body once a leading minus sign is stripped.
pub open spec fn corpo_sem_sinal(s: Seq<u8>) -> Seq<u8> {
    if s.len() > 0 && s[0] == 45 {
        s.skip(1)
    } else {
        s
    }
}

/// Whether the body carries a fraction digit (a dot in the next-to-last place).
pub open spec fn tem_fracao(c: Seq<u8>) -> bool {
    c.len() >= 2 && c[c.len() - 2] == 46
}

/// The digits before the dot, or the whole body when there is no dot.
pub open spec fn parte_inteira(c: Seq<u8>) -> Seq<u8> {
    if tem_fracao(c) {
        c.take(c.len() - 2)
    } else {
        c
    }
}

/// The value of the fraction digit, zero when there is none.
pub open spec fn digito_fracao(c: Seq<u8>) -> nat {
    if tem_fracao(c) {
        (c.last() - 48) as nat
    } else {
        0
    }
}

/// Whether the body matches the dialect's grammar: one or more digits,
/// optionally followed by a dot and exactly one digit.
pub open spec fn corpo_valido(c: Seq<u8>) -> bool {
    &&& parte_inteira(c).len() >= 1
    &&& so_digitos(parte_inteira(c))
    &&& (tem_fracao(c) ==> eh_digito(c.last()))
}

/// The tenths a temperature numeral stands for: `Some` exactly when the
/// token is an optional minus sign, digits, and an optional single fraction
/// digit, with an integer part of at most [`TETO_INTEIRO`].
pub open spec fn analisa_decimos(s: Seq<u8>) -> Option<int> {
    let neg = s.len() > 0 && s[0] == 45;
    let c = corpo_sem_sinal(s);
    if corpo_valido(c) && valor_digitos(parte_inteira(c)) <= TETO_INTEIRO {
        let mag = valor_digitos(parte_inteira(c)) * 10 + digito_fracao(c);
        Some(if neg { -(mag as int) } else { mag as int })
    } else {
        None
    }
}

/// Parse a temperature numeral into whole tenths.
pub fn analisar_decimos(s: &[u8]) -> (r: Option<i32>)
    ensures
        match r {
            Some(v) => analisa_decimos(s@) == Some(v as int),
            None => analisa_decimos(s@) is None,
        },
{
    let ghost c = corpo_sem_sinal(s@);
    let negativo = s.len() > 0 && s[0] == 45;
    let corpo: &[u8] = if negativo {
        vstd::slice::slice_subrange(s, 1, s.len())
    } else {
        s
    };
    proof {
        assert(corpo@ =~= c);
    }
    let com_fracao = corpo.len() >= 2 && corpo[corpo.len() - 2] == 46;
    let inteira: &[u8] = if com_fracao {
        vstd::slice::slice_subrange(corpo, 0, corpo.len() - 2)
    } else {
        corpo
    };
    proof {
        assert(inteira@ =~= parte_inteira(c));
    }
    if com_fracao {
        let ultimo = corpo[corpo.len() - 1];
        if ultimo < 48 || ultimo > 57 {
            return None;
        }
    }
    let valor_inteira = match analisar_digitos(inteira, TETO_INTEIRO) {
        Some(v) => v,
        None => {
            return None;
        },
    };
    let fracao: u64 = if com_fracao {
        (corpo[corpo.len() - 1] - 48) as u64
    } else {
        0
    };
    let magnitude: u64 = valor_inteira * 10 + fracao;
    if negativo {
        Some(-(magnitude as i32))
    } else {
        Some(magnitude as i32)
    }
}

/// The stock level a token stands for: `Some` exactly when the token is a
/// non-empty digit run worth at most 100.
pub open spec fn analisa_estoque(s: Seq<u8>) -> Option<u8> {
    if so_digitos(s) && s.len() >= 1 && valor_digitos(s) <= 100 {
        Some(valor_digitos(s) as u8)
    } else {
        None
    }
}

/// Parse a stock-level token.
pub fn analisar_estoque(s: &[u8]) -> (r: Option<u8>)
    ensures
        r == analisa_estoque(s@),
{
    match analisar_digitos(s, 100) {
        Some(v) => Some(v as u8),
        None => None,
    }
}

/// The decimal numeral of `n`, most significant digit first.
pub open spec fn bytes_decimais(n: nat) -> Seq<u8>
    decreases n,
{
    if n < 10 {
        seq![(48 + n) as u8]
    } else {
        bytes_decimais(n / 10).push((48 + n % 10) as u8)
    }
}

/// Format a whole number as its decimal numeral.
pub fn formatar_u32(n: u32) -> (v: Vec<u8>)
    ensures
        v@ == bytes_decimais(n as nat),
    decreases n,
{
    if n < 10 {
        let mut v: Vec<u8> = Vec::new();
        v.push(48 + n as u8);
        proof {
            assert(v@ =~= bytes_decimais(n as nat));
        }
        v
    } else {
        let mut v = formatar_u32(n / 10);
        v.push(48 + (n % 10) as u8);
        v
    }
}

/// The wire form of a tenths value: optional minus sign, the whole degrees,
/// a dot, and one fraction digit.
pub open spec fn bytes_decimos(t: int) -> Seq<u8> {
    let mag = if t < 0 { -t } else { t };
    let sinal: Seq<u8> = if t < 0 { seq![45u8] } else { Seq::empty() };
    sinal + bytes_decimais((mag / 10) as nat) + seq![46u8, (48 + mag % 10) as u8]
}

/// Format a tenths value as the protocol writes temperatures.
pub fn formatar_decimos(t: i32) -> (v: Vec<u8>)
    requires
        -1000000000 <= t <= 1000000000,
    ensures
        v@ == bytes_decimos(t as int),
{
    let mut v: Vec<u8> = Vec::new();
    let magnitude: u32 = if t < 0 {
        v.push(45);
        (-(t as i64)) as u32
    } else {
        t as u32
    };
    let mut inteiros = formatar_u32(magnitude / 10);
    v.append(&mut inteiros);
    v.push(46);
    v.push(48 + (magnitude % 10) as u8);
    proof {
        assert(v@ =~= bytes_decimos(t as int));
    }
    v
}

} // verus!
