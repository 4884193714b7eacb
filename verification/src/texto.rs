//! Tokens on the wire.
//!
//! A request arrives as one framed line of bytes. The dispatcher reads it as
//! the sequence of its whitespace-separated tokens; this module produces that
//! sequence and compares tokens, with exact specifications.

use vstd::prelude::*;

verus! {

/// Whether `b` is protocol whitespace: space, tab, carriage return, newline.
pub open spec fn eh_espaco(b: u8) -> bool {
    b == 32 || b == 9 || b == 13 || b == 10
}

/// Length of the token at the head of `s`: the run of non-whitespace bytes.
pub open spec fn comprimento_token(s: Seq<u8>) -> nat
    decreases s.len(),
{
    if s.len() == 0 || eh_espaco(s[0]) {
        0
    } else {
        1 + comprimento_token(s.skip(1))
    }
}

/// The head token never runs past the end of the input.
pub proof fn lema_comprimento_token_limite(s: Seq<u8>)
    ensures
        comprimento_token(s) <= s.len(),
    decreases s.len(),
{
    if s.len() == 0 || eh_espaco(s[0]) {
    } else {
        lema_comprimento_token_limite(s.skip(1));
    }
}

/// A run of `k` non-whitespace bytes ended by whitespace or the end of the
/// input is exactly the head token.
proof fn lema_comprimento_token_igual(t: Seq<u8>, k: int)
    requires
        0 <= k <= t.len(),
        forall|m: int| 0 <= m < k ==> !eh_espaco(#[trigger] t[m]),
        k == t.len() || eh_espaco(t[k]),
    ensures
        comprimento_token(t) == k,
    decreases k,
{
    if k > 0 {
        lema_comprimento_token_igual(t.skip(1), k - 1);
    }
}

/// The whitespace-separated tokens of `s`, in order.
pub open spec fn tokens_de(s: Seq<u8>) -> Seq<Seq<u8>>
    decreases s.len(),
{
    if s.len() == 0 {
        Seq::empty()
    } else if eh_espaco(s[0]) {
        tokens_de(s.skip(1))
    } else {
        proof {
            lema_comprimento_token_limite(s);
        }
        let k = comprimento_token(s) as int;
        seq![s.take(k)] + tokens_de(s.skip(k))
    }
}

/// The views of a vector of tokens.
pub open spec fn vistas(tokens: Seq<Vec<u8>>) -> Seq<Seq<u8>> {
    tokens.map_values(|t: Vec<u8>| t@)
}

/// Whether `b` is protocol whitespace.
fn espaco(b: u8) -> (r: bool)
    ensures
        r == eh_espaco(b),
{
    b == 32 || b == 9 || b == 13 || b == 10
}

/// Split a request into its whitespace-separated tokens.
pub fn tokenizar(s: &[u8]) -> (tokens: Vec<Vec<u8>>)
    ensures
        vistas(tokens@) == tokens_de(s@),
{
    let mut tokens: Vec<Vec<u8>> = Vec::new();
    let mut i: usize = 0;
    proof {
        assert(s@.skip(0) =~= s@);
        assert(vistas(tokens@) + tokens_de(s@) =~= tokens_de(s@));
    }
    while i < s.len()
        invariant
            0 <= i <= s@.len(),
            vistas(tokens@) + tokens_de(s@.skip(i as int)) == tokens_de(s@),
        decreases s@.len() - i,
    {
        if espaco(s[i]) {
            proof {
                assert(s@.skip(i as int).skip(1) =~= s@.skip(i as int + 1));
            }
            i += 1;
        } else {
            let inicio = i;
            let mut j = i + 1;
            while j < s.len() && !espaco(s[j])
                invariant
                    inicio < j <= s@.len(),
                    inicio < s@.len(),
                    forall|m: int| inicio <= m < j && m < s@.len() ==> !eh_espaco(#[trigger] s@[m]),
                decreases s@.len() - j,
            {
                j += 1;
            }
            let ghost resto = s@.skip(inicio as int);
            proof {
                let k = j - inicio;
                assert forall|m: int| 0 <= m < k implies !eh_espaco(#[trigger] resto[m]) by {
                    assert(resto[m] == s@[inicio + m]);
                }
                if j < s@.len() {
                    assert(eh_espaco(resto[k]));
                }
                lema_comprimento_token_igual(resto, k);
                assert(resto.take(k) =~= s@.subrange(inicio as int, j as int));
                assert(resto.skip(k) =~= s@.skip(j as int));
            }
            let pedaco = vstd::slice::slice_subrange(s, inicio, j);
            let token = vstd::slice::slice_to_vec(pedaco);
            let ghost antes = tokens@;
            tokens.push(token);
            proof {
                assert(vistas(tokens@) =~= vistas(antes).push(token@));
                assert(vistas(antes).push(token@) + tokens_de(s@.skip(j as int)) =~= vistas(
                    antes,
                ) + tokens_de(s@.skip(inicio as int)));
            }
            i = j;
        }
    }
    proof {
        assert(s@.skip(i as int) =~= Seq::<u8>::empty());
        assert(vistas(tokens@) + tokens_de(s@.skip(i as int)) =~= vistas(tokens@));
    }
    tokens
}

/// Compare two byte strings for equality.
pub fn bytes_iguais(a: &[u8], b: &[u8]) -> (r: bool)
    ensures
        r <==> a@ == b@,
{
    if a.len() != b.len() {
        return false;
    }
    let mut i: usize = 0;
    while i < a.len()
        invariant
            0 <= i <= a@.len(),
            a@.len() == b@.len(),
            forall|m: int| 0 <= m < i ==> a@[m] == b@[m],
        decreases a@.len() - i,
    {
        if a[i] != b[i] {
            return false;
        }
        i += 1;
    }
    proof {
        assert(a@ =~= b@);
    }
    true
}

/// The upper-case form of an ASCII byte; other bytes are left alone.
pub open spec fn maiuscula(b: u8) -> u8 {
    if 97 <= b <= 122 {
        (b - 32) as u8
    } else {
        b
    }
}

/// Byte-string equality up to ASCII case.
pub open spec fn iguais_sem_caixa(a: Seq<u8>, b: Seq<u8>) -> bool {
    &&& a.len() == b.len()
    &&& forall|i: int| 0 <= i < a.len() ==> maiuscula(#[trigger] a[i]) == maiuscula(b[i])
}

/// Compare two byte strings for equality up to ASCII case.
pub fn bytes_iguais_sem_caixa(a: &[u8], b: &[u8]) -> (r: bool)
    ensures
        r == iguais_sem_caixa(a@, b@),
{
    if a.len() != b.len() {
        return false;
    }
    let mut i: usize = 0;
    while i < a.len()
        invariant
            0 <= i <= a@.len(),
            a@.len() == b@.len(),
            forall|m: int| 0 <= m < i ==> maiuscula(#[trigger] a@[m]) == maiuscula(b@[m]),
        decreases a@.len() - i,
    {
        let ca = if 97 <= a[i] && a[i] <= 122 {
            a[i] - 32
        } else {
            a[i]
        };
        let cb = if 97 <= b[i] && b[i] <= 122 {
            b[i] - 32
        } else {
            b[i]
        };
        if ca != cb {
            return false;
        }
        i += 1;
    }
    true
}

} // verus!
