use vstd::prelude::*;

use crate::conta::{GrupoV, Usuario};
use crate::entidade::{Entidade, nomes_de, outro_nome, tem_nome};
use crate::permissao::{permissao_de_octal, valor_octal, Permissao};

verus! {

/// Decoding the octal digit that a permission encodes to gives the same
/// permission back.
pub proof fn lei_octal_ida_e_volta(p: Permissao)
    ensures
        valor_octal(p) <= 7,
        permissao_de_octal(valor_octal(p)) == p,
{
}

/// Once an entity has been added to a sequence, its name is taken there: a
/// second entity of the same name is refused, by a store or by a directory.
pub proof fn lei_nome_ocupado<T: Entidade>(s: Seq<T>, primeiro: T, segundo: T)
    requires
        primeiro.nome_spec() == segundo.nome_spec(),
    ensures
        tem_nome(s.push(primeiro), segundo.nome_spec()),
{
    assert(s.push(primeiro)[s.len() as int] == primeiro);
}

/// Removing a name that no element has leaves the sequence as it was, so
/// its length too.
pub proof fn lei_remover_ausente<T: Entidade>(s: Seq<T>, nome: Seq<char>)
    requires
        !tem_nome(s, nome),
    ensures
        s.filter(outro_nome::<T>(nome)) == s,
    decreases s.len(),
{
    reveal(Seq::filter);
    if s.len() > 0 {
        let r = s.drop_last();
        assert(!tem_nome(r, nome)) by {
            assert forall|i: int| 0 <= i < r.len() implies (#[trigger] r[i]).nome_spec() != nome by {
                assert(r[i] == s[i]);
            }
        }
        lei_remover_ausente(r, nome);
        assert(s.last().nome_spec() != nome) by {
            assert(s[s.len() - 1] == s.last());
        }
        assert(r.push(s.last()) =~= s);
    }
}

/// Adding the same group twice to the secondary groups of a user leaves it
/// there twice more than before.
pub proof fn lei_grupo_repetido(grupos: Seq<GrupoV>, g: GrupoV)
    ensures
        grupos.push(g).push(g).to_multiset().count(g) == grupos.to_multiset().count(g) + 2,
{
    broadcast use vstd::seq_lib::group_to_multiset_ensures;

}

/// The group list of a user is made of its secondary groups alone: the
/// primary group shows up only where it was also added as a secondary group.
pub proof fn lei_grupo_principal_fora(u: Usuario)
    ensures
        nomes_de(u.grupos@).contains(u.grupo.nome@) <==> tem_nome(u.grupos@, u.grupo.nome@),
{
    let n = u.grupo.nome@;
    let s = u.grupos@;
    if tem_nome(s, n) {
        let i = choose|i: int| 0 <= i < s.len() && (#[trigger] s[i]).nome_spec() == n;
        assert(nomes_de(s)[i] == n);
    }
    if nomes_de(s).contains(n) {
        let i = choose|i: int| 0 <= i < nomes_de(s).len() && nomes_de(s)[i] == n;
        assert(s[i].nome_spec() == n);
    }
}

} // verus!
