use vstd::prelude::*;

verus! {

/// An entity known by its name: a file, a directory, a user or a group.
pub trait Entidade {
    spec fn nome_spec(&self) -> Seq<char>;

    fn nome(&self) -> (r: &String)
        ensures
            r@ == self.nome_spec(),
    ;
}

/// Some element of `s` is named `nome`.
pub open spec fn tem_nome<T: Entidade>(s: Seq<T>, nome: Seq<char>) -> bool {
    exists|i: int| 0 <= i < s.len() && (#[trigger] s[i]).nome_spec() == nome
}

/// No two elements of `s` share a name.
pub open spec fn nomes_unicos<T: Entidade>(s: Seq<T>) -> bool {
    forall|i: int, j: int|
        0 <= i < j < s.len() ==> (#[trigger] s[i]).nome_spec() != (#[trigger] s[j]).nome_spec()
}

/// `i` is the first position of `s` that holds an element named `nome`.
pub open spec fn primeiro_com_nome<T: Entidade>(s: Seq<T>, nome: Seq<char>, i: int) -> bool {
    &&& 0 <= i < s.len()
    &&& s[i].nome_spec() == nome
    &&& forall|j: int| 0 <= j < i ==> (#[trigger] s[j]).nome_spec() != nome
}

/// Keeps the elements that are not named `nome`.
pub open spec fn outro_nome<T: Entidade>(nome: Seq<char>) -> spec_fn(T) -> bool {
    |t: T| t.nome_spec() != nome
}

/// The names of the elements of `s`, in order.
pub open spec fn nomes_de<T: Entidade>(s: Seq<T>) -> Seq<Seq<char>> {
    s.map_values(|t: T| t.nome_spec())
}

/// The views of a sequence of strings.
pub open spec fn textos(s: Seq<String>) -> Seq<Seq<char>> {
    s.map_values(|t: String| t@)
}

/// Removing an element keeps the names unique.
pub proof fn lema_remover_preserva_unicos<T: Entidade>(s: Seq<T>, i: int)
    requires
        nomes_unicos(s),
        0 <= i < s.len(),
    ensures
        nomes_unicos(s.remove(i)),
{
    let t = s.remove(i);
    assert forall|a: int, b: int| 0 <= a < b < t.len() implies (#[trigger] t[a]).nome_spec()
        != (#[trigger] t[b]).nome_spec() by {
        let a2 = if a < i { a } else { a + 1 };
        let b2 = if b < i { b } else { b + 1 };
        assert(t[a] == s[a2]);
        assert(t[b] == s[b2]);
    }
}

/// Appending an element under a new name keeps the names unique.
pub proof fn lema_acrescentar_preserva_unicos<T: Entidade>(s: Seq<T>, t: T)
    requires
        nomes_unicos(s),
        !tem_nome(s, t.nome_spec()),
    ensures
        nomes_unicos(s.push(t)),
{
    let u = s.push(t);
    assert forall|a: int, b: int| 0 <= a < b < u.len() implies (#[trigger] u[a]).nome_spec()
        != (#[trigger] u[b]).nome_spec() by {
        assert(u[a] == s[a]);
        if b == s.len() {
            assert(u[b] == t);
        } else {
            assert(u[b] == s[b]);
        }
    }
}

/// Finds the first element named `nome`.
pub fn posicao<T: Entidade>(v: &Vec<T>, nome: &String) -> (r: Option<usize>)
    ensures
        match r {
            Some(i) => primeiro_com_nome(v@, nome@, i as int),
            None => !tem_nome(v@, nome@),
        },
{
    let mut i: usize = 0;
    while i < v.len()
        invariant
            i <= v.len(),
            forall|j: int| 0 <= j < i ==> (#[trigger] v@[j]).nome_spec() != nome@,
        decreases v.len() - i,
    {
        if *v[i].nome() == *nome {
            return Some(i);
        }
        i = i + 1;
    }
    None
}

/// The names of the elements of `v`, in order.
pub fn nomes<T: Entidade>(v: &Vec<T>) -> (r: Vec<String>)
    ensures
        textos(r@) == nomes_de(v@),
{
    let mut r: Vec<String> = Vec::new();
    let mut i: usize = 0;
    while i < v.len()
        invariant
            i <= v.len(),
            r@.len() == i,
            forall|j: int| 0 <= j < i ==> (#[trigger] r@[j])@ == v@[j].nome_spec(),
        decreases v.len() - i,
    {
        let s = v[i].nome().clone();
        assert(s@ == v@[i as int].nome_spec());
        r.push(s);
        i = i + 1;
    }
    assert(textos(r@) =~= nomes_de(v@));
    r
}

/// Removes from `v` every element named `nome`, keeping the order of the rest.
pub fn retirar_com_nome<T: Entidade>(v: &mut Vec<T>, nome: &String)
    ensures
        final(v)@ == old(v)@.filter(outro_nome::<T>(nome@)),
        nomes_unicos(old(v)@) ==> nomes_unicos(final(v)@),
{
    let ghost orig = v@;
    let ghost pred = outro_nome::<T>(nome@);
    let ghost mut k: int = 0;
    let mut i: usize = 0;
    while i < v.len()
        invariant
            0 <= i <= k <= orig.len(),
            v@.len() - i == orig.len() - k,
            v@.subrange(0, i as int) == orig.subrange(0, k).filter(pred),
            v@.subrange(i as int, v@.len() as int) == orig.subrange(k, orig.len() as int),
            pred == outro_nome::<T>(nome@),
            nomes_unicos(orig) ==> nomes_unicos(v@),
        decreases v.len() - i,
    {
        let ghost antes = v@;
        proof {
            assert(orig[k] == antes.subrange(i as int, antes.len() as int)[0]);
            assert(orig.subrange(0, k + 1).drop_last() =~= orig.subrange(0, k));
            assert(orig.subrange(0, k + 1).last() == orig[k]);
            reveal(Seq::filter);
        }
        if *v[i].nome() == *nome {
            v.remove(i);
            proof {
                if nomes_unicos(orig) {
                    lema_remover_preserva_unicos(antes, i as int);
                }
                assert(v@.subrange(0, i as int) =~= antes.subrange(0, i as int));
                assert forall|j: int| 0 <= j < v@.len() - i implies v@.subrange(i as int, v@.len() as int)[j]
                    == orig.subrange(k + 1, orig.len() as int)[j] by {
                    assert(antes.subrange(i as int, antes.len() as int)[j + 1] == orig.subrange(k, orig.len() as int)[j + 1]);
                }
                assert(v@.subrange(i as int, v@.len() as int) =~= orig.subrange(k + 1, orig.len() as int));
                k = k + 1;
            }
        } else {
            i = i + 1;
            proof {
                assert(v@.subrange(0, i as int) =~= antes.subrange(0, i - 1).push(orig[k]));
                assert forall|j: int| 0 <= j < v@.len() - i implies v@.subrange(i as int, v@.len() as int)[j]
                    == orig.subrange(k + 1, orig.len() as int)[j] by {
                    assert(antes.subrange(i - 1, antes.len() as int)[j + 1] == orig.subrange(k, orig.len() as int)[j + 1]);
                }
                assert(v@.subrange(i as int, v@.len() as int) =~= orig.subrange(k + 1, orig.len() as int));
                k = k + 1;
            }
        }
    }
    proof {
        assert(orig.subrange(0, k) =~= orig);
        assert(v@ =~= v@.subrange(0, i as int));
    }
}

} // verus!
