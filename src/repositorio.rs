use vstd::prelude::*;

use crate::entidade::{
    Entidade, lema_acrescentar_preserva_unicos, lema_remover_preserva_unicos, nomes, nomes_de,
    nomes_unicos, posicao, primeiro_com_nome, tem_nome, textos,
};
use crate::erro::Erro;

verus! {

/// The entities of one kind, in the order in which they were created.
#[derive(Debug)]
pub struct Repositorio<T> {
    pub itens: Vec<T>,
}

impl<T: Entidade> Repositorio<T> {
    /// No two entities of the store share a name.
    pub open spec fn bem_formado(&self) -> bool {
        nomes_unicos(self.itens@)
    }

    /// An empty store.
    pub fn new() -> (r: Self)
        ensures
            r.itens@ == Seq::<T>::empty(),
            r.bem_formado(),
    {
        Repositorio { itens: Vec::new() }
    }

    /// The number of entities.
    pub fn len(&self) -> (n: usize)
        ensures
            n == self.itens@.len(),
    {
        self.itens.len()
    }

    /// The position of the entity named `nome`.
    pub fn posicao(&self, nome: &String) -> (r: Option<usize>)
        ensures
            match r {
                Some(i) => primeiro_com_nome(self.itens@, nome@, i as int),
                None => !tem_nome(self.itens@, nome@),
            },
    {
        posicao(&self.itens, nome)
    }

    /// The entity named `nome`, matched exactly.
    pub fn buscar(&self, nome: &String) -> (r: Option<&T>)
        ensures
            match r {
                Some(t) => exists|i: int|
                    primeiro_com_nome(self.itens@, nome@, i) && *t == self.itens@[i],
                None => !tem_nome(self.itens@, nome@),
            },
    {
        match posicao(&self.itens, nome) {
            Some(i) => Some(&self.itens[i]),
            None => None,
        }
    }

    /// Adds `item` at the end, unless an entity already has its name.
    pub fn criar(&mut self, item: T) -> (r: Result<(), Erro>)
        ensures
            tem_nome(old(self).itens@, item.nome_spec()) ==> r == Err::<(), Erro>(
                Erro::NomeDuplicado,
            ) && *final(self) == *old(self),
            !tem_nome(old(self).itens@, item.nome_spec()) ==> r == Ok::<(), Erro>(())
                && final(self).itens@ == old(self).itens@.push(item),
            old(self).bem_formado() ==> final(self).bem_formado(),
    {
        match posicao(&self.itens, item.nome()) {
            Some(_) => Err(Erro::NomeDuplicado),
            None => {
                proof {
                    if self.bem_formado() {
                        lema_acrescentar_preserva_unicos(self.itens@, item);
                    }
                }
                self.itens.push(item);
                Ok(())
            },
        }
    }

    /// Removes the entity named `nome`.
    pub fn remover(&mut self, nome: &String) -> (r: Result<(), Erro>)
        ensures
            !tem_nome(old(self).itens@, nome@) ==> r == Err::<(), Erro>(Erro::NaoEncontrado)
                && *final(self) == *old(self),
            tem_nome(old(self).itens@, nome@) ==> r == Ok::<(), Erro>(()) && exists|i: int|
                primeiro_com_nome(old(self).itens@, nome@, i) && final(self).itens@ == old(
                    self,
                ).itens@.remove(i),
            old(self).bem_formado() ==> final(self).bem_formado(),
    {
        match posicao(&self.itens, nome) {
            Some(i) => {
                proof {
                    if self.bem_formado() {
                        lema_remover_preserva_unicos(self.itens@, i as int);
                    }
                }
                self.itens.remove(i);
                Ok(())
            },
            None => Err(Erro::NaoEncontrado),
        }
    }

    /// The names of the entities, in order of creation.
    pub fn listar(&self) -> (r: Vec<String>)
        ensures
            textos(r@) == nomes_de(self.itens@),
    {
        nomes(&self.itens)
    }
}

} // verus!
