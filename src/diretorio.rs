use vstd::prelude::*;

use crate::arquivo::Arquivo;
use crate::entidade::{
    Entidade, lema_acrescentar_preserva_unicos, nomes, nomes_de, nomes_unicos, outro_nome,
    posicao, retirar_com_nome, tem_nome, textos,
};
use crate::erro::Erro;
use crate::permissao::Permissoes;

verus! {

/// A flat directory holding copies of files, at most one per name.
#[derive(Debug, PartialEq, Eq)]
pub struct Diretorio {
    pub nome: String,
    pub arquivos: Vec<Arquivo>,
    pub permissoes: Permissoes,
    pub dono: String,
}

impl Entidade for Diretorio {
    open spec fn nome_spec(&self) -> Seq<char> {
        self.nome@
    }

    fn nome(&self) -> (r: &String) {
        &self.nome
    }
}

impl Diretorio {
    /// No two member files share a name.
    pub open spec fn bem_formado(&self) -> bool {
        nomes_unicos(self.arquivos@)
    }

    /// The directory `nome`, empty.
    pub fn new(nome: String, permissoes: Permissoes, dono: String) -> (d: Diretorio)
        ensures
            d.nome == nome,
            d.arquivos@ == Seq::<Arquivo>::empty(),
            d.permissoes == permissoes,
            d.dono == dono,
            d.bem_formado(),
    {
        Diretorio { nome, arquivos: Vec::new(), permissoes, dono }
    }

    /// Appends `arquivo`, unless a member already has its name.
    pub fn adiciona_arquivo(&mut self, arquivo: Arquivo) -> (r: Result<(), Erro>)
        ensures
            tem_nome(old(self).arquivos@, arquivo.nome@) ==> r == Err::<(), Erro>(
                Erro::ArquivoJaNoDiretorio,
            ) && *final(self) == *old(self),
            !tem_nome(old(self).arquivos@, arquivo.nome@) ==> r == Ok::<(), Erro>(())
                && final(self).arquivos@ == old(self).arquivos@.push(arquivo),
            final(self).nome == old(self).nome,
            final(self).permissoes == old(self).permissoes,
            final(self).dono == old(self).dono,
            old(self).bem_formado() ==> final(self).bem_formado(),
    {
        match posicao(&self.arquivos, &arquivo.nome) {
            Some(_) => Err(Erro::ArquivoJaNoDiretorio),
            None => {
                proof {
                    if self.bem_formado() {
                        lema_acrescentar_preserva_unicos(self.arquivos@, arquivo);
                    }
                }
                self.arquivos.push(arquivo);
                Ok(())
            },
        }
    }

    /// Drops every member named `nome`; nothing happens when there is none.
    pub fn remove_arquivo(&mut self, nome: String)
        ensures
            final(self).arquivos@ == old(self).arquivos@.filter(outro_nome::<Arquivo>(nome@)),
            final(self).nome == old(self).nome,
            final(self).permissoes == old(self).permissoes,
            final(self).dono == old(self).dono,
            old(self).bem_formado() ==> final(self).bem_formado(),
    {
        retirar_com_nome(&mut self.arquivos, &nome);
    }

    /// The names of the member files, in order.
    pub fn listar_conteudo(&self) -> (r: Vec<String>)
        ensures
            textos(r@) == nomes_de(self.arquivos@),
    {
        nomes(&self.arquivos)
    }
}

} // verus!
