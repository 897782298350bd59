use vstd::prelude::*;

use crate::entidade::Entidade;
use crate::permissao::{octal_permissoes, texto_octal, Permissoes};

verus! {

/// A file: name, size, permissions, owner uid and group gid.
#[derive(Debug, PartialEq, Eq)]
pub struct Arquivo {
    pub nome: String,
    pub tamanho: u16,
    pub permissao: Permissoes,
    pub usuario: u16,
    pub grupo: u16,
}

/// What `stat` reports of a file; the permissions as three octal digits.
#[derive(Debug, PartialEq, Eq)]
pub struct Estatistica {
    pub nome: String,
    pub tamanho: u16,
    pub permissao: String,
    pub uid: u16,
    pub gid: u16,
}

impl Entidade for Arquivo {
    open spec fn nome_spec(&self) -> Seq<char> {
        self.nome@
    }

    fn nome(&self) -> (r: &String) {
        &self.nome
    }
}

impl Arquivo {
    pub fn new(nome: String, tamanho: u16, permissao: Permissoes, usuario: u16, grupo: u16) -> (a: Arquivo)
        ensures
            a == (Arquivo { nome, tamanho, permissao, usuario, grupo }),
    {
        Arquivo { nome, tamanho, permissao, usuario, grupo }
    }

    /// Replaces the whole permission set.
    pub fn alterar_permissao(&mut self, permissao: Permissoes)
        ensures
            *final(self) == (Arquivo { permissao, ..*old(self) }),
    {
        self.permissao = permissao;
    }

    /// An independent copy of the file.
    pub fn copia(&self) -> (a: Arquivo)
        ensures
            a == *self,
    {
        Arquivo {
            nome: self.nome.clone(),
            tamanho: self.tamanho,
            permissao: self.permissao,
            usuario: self.usuario,
            grupo: self.grupo,
        }
    }

    /// Name, size, octal permissions, uid and gid of the file.
    pub fn stat(&self) -> (e: Estatistica)
        ensures
            e.nome@ == self.nome@,
            e.tamanho == self.tamanho,
            e.permissao@ == texto_octal(self.permissao),
            e.uid == self.usuario,
            e.gid == self.grupo,
    {
        Estatistica {
            nome: self.nome.clone(),
            tamanho: self.tamanho,
            permissao: octal_permissoes(&self.permissao),
            uid: self.usuario,
            gid: self.grupo,
        }
    }
}

} // verus!
