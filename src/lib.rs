//! A model of the metadata of a small POSIX-like file system: files,
//! flat directories, users and groups, with rwx permission triples.

pub mod arquivo;
pub mod conta;
pub mod diretorio;
pub mod entidade;
pub mod erro;
pub mod leis;
pub mod permissao;
pub mod repositorio;
pub mod sistema;

pub use arquivo::{Arquivo, Estatistica};
pub use conta::{Grupo, GrupoV, Usuario, UsuarioV};
pub use diretorio::Diretorio;
pub use entidade::Entidade;
pub use erro::Erro;
pub use permissao::{
    Permissao, Permissoes, criar_permissao_individual, octal_permissoes, permissoes_de_octal,
};
pub use repositorio::Repositorio;
pub use sistema::Sistema;
