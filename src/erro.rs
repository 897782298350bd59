use vstd::prelude::*;

verus! {

/// Errors returned by the operations of the model.
#[derive(Debug, Clone, Copy, PartialEq, Eq, Structural)]
pub enum Erro {
    /// An entity with that name already exists in the store.
    NomeDuplicado,
    /// No entity with that name exists in the store.
    NaoEncontrado,
    /// No directory with that name exists.
    DiretorioNaoEncontrado,
    /// No file with that name exists in the file store.
    ArquivoNaoEncontrado,
    /// The directory already holds a file with that name.
    ArquivoJaNoDiretorio,
    /// No user with that name exists.
    UsuarioNaoEncontrado,
    /// No group with that name exists.
    GrupoNaoEncontrado,
    /// An octal permission digit above 7.
    OctalInvalido,
}

} // verus!
