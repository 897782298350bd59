use vstd::prelude::*;

use crate::arquivo::{Arquivo, Estatistica};
use crate::conta::{Grupo, GrupoV, Usuario, UsuarioV};
use crate::diretorio::Diretorio;
use crate::entidade::{
    Entidade, nomes_de, nomes_unicos, outro_nome, posicao, primeiro_com_nome, tem_nome, textos,
};
use crate::erro::Erro;
use crate::permissao::{texto_octal, Permissoes};
use crate::repositorio::Repositorio;

verus! {

/// The four stores of one session.
#[derive(Debug)]
pub struct Sistema {
    pub arquivos: Repositorio<Arquivo>,
    pub diretorios: Repositorio<Diretorio>,
    pub usuarios: Repositorio<Usuario>,
    pub grupos: Repositorio<Grupo>,
}

/// `b` is `a` with at most its element `i` replaced.
pub open spec fn igual_exceto<T>(a: Seq<T>, b: Seq<T>, i: int) -> bool {
    &&& a.len() == b.len()
    &&& forall|k: int| 0 <= k < a.len() && k != i ==> a[k] == b[k]
}

/// `b` is `a` with a directory whose members are `arquivos` and whose other
/// fields are unchanged, at position `i`.
pub open spec fn diretorio_trocado(
    a: Seq<Diretorio>,
    b: Seq<Diretorio>,
    i: int,
    arquivos: Seq<Arquivo>,
) -> bool {
    &&& 0 <= i < a.len()
    &&& igual_exceto(a, b, i)
    &&& b[i].nome == a[i].nome
    &&& b[i].permissoes == a[i].permissoes
    &&& b[i].dono == a[i].dono
    &&& b[i].arquivos@ == arquivos
}

/// `b` is `a` with the user at position `i` changed to hold `grupos` as its
/// secondary groups.
pub open spec fn usuario_trocado(a: Seq<Usuario>, b: Seq<Usuario>, i: int, grupos: Seq<GrupoV>) -> bool {
    &&& 0 <= i < a.len()
    &&& igual_exceto(a, b, i)
    &&& b[i]@ == UsuarioV { grupos, ..a[i]@ }
}

/// `b` is `a` with the group at position `i` changed to hold `membros`.
pub open spec fn grupo_trocado(a: Seq<Grupo>, b: Seq<Grupo>, i: int, membros: Seq<UsuarioV>) -> bool {
    &&& 0 <= i < a.len()
    &&& igual_exceto(a, b, i)
    &&& b[i]@ == GrupoV { membros, ..a[i]@ }
}

/// The views of a sequence of groups.
pub open spec fn visoes_grupos(s: Seq<Grupo>) -> Seq<GrupoV> {
    s.map_values(|g: Grupo| g@)
}

/// The views of a sequence of users.
pub open spec fn visoes_usuarios(s: Seq<Usuario>) -> Seq<UsuarioV> {
    s.map_values(|u: Usuario| u@)
}

/// Names stay unique when each element keeps its name.
pub proof fn lema_mesmos_nomes<T: Entidade>(a: Seq<T>, b: Seq<T>)
    requires
        nomes_unicos(a),
        a.len() == b.len(),
        forall|k: int| 0 <= k < a.len() ==> (#[trigger] a[k]).nome_spec() == b[k].nome_spec(),
    ensures
        nomes_unicos(b),
{
    assert forall|x: int, y: int| 0 <= x < y < b.len() implies (#[trigger] b[x]).nome_spec()
        != (#[trigger] b[y]).nome_spec() by {
        assert(a[x].nome_spec() == b[x].nome_spec());
        assert(a[y].nome_spec() == b[y].nome_spec());
    }
}

impl Sistema {
    /// Every store keeps its names unique, and so does every directory.
    pub open spec fn bem_formado(&self) -> bool {
        &&& self.arquivos.bem_formado()
        &&& self.diretorios.bem_formado()
        &&& self.usuarios.bem_formado()
        &&& self.grupos.bem_formado()
        &&& forall|i: int|
            0 <= i < self.diretorios.itens@.len() ==> (#[trigger] self.diretorios.itens@[i]).bem_formado()
    }

    /// A session with four empty stores.
    pub fn new() -> (s: Sistema)
        ensures
            s.arquivos.itens@ == Seq::<Arquivo>::empty(),
            s.diretorios.itens@ == Seq::<Diretorio>::empty(),
            s.usuarios.itens@ == Seq::<Usuario>::empty(),
            s.grupos.itens@ == Seq::<Grupo>::empty(),
            s.bem_formado(),
    {
        Sistema {
            arquivos: Repositorio::new(),
            diretorios: Repositorio::new(),
            usuarios: Repositorio::new(),
            grupos: Repositorio::new(),
        }
    }

    /// Creates a user whose primary group is a copy of the group `nome_grupo`.
    pub fn criar_usuario(&mut self, nome: String, uid: u16, nome_grupo: &String) -> (r: Result<(), Erro>)
        ensures
            !tem_nome(old(self).grupos.itens@, nome_grupo@) ==> r == Err::<(), Erro>(
                Erro::GrupoNaoEncontrado,
            ),
            tem_nome(old(self).grupos.itens@, nome_grupo@) && tem_nome(old(self).usuarios.itens@, nome@)
                ==> r == Err::<(), Erro>(Erro::NomeDuplicado),
            r is Err ==> *final(self) == *old(self),
            r is Ok ==> {
                &&& final(self).usuarios.itens@.len() == old(self).usuarios.itens@.len() + 1
                &&& final(self).usuarios.itens@.drop_last() == old(self).usuarios.itens@
                &&& forall|j: int|
                    #![trigger primeiro_com_nome(old(self).grupos.itens@, nome_grupo@, j)]
                    primeiro_com_nome(old(self).grupos.itens@, nome_grupo@, j)
                        ==> final(self).usuarios.itens@.last()@ == (UsuarioV {
                        nome: nome@,
                        uid,
                        grupo: old(self).grupos.itens@[j]@,
                        grupos: Seq::empty(),
                    })
                &&& final(self).arquivos == old(self).arquivos
                &&& final(self).diretorios == old(self).diretorios
                &&& final(self).grupos == old(self).grupos
            },
            tem_nome(old(self).grupos.itens@, nome_grupo@) && !tem_nome(old(self).usuarios.itens@, nome@)
                ==> r is Ok,
            old(self).bem_formado() ==> final(self).bem_formado(),
    {
        match self.grupos.posicao(nome_grupo) {
            None => Err(Erro::GrupoNaoEncontrado),
            Some(j) => {
                let grupo = self.grupos.itens[j].copia();
                let usuario = Usuario::new(nome, uid, grupo);
                let r = self.usuarios.criar(usuario);
                proof {
                    if r is Ok {
                        assert(final(self).usuarios.itens@.drop_last() =~= old(self).usuarios.itens@);
                        assert(final(self).usuarios.itens@.last()@.grupos =~= Seq::<GrupoV>::empty());
                    }
                }
                r
            },
        }
    }

    /// Attaches a copy of the file `nome_arquivo` to the directory `nome_diretorio`.
    pub fn adicionar_arquivo_ao_diretorio(&mut self, nome_diretorio: &String, nome_arquivo: &String) -> (r: Result<(), Erro>)
        ensures
            !tem_nome(old(self).diretorios.itens@, nome_diretorio@) ==> r == Err::<(), Erro>(
                Erro::DiretorioNaoEncontrado,
            ),
            tem_nome(old(self).diretorios.itens@, nome_diretorio@) && !tem_nome(
                old(self).arquivos.itens@,
                nome_arquivo@,
            ) ==> r == Err::<(), Erro>(Erro::ArquivoNaoEncontrado),
            tem_nome(old(self).diretorios.itens@, nome_diretorio@) && tem_nome(
                old(self).arquivos.itens@,
                nome_arquivo@,
            ) ==> forall|i: int, j: int|
                #![trigger primeiro_com_nome(old(self).diretorios.itens@, nome_diretorio@, i), primeiro_com_nome(old(self).arquivos.itens@, nome_arquivo@, j)]
                primeiro_com_nome(old(self).diretorios.itens@, nome_diretorio@, i)
                    && primeiro_com_nome(old(self).arquivos.itens@, nome_arquivo@, j) ==> {
                    if tem_nome(old(self).diretorios.itens@[i].arquivos@, nome_arquivo@) {
                        r == Err::<(), Erro>(Erro::ArquivoJaNoDiretorio)
                    } else {
                        &&& r == Ok::<(), Erro>(())
                        &&& diretorio_trocado(
                            old(self).diretorios.itens@,
                            final(self).diretorios.itens@,
                            i,
                            old(self).diretorios.itens@[i].arquivos@.push(old(self).arquivos.itens@[j]),
                        )
                    }
                },
            r is Err ==> *final(self) == *old(self),
            final(self).arquivos == old(self).arquivos,
            final(self).usuarios == old(self).usuarios,
            final(self).grupos == old(self).grupos,
            old(self).bem_formado() ==> final(self).bem_formado(),
    {
        let i = match self.diretorios.posicao(nome_diretorio) {
            Some(i) => i,
            None => return Err(Erro::DiretorioNaoEncontrado),
        };
        let j = match self.arquivos.posicao(nome_arquivo) {
            Some(j) => j,
            None => return Err(Erro::ArquivoNaoEncontrado),
        };
        if let Some(k) = posicao(&self.diretorios.itens[i].arquivos, nome_arquivo) {
            assert(tem_nome(self.diretorios.itens@[i as int].arquivos@, nome_arquivo@)) by {
                assert(self.diretorios.itens@[i as int].arquivos@[k as int].nome_spec() == nome_arquivo@);
            }
            assert(primeiro_com_nome(self.diretorios.itens@, nome_diretorio@, i as int));
            assert(primeiro_com_nome(self.arquivos.itens@, nome_arquivo@, j as int));
            return Err(Erro::ArquivoJaNoDiretorio);
        }
        let arquivo = self.arquivos.itens[j].copia();
        let r = self.diretorios.itens[i].adiciona_arquivo(arquivo);
        proof {
            assert(diretorio_trocado(
                old(self).diretorios.itens@,
                self.diretorios.itens@,
                i as int,
                old(self).diretorios.itens@[i as int].arquivos@.push(old(self).arquivos.itens@[j as int]),
            ));
            if old(self).bem_formado() {
                lema_mesmos_nomes(old(self).diretorios.itens@, self.diretorios.itens@);
                assert forall|k: int| 0 <= k < self.diretorios.itens@.len() implies (
                #[trigger] self.diretorios.itens@[k]).bem_formado() by {
                    assert(old(self).diretorios.itens@[k].bem_formado());
                }
            }
        }
        r
    }

    /// Detaches every member named `nome_arquivo` from the directory `nome_diretorio`.
    pub fn remover_arquivo_do_diretorio(&mut self, nome_diretorio: &String, nome_arquivo: &String) -> (r: Result<(), Erro>)
        ensures
            !tem_nome(old(self).diretorios.itens@, nome_diretorio@) ==> r == Err::<(), Erro>(
                Erro::DiretorioNaoEncontrado,
            ) && *final(self) == *old(self),
            tem_nome(old(self).diretorios.itens@, nome_diretorio@) ==> r == Ok::<(), Erro>(()) && forall|i: int|
                #![trigger primeiro_com_nome(old(self).diretorios.itens@, nome_diretorio@, i)]
                primeiro_com_nome(old(self).diretorios.itens@, nome_diretorio@, i) ==> {
                    diretorio_trocado(
                        old(self).diretorios.itens@,
                        final(self).diretorios.itens@,
                        i,
                        old(self).diretorios.itens@[i].arquivos@.filter(outro_nome::<Arquivo>(nome_arquivo@)),
                    )
                },
            final(self).arquivos == old(self).arquivos,
            final(self).usuarios == old(self).usuarios,
            final(self).grupos == old(self).grupos,
            old(self).bem_formado() ==> final(self).bem_formado(),
    {
        let i = match self.diretorios.posicao(nome_diretorio) {
            Some(i) => i,
            None => return Err(Erro::DiretorioNaoEncontrado),
        };
        self.diretorios.itens[i].remove_arquivo(nome_arquivo.clone());
        proof {
            if old(self).bem_formado() {
                lema_mesmos_nomes(old(self).diretorios.itens@, self.diretorios.itens@);
                assert forall|k: int| 0 <= k < self.diretorios.itens@.len() implies (
                #[trigger] self.diretorios.itens@[k]).bem_formado() by {
                    assert(old(self).diretorios.itens@[k].bem_formado());
                }
            }
        }
        Ok(())
    }

    /// Adds a copy of the group `nome_grupo` to the secondary groups of the user
    /// `nome_usuario`; the same group may be added more than once.
    pub fn adicionar_grupo_ao_usuario(&mut self, nome_usuario: &String, nome_grupo: &String) -> (r: Result<(), Erro>)
        ensures
            !tem_nome(old(self).usuarios.itens@, nome_usuario@) ==> r == Err::<(), Erro>(
                Erro::UsuarioNaoEncontrado,
            ),
            tem_nome(old(self).usuarios.itens@, nome_usuario@) && !tem_nome(
                old(self).grupos.itens@,
                nome_grupo@,
            ) ==> r == Err::<(), Erro>(Erro::GrupoNaoEncontrado),
            tem_nome(old(self).usuarios.itens@, nome_usuario@) && tem_nome(
                old(self).grupos.itens@,
                nome_grupo@,
            ) ==> r == Ok::<(), Erro>(()) && forall|i: int, j: int|
                #![trigger primeiro_com_nome(old(self).usuarios.itens@, nome_usuario@, i), primeiro_com_nome(old(self).grupos.itens@, nome_grupo@, j)]
                primeiro_com_nome(old(self).usuarios.itens@, nome_usuario@, i)
                    && primeiro_com_nome(old(self).grupos.itens@, nome_grupo@, j) ==> usuario_trocado(
                    old(self).usuarios.itens@,
                    final(self).usuarios.itens@,
                    i,
                    old(self).usuarios.itens@[i]@.grupos.push(old(self).grupos.itens@[j]@),
                ),
            r is Err ==> *final(self) == *old(self),
            final(self).arquivos == old(self).arquivos,
            final(self).diretorios == old(self).diretorios,
            final(self).grupos == old(self).grupos,
            old(self).bem_formado() ==> final(self).bem_formado(),
    {
        let i = match self.usuarios.posicao(nome_usuario) {
            Some(i) => i,
            None => return Err(Erro::UsuarioNaoEncontrado),
        };
        let j = match self.grupos.posicao(nome_grupo) {
            Some(j) => j,
            None => return Err(Erro::GrupoNaoEncontrado),
        };
        let grupo = self.grupos.itens[j].copia();
        self.usuarios.itens[i].adiciona_grupo(grupo);
        proof {
            let u = self.usuarios.itens@[i as int];
            let v = old(self).usuarios.itens@[i as int];
            assert(u@.grupos =~= v@.grupos.push(old(self).grupos.itens@[j as int]@));
            if old(self).bem_formado() {
                lema_mesmos_nomes(old(self).usuarios.itens@, self.usuarios.itens@);
            }
        }
        Ok(())
    }

    /// Drops every secondary group named `nome_grupo` from the user `nome_usuario`.
    pub fn remover_grupo_do_usuario(&mut self, nome_usuario: &String, nome_grupo: &String) -> (r: Result<(), Erro>)
        ensures
            !tem_nome(old(self).usuarios.itens@, nome_usuario@) ==> r == Err::<(), Erro>(
                Erro::UsuarioNaoEncontrado,
            ) && *final(self) == *old(self),
            tem_nome(old(self).usuarios.itens@, nome_usuario@) ==> r == Ok::<(), Erro>(()) && forall|i: int|
                #![trigger primeiro_com_nome(old(self).usuarios.itens@, nome_usuario@, i)]
                primeiro_com_nome(old(self).usuarios.itens@, nome_usuario@, i) ==> usuario_trocado(
                    old(self).usuarios.itens@,
                    final(self).usuarios.itens@,
                    i,
                    visoes_grupos(old(self).usuarios.itens@[i].grupos@.filter(outro_nome::<Grupo>(nome_grupo@))),
                ),
            final(self).arquivos == old(self).arquivos,
            final(self).diretorios == old(self).diretorios,
            final(self).grupos == old(self).grupos,
            old(self).bem_formado() ==> final(self).bem_formado(),
    {
        let i = match self.usuarios.posicao(nome_usuario) {
            Some(i) => i,
            None => return Err(Erro::UsuarioNaoEncontrado),
        };
        self.usuarios.itens[i].remove_grupo(nome_grupo.clone());
        proof {
            let u = self.usuarios.itens@[i as int];
            let v = old(self).usuarios.itens@[i as int];
            assert(u@.grupos =~= visoes_grupos(v.grupos@.filter(outro_nome::<Grupo>(nome_grupo@))));
            if old(self).bem_formado() {
                lema_mesmos_nomes(old(self).usuarios.itens@, self.usuarios.itens@);
            }
        }
        Ok(())
    }

    /// Adds a copy of the user `nome_usuario` to the members of the group
    /// `nome_grupo`; the same user may be added more than once.
    pub fn adicionar_membro_ao_grupo(&mut self, nome_grupo: &String, nome_usuario: &String) -> (r: Result<(), Erro>)
        ensures
            !tem_nome(old(self).grupos.itens@, nome_grupo@) ==> r == Err::<(), Erro>(
                Erro::GrupoNaoEncontrado,
            ),
            tem_nome(old(self).grupos.itens@, nome_grupo@) && !tem_nome(
                old(self).usuarios.itens@,
                nome_usuario@,
            ) ==> r == Err::<(), Erro>(Erro::UsuarioNaoEncontrado),
            tem_nome(old(self).grupos.itens@, nome_grupo@) && tem_nome(
                old(self).usuarios.itens@,
                nome_usuario@,
            ) ==> r == Ok::<(), Erro>(()) && forall|i: int, j: int|
                #![trigger primeiro_com_nome(old(self).grupos.itens@, nome_grupo@, i), primeiro_com_nome(old(self).usuarios.itens@, nome_usuario@, j)]
                primeiro_com_nome(old(self).grupos.itens@, nome_grupo@, i)
                    && primeiro_com_nome(old(self).usuarios.itens@, nome_usuario@, j) ==> grupo_trocado(
                    old(self).grupos.itens@,
                    final(self).grupos.itens@,
                    i,
                    old(self).grupos.itens@[i]@.membros.push(old(self).usuarios.itens@[j]@),
                ),
            r is Err ==> *final(self) == *old(self),
            final(self).arquivos == old(self).arquivos,
            final(self).diretorios == old(self).diretorios,
            final(self).usuarios == old(self).usuarios,
            old(self).bem_formado() ==> final(self).bem_formado(),
    {
        let i = match self.grupos.posicao(nome_grupo) {
            Some(i) => i,
            None => return Err(Erro::GrupoNaoEncontrado),
        };
        let j = match self.usuarios.posicao(nome_usuario) {
            Some(j) => j,
            None => return Err(Erro::UsuarioNaoEncontrado),
        };
        let usuario = self.usuarios.itens[j].copia();
        self.grupos.itens[i].adiciona_membro(usuario);
        proof {
            let g = self.grupos.itens@[i as int];
            let h = old(self).grupos.itens@[i as int];
            assert(g@.membros =~= h@.membros.push(old(self).usuarios.itens@[j as int]@));
            if old(self).bem_formado() {
                lema_mesmos_nomes(old(self).grupos.itens@, self.grupos.itens@);
            }
        }
        Ok(())
    }

    /// Drops every member named `nome_usuario` from the group `nome_grupo`.
    pub fn remover_membro_do_grupo(&mut self, nome_grupo: &String, nome_usuario: &String) -> (r: Result<(), Erro>)
        ensures
            !tem_nome(old(self).grupos.itens@, nome_grupo@) ==> r == Err::<(), Erro>(
                Erro::GrupoNaoEncontrado,
            ) && *final(self) == *old(self),
            tem_nome(old(self).grupos.itens@, nome_grupo@) ==> r == Ok::<(), Erro>(()) && forall|i: int|
                #![trigger primeiro_com_nome(old(self).grupos.itens@, nome_grupo@, i)]
                primeiro_com_nome(old(self).grupos.itens@, nome_grupo@, i) ==> grupo_trocado(
                    old(self).grupos.itens@,
                    final(self).grupos.itens@,
                    i,
                    visoes_usuarios(old(self).grupos.itens@[i].membros@.filter(outro_nome::<Usuario>(nome_usuario@))),
                ),
            final(self).arquivos == old(self).arquivos,
            final(self).diretorios == old(self).diretorios,
            final(self).usuarios == old(self).usuarios,
            old(self).bem_formado() ==> final(self).bem_formado(),
    {
        let i = match self.grupos.posicao(nome_grupo) {
            Some(i) => i,
            None => return Err(Erro::GrupoNaoEncontrado),
        };
        self.grupos.itens[i].remove_membro(nome_usuario.clone());
        proof {
            let g = self.grupos.itens@[i as int];
            let h = old(self).grupos.itens@[i as int];
            assert(g@.membros =~= visoes_usuarios(h.membros@.filter(outro_nome::<Usuario>(nome_usuario@))));
            if old(self).bem_formado() {
                lema_mesmos_nomes(old(self).grupos.itens@, self.grupos.itens@);
            }
        }
        Ok(())
    }

    /// Replaces the permission set of the file `nome`.
    pub fn alterar_permissao_arquivo(&mut self, nome: &String, permissao: Permissoes) -> (r: Result<(), Erro>)
        ensures
            !tem_nome(old(self).arquivos.itens@, nome@) ==> r == Err::<(), Erro>(
                Erro::ArquivoNaoEncontrado,
            ) && *final(self) == *old(self),
            tem_nome(old(self).arquivos.itens@, nome@) ==> r == Ok::<(), Erro>(()) && forall|i: int|
                #![trigger primeiro_com_nome(old(self).arquivos.itens@, nome@, i)]
                primeiro_com_nome(old(self).arquivos.itens@, nome@, i) ==> final(self).arquivos.itens@
                    == old(self).arquivos.itens@.update(
                    i,
                    Arquivo { permissao, ..old(self).arquivos.itens@[i] },
                ),
            final(self).diretorios == old(self).diretorios,
            final(self).usuarios == old(self).usuarios,
            final(self).grupos == old(self).grupos,
            old(self).bem_formado() ==> final(self).bem_formado(),
    {
        let i = match self.arquivos.posicao(nome) {
            Some(i) => i,
            None => return Err(Erro::ArquivoNaoEncontrado),
        };
        self.arquivos.itens[i].alterar_permissao(permissao);
        proof {
            assert(self.arquivos.itens@ =~= old(self).arquivos.itens@.update(
                i as int,
                Arquivo { permissao, ..old(self).arquivos.itens@[i as int] },
            ));
            if old(self).bem_formado() {
                lema_mesmos_nomes(old(self).arquivos.itens@, self.arquivos.itens@);
            }
        }
        Ok(())
    }

    /// Replaces the permission set of the directory `nome`.
    pub fn alterar_permissao_diretorio(&mut self, nome: &String, permissoes: Permissoes) -> (r: Result<(), Erro>)
        ensures
            !tem_nome(old(self).diretorios.itens@, nome@) ==> r == Err::<(), Erro>(
                Erro::DiretorioNaoEncontrado,
            ) && *final(self) == *old(self),
            tem_nome(old(self).diretorios.itens@, nome@) ==> r == Ok::<(), Erro>(()) && forall|i: int|
                #![trigger primeiro_com_nome(old(self).diretorios.itens@, nome@, i)]
                primeiro_com_nome(old(self).diretorios.itens@, nome@, i) ==> {
                    &&& igual_exceto(old(self).diretorios.itens@, final(self).diretorios.itens@, i)
                    &&& final(self).diretorios.itens@[i].nome == old(self).diretorios.itens@[i].nome
                    &&& final(self).diretorios.itens@[i].arquivos@ == old(self).diretorios.itens@[i].arquivos@
                    &&& final(self).diretorios.itens@[i].dono == old(self).diretorios.itens@[i].dono
                    &&& final(self).diretorios.itens@[i].permissoes == permissoes
                },
            final(self).arquivos == old(self).arquivos,
            final(self).usuarios == old(self).usuarios,
            final(self).grupos == old(self).grupos,
            old(self).bem_formado() ==> final(self).bem_formado(),
    {
        let i = match self.diretorios.posicao(nome) {
            Some(i) => i,
            None => return Err(Erro::DiretorioNaoEncontrado),
        };
        self.diretorios.itens[i].permissoes = permissoes;
        proof {
            if old(self).bem_formado() {
                lema_mesmos_nomes(old(self).diretorios.itens@, self.diretorios.itens@);
                assert forall|k: int| 0 <= k < self.diretorios.itens@.len() implies (
                #[trigger] self.diretorios.itens@[k]).bem_formado() by {
                    assert(old(self).diretorios.itens@[k].bem_formado());
                }
            }
        }
        Ok(())
    }

    /// The names of the files of the directory `nome`, in membership order.
    pub fn listar_conteudo(&self, nome: &String) -> (r: Result<Vec<String>, Erro>)
        ensures
            !tem_nome(self.diretorios.itens@, nome@) ==> r == Err::<Vec<String>, Erro>(
                Erro::DiretorioNaoEncontrado,
            ),
            tem_nome(self.diretorios.itens@, nome@) ==> r is Ok && forall|i: int|
                #![trigger primeiro_com_nome(self.diretorios.itens@, nome@, i)]
                primeiro_com_nome(self.diretorios.itens@, nome@, i) ==> textos(r->Ok_0@) == nomes_de(
                    self.diretorios.itens@[i].arquivos@,
                ),
    {
        match self.diretorios.posicao(nome) {
            Some(i) => Ok(self.diretorios.itens[i].listar_conteudo()),
            None => Err(Erro::DiretorioNaoEncontrado),
        }
    }

    /// The names of the secondary groups of the user `nome`, in order; the
    /// primary group is not listed.
    pub fn listar_grupos_do_usuario(&self, nome: &String) -> (r: Result<Vec<String>, Erro>)
        ensures
            !tem_nome(self.usuarios.itens@, nome@) ==> r == Err::<Vec<String>, Erro>(
                Erro::UsuarioNaoEncontrado,
            ),
            tem_nome(self.usuarios.itens@, nome@) ==> r is Ok && forall|i: int|
                #![trigger primeiro_com_nome(self.usuarios.itens@, nome@, i)]
                primeiro_com_nome(self.usuarios.itens@, nome@, i) ==> textos(r->Ok_0@) == nomes_de(
                    self.usuarios.itens@[i].grupos@,
                ),
    {
        match self.usuarios.posicao(nome) {
            Some(i) => Ok(self.usuarios.itens[i].listar_grupos()),
            None => Err(Erro::UsuarioNaoEncontrado),
        }
    }

    /// The names of the members of the group `nome`, in order.
    pub fn listar_membros_do_grupo(&self, nome: &String) -> (r: Result<Vec<String>, Erro>)
        ensures
            !tem_nome(self.grupos.itens@, nome@) ==> r == Err::<Vec<String>, Erro>(
                Erro::GrupoNaoEncontrado,
            ),
            tem_nome(self.grupos.itens@, nome@) ==> r is Ok && forall|i: int|
                #![trigger primeiro_com_nome(self.grupos.itens@, nome@, i)]
                primeiro_com_nome(self.grupos.itens@, nome@, i) ==> textos(r->Ok_0@) == nomes_de(
                    self.grupos.itens@[i].membros@,
                ),
    {
        match self.grupos.posicao(nome) {
            Some(i) => Ok(self.grupos.itens[i].listar_usuarios()),
            None => Err(Erro::GrupoNaoEncontrado),
        }
    }

    /// The `stat` summary of the file `nome`.
    pub fn stat_arquivo(&self, nome: &String) -> (r: Result<Estatistica, Erro>)
        ensures
            !tem_nome(self.arquivos.itens@, nome@) ==> r == Err::<Estatistica, Erro>(
                Erro::ArquivoNaoEncontrado,
            ),
            tem_nome(self.arquivos.itens@, nome@) ==> r is Ok && forall|i: int|
                #![trigger primeiro_com_nome(self.arquivos.itens@, nome@, i)]
                primeiro_com_nome(self.arquivos.itens@, nome@, i) ==> {
                    let a = self.arquivos.itens@[i];
                    let e = r->Ok_0;
                    &&& e.nome@ == a.nome@
                    &&& e.tamanho == a.tamanho
                    &&& e.permissao@ == texto_octal(a.permissao)
                    &&& e.uid == a.usuario
                    &&& e.gid == a.grupo
                },
    {
        match self.arquivos.posicao(nome) {
            Some(i) => Ok(self.arquivos.itens[i].stat()),
            None => Err(Erro::ArquivoNaoEncontrado),
        }
    }

    /// Creates a file, unless a file already has its name.
    pub fn criar_arquivo(&mut self, arquivo: Arquivo) -> (r: Result<(), Erro>)
        ensures
            tem_nome(old(self).arquivos.itens@, arquivo.nome@) ==> r == Err::<(), Erro>(
                Erro::NomeDuplicado,
            ) && *final(self) == *old(self),
            !tem_nome(old(self).arquivos.itens@, arquivo.nome@) ==> r == Ok::<(), Erro>(())
                && final(self).arquivos.itens@ == old(self).arquivos.itens@.push(arquivo),
            final(self).diretorios == old(self).diretorios,
            final(self).usuarios == old(self).usuarios,
            final(self).grupos == old(self).grupos,
            old(self).bem_formado() ==> final(self).bem_formado(),
    {
        self.arquivos.criar(arquivo)
    }

    /// Creates an empty directory, unless a directory already has its name.
    pub fn criar_diretorio(&mut self, nome: String, permissoes: Permissoes, dono: String) -> (r: Result<(), Erro>)
        ensures
            tem_nome(old(self).diretorios.itens@, nome@) ==> r == Err::<(), Erro>(
                Erro::NomeDuplicado,
            ) && *final(self) == *old(self),
            !tem_nome(old(self).diretorios.itens@, nome@) ==> r == Ok::<(), Erro>(()) && {
                let d = final(self).diretorios.itens@.last();
                &&& final(self).diretorios.itens@.drop_last() == old(self).diretorios.itens@
                &&& final(self).diretorios.itens@.len() == old(self).diretorios.itens@.len() + 1
                &&& d.nome == nome
                &&& d.arquivos@ == Seq::<Arquivo>::empty()
                &&& d.permissoes == permissoes
                &&& d.dono == dono
            },
            final(self).arquivos == old(self).arquivos,
            final(self).usuarios == old(self).usuarios,
            final(self).grupos == old(self).grupos,
            old(self).bem_formado() ==> final(self).bem_formado(),
    {
        let d = Diretorio::new(nome, permissoes, dono);
        let r = self.diretorios.criar(d);
        proof {
            if r is Ok {
                assert(self.diretorios.itens@.drop_last() =~= old(self).diretorios.itens@);
            }
        }
        r
    }

    /// Creates a group with no members, unless a group already has its name.
    pub fn criar_grupo(&mut self, nome: String, gid: u16) -> (r: Result<(), Erro>)
        ensures
            tem_nome(old(self).grupos.itens@, nome@) ==> r == Err::<(), Erro>(Erro::NomeDuplicado)
                && *final(self) == *old(self),
            !tem_nome(old(self).grupos.itens@, nome@) ==> r == Ok::<(), Erro>(()) && {
                let g = final(self).grupos.itens@.last();
                &&& final(self).grupos.itens@.drop_last() == old(self).grupos.itens@
                &&& final(self).grupos.itens@.len() == old(self).grupos.itens@.len() + 1
                &&& g.nome == nome
                &&& g.gid == gid
                &&& g.membros@ == Seq::<Usuario>::empty()
            },
            final(self).arquivos == old(self).arquivos,
            final(self).diretorios == old(self).diretorios,
            final(self).usuarios == old(self).usuarios,
            old(self).bem_formado() ==> final(self).bem_formado(),
    {
        let g = Grupo::new(nome, gid);
        let r = self.grupos.criar(g);
        proof {
            if r is Ok {
                assert(self.grupos.itens@.drop_last() =~= old(self).grupos.itens@);
            }
        }
        r
    }

    /// Deletes the directory `nome`, with the copies of files it holds.
    pub fn remover_diretorio(&mut self, nome: &String) -> (r: Result<(), Erro>)
        ensures
            !tem_nome(old(self).diretorios.itens@, nome@) ==> r == Err::<(), Erro>(
                Erro::DiretorioNaoEncontrado,
            ) && *final(self) == *old(self),
            tem_nome(old(self).diretorios.itens@, nome@) ==> r == Ok::<(), Erro>(()) && forall|i: int|
                #![trigger primeiro_com_nome(old(self).diretorios.itens@, nome@, i)]
                primeiro_com_nome(old(self).diretorios.itens@, nome@, i) ==> final(self).diretorios.itens@
                    == old(self).diretorios.itens@.remove(i),
            final(self).arquivos == old(self).arquivos,
            final(self).usuarios == old(self).usuarios,
            final(self).grupos == old(self).grupos,
            old(self).bem_formado() ==> final(self).bem_formado(),
    {
        match self.diretorios.posicao(nome) {
            None => Err(Erro::DiretorioNaoEncontrado),
            Some(i) => {
                let r = self.diretorios.remover(nome);
                proof {
                    let a = old(self).diretorios.itens@;
                    let b = self.diretorios.itens@;
                    assert(b == a.remove(i as int));
                    if old(self).bem_formado() {
                        assert forall|k: int| 0 <= k < b.len() implies (#[trigger] b[k]).bem_formado() by {
                            if k < i {
                                assert(b[k] == a[k]);
                                assert(a[k].bem_formado());
                            } else {
                                assert(b[k] == a[k + 1]);
                                assert(a[k + 1].bem_formado());
                            }
                        }
                    }
                }
                r
            },
        }
    }
}

} // verus!
