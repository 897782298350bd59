use vstd::prelude::*;

use crate::entidade::{Entidade, nomes, nomes_de, outro_nome, retirar_com_nome, textos};

verus! {

/// A group: name, gid and copies of its member users.
#[derive(Debug, PartialEq, Eq)]
pub struct Grupo {
    pub nome: String,
    pub gid: u16,
    pub membros: Vec<Usuario>,
}

/// A user: name, uid, a copy of its primary group taken when it was created,
/// and copies of its secondary groups.
#[derive(Debug, PartialEq, Eq)]
pub struct Usuario {
    pub nome: String,
    pub uid: u16,
    pub grupo: Grupo,
    pub grupos: Vec<Grupo>,
}

/// The contents of a group, as values.
pub ghost struct GrupoV {
    pub nome: Seq<char>,
    pub gid: u16,
    pub membros: Seq<UsuarioV>,
}

/// The contents of a user, as values.
pub ghost struct UsuarioV {
    pub nome: Seq<char>,
    pub uid: u16,
    pub grupo: GrupoV,
    pub grupos: Seq<GrupoV>,
}

/// What a group holds, its members' copies taken down to values.
pub open spec fn visao_grupo(g: Grupo) -> GrupoV
    decreases g,
{
    GrupoV {
        nome: g.nome@,
        gid: g.gid,
        membros: Seq::new(
            g.membros@.len(),
            |i: int|
                if 0 <= i < g.membros.len() {
                    visao_usuario(g.membros[i])
                } else {
                    arbitrary()
                },
        ),
    }
}

/// What a user holds, its groups' copies taken down to values.
pub open spec fn visao_usuario(u: Usuario) -> UsuarioV
    decreases u,
{
    UsuarioV {
        nome: u.nome@,
        uid: u.uid,
        grupo: visao_grupo(u.grupo),
        grupos: Seq::new(
            u.grupos@.len(),
            |i: int|
                if 0 <= i < u.grupos.len() {
                    visao_grupo(u.grupos[i])
                } else {
                    arbitrary()
                },
        ),
    }
}

impl View for Grupo {
    type V = GrupoV;

    open spec fn view(&self) -> GrupoV {
        visao_grupo(*self)
    }
}

impl View for Usuario {
    type V = UsuarioV;

    open spec fn view(&self) -> UsuarioV {
        visao_usuario(*self)
    }
}

impl Entidade for Grupo {
    open spec fn nome_spec(&self) -> Seq<char> {
        self.nome@
    }

    fn nome(&self) -> (r: &String) {
        &self.nome
    }
}

impl Entidade for Usuario {
    open spec fn nome_spec(&self) -> Seq<char> {
        self.nome@
    }

    fn nome(&self) -> (r: &String) {
        &self.nome
    }
}

impl Grupo {
    /// The group `nome`, with no members.
    pub fn new(nome: String, gid: u16) -> (g: Grupo)
        ensures
            g.nome == nome,
            g.gid == gid,
            g.membros@ == Seq::<Usuario>::empty(),
    {
        Grupo { nome, gid, membros: Vec::new() }
    }

    /// Appends a member; the same user may be added more than once.
    pub fn adiciona_membro(&mut self, usuario: Usuario)
        ensures
            final(self).membros@ == old(self).membros@.push(usuario),
            final(self).nome == old(self).nome,
            final(self).gid == old(self).gid,
    {
        self.membros.push(usuario);
    }

    /// Drops every member named `nome`; nothing happens when there is none.
    pub fn remove_membro(&mut self, nome: String)
        ensures
            final(self).membros@ == old(self).membros@.filter(outro_nome::<Usuario>(nome@)),
            final(self).nome == old(self).nome,
            final(self).gid == old(self).gid,
    {
        retirar_com_nome(&mut self.membros, &nome);
    }

    /// The names of the members, in order.
    pub fn listar_usuarios(&self) -> (r: Vec<String>)
        ensures
            textos(r@) == nomes_de(self.membros@),
    {
        nomes(&self.membros)
    }

    /// An independent copy of the group, members included.
    pub fn copia(&self) -> (r: Grupo)
        ensures
            r@ == self@,
        decreases *self,
    {
        let mut membros: Vec<Usuario> = Vec::new();
        let mut i: usize = 0;
        while i < self.membros.len()
            invariant
                i <= self.membros.len(),
                membros.len() == i,
                forall|j: int| 0 <= j < i ==> (#[trigger] membros[j])@ == self.membros[j]@,
            decreases self.membros.len() - i,
        {
            proof {
                assert(decreases_to!(self.membros => self.membros[i as int]));
            }
            let u = self.membros[i].copia();
            membros.push(u);
            i = i + 1;
        }
        let r = Grupo { nome: self.nome.clone(), gid: self.gid, membros };
        assert(r@.membros =~= self@.membros);
        r
    }
}

impl Usuario {
    /// The user `nome` with primary group `grupo` and no secondary groups.
    pub fn new(nome: String, uid: u16, grupo: Grupo) -> (u: Usuario)
        ensures
            u.nome == nome,
            u.uid == uid,
            u.grupo == grupo,
            u.grupos@ == Seq::<Grupo>::empty(),
    {
        Usuario { nome, uid, grupo, grupos: Vec::new() }
    }

    /// Appends a secondary group; the same group may be added more than once.
    pub fn adiciona_grupo(&mut self, grupo: Grupo)
        ensures
            final(self).grupos@ == old(self).grupos@.push(grupo),
            final(self).nome == old(self).nome,
            final(self).uid == old(self).uid,
            final(self).grupo == old(self).grupo,
    {
        self.grupos.push(grupo);
    }

    /// Drops every secondary group named `nome`; nothing happens when there is none.
    pub fn remove_grupo(&mut self, nome: String)
        ensures
            final(self).grupos@ == old(self).grupos@.filter(outro_nome::<Grupo>(nome@)),
            final(self).nome == old(self).nome,
            final(self).uid == old(self).uid,
            final(self).grupo == old(self).grupo,
    {
        retirar_com_nome(&mut self.grupos, &nome);
    }

    /// The names of the secondary groups, in order; the primary group is not among them.
    pub fn listar_grupos(&self) -> (r: Vec<String>)
        ensures
            textos(r@) == nomes_de(self.grupos@),
    {
        nomes(&self.grupos)
    }

    /// An independent copy of the user, groups included.
    pub fn copia(&self) -> (r: Usuario)
        ensures
            r@ == self@,
        decreases *self,
    {
        let grupo = self.grupo.copia();
        let mut grupos: Vec<Grupo> = Vec::new();
        let mut i: usize = 0;
        while i < self.grupos.len()
            invariant
                i <= self.grupos.len(),
                grupos.len() == i,
                forall|j: int| 0 <= j < i ==> (#[trigger] grupos[j])@ == self.grupos[j]@,
            decreases self.grupos.len() - i,
        {
            let g = self.grupos[i].copia();
            grupos.push(g);
            i = i + 1;
        }
        let r = Usuario { nome: self.nome.clone(), uid: self.uid, grupo, grupos };
        assert(r@.grupos =~= self@.grupos);
        r
    }
}

} // verus!
