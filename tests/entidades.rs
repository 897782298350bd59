use xunil::{permissoes_de_octal, Arquivo, Diretorio, Erro, Grupo, Permissoes, Sistema, Usuario};

fn p(d: u8, g: u8, o: u8) -> Permissoes {
    permissoes_de_octal(d, g, o).unwrap()
}

#[test]
fn arquivo_alterar_permissao_troca_o_conjunto() {
    let mut a = Arquivo::new(String::from("a"), 3, p(6, 4, 4), 7, 8);
    a.alterar_permissao(p(7, 0, 0));
    let e = a.stat();
    assert_eq!(e.permissao, "700");
    assert_eq!(e.tamanho, 3);
    assert_eq!(e.uid, 7);
    assert_eq!(e.gid, 8);
}

#[test]
fn copia_de_arquivo_e_independente() {
    let a = Arquivo::new(String::from("a"), 3, p(6, 4, 4), 7, 8);
    let mut b = a.copia();
    assert_eq!(a, b);
    b.alterar_permissao(p(0, 0, 0));
    assert_eq!(a.stat().permissao, "644");
    assert_eq!(b.stat().permissao, "000");
}

#[test]
fn diretorio_adiciona_e_remove() {
    let mut d = Diretorio::new(String::from("d"), p(7, 5, 5), String::from("ana"));
    let a = Arquivo::new(String::from("a"), 1, p(6, 4, 4), 1, 1);
    let b = Arquivo::new(String::from("b"), 2, p(6, 4, 4), 1, 1);
    assert_eq!(d.adiciona_arquivo(a.copia()), Ok(()));
    assert_eq!(d.adiciona_arquivo(b), Ok(()));
    assert_eq!(d.adiciona_arquivo(a), Err(Erro::ArquivoJaNoDiretorio));
    assert_eq!(d.listar_conteudo(), vec![String::from("a"), String::from("b")]);
    d.remove_arquivo(String::from("a"));
    assert_eq!(d.listar_conteudo(), vec![String::from("b")]);
    d.remove_arquivo(String::from("a"));
    assert_eq!(d.arquivos.len(), 1);
    assert_eq!(d.dono, "ana");
}

#[test]
fn usuario_e_grupo_por_metodos() {
    let staff = Grupo::new(String::from("staff"), 10);
    let mut ana = Usuario::new(String::from("ana"), 5, staff.copia());
    ana.adiciona_grupo(Grupo::new(String::from("dev"), 11));
    ana.adiciona_grupo(Grupo::new(String::from("ops"), 12));
    ana.adiciona_grupo(Grupo::new(String::from("dev"), 11));
    assert_eq!(
        ana.listar_grupos(),
        vec![String::from("dev"), String::from("ops"), String::from("dev")]
    );
    ana.remove_grupo(String::from("dev"));
    assert_eq!(ana.listar_grupos(), vec![String::from("ops")]);
    assert_eq!(ana.grupo.nome, "staff");

    let mut g = staff;
    g.adiciona_membro(ana.copia());
    g.adiciona_membro(Usuario::new(String::from("bia"), 6, Grupo::new(String::from("x"), 1)));
    assert_eq!(g.listar_usuarios(), vec![String::from("ana"), String::from("bia")]);
    g.remove_membro(String::from("ana"));
    assert_eq!(g.listar_usuarios(), vec![String::from("bia")]);
    g.remove_membro(String::from("ninguem"));
    assert_eq!(g.membros.len(), 1);
}

#[test]
fn copia_de_usuario_e_independente() {
    let mut ana = Usuario::new(String::from("ana"), 5, Grupo::new(String::from("staff"), 10));
    ana.adiciona_grupo(Grupo::new(String::from("dev"), 11));
    let copia = ana.copia();
    assert_eq!(copia, ana);
    ana.adiciona_grupo(Grupo::new(String::from("ops"), 12));
    assert_eq!(copia.listar_grupos(), vec![String::from("dev")]);
    assert_eq!(ana.listar_grupos().len(), 2);
}

#[test]
fn remover_diretorio_do_sistema() {
    let mut sis = Sistema::new();
    sis.criar_diretorio(String::from("a"), p(7, 5, 5), String::from("x")).unwrap();
    sis.criar_diretorio(String::from("b"), p(7, 5, 5), String::from("x")).unwrap();
    assert_eq!(sis.remover_diretorio(&String::from("a")), Ok(()));
    assert_eq!(sis.diretorios.listar(), vec![String::from("b")]);
    assert_eq!(sis.remover_diretorio(&String::from("a")), Err(Erro::DiretorioNaoEncontrado));
    assert_eq!(sis.diretorios.len(), 1);
}
