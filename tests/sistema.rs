use xunil::{permissoes_de_octal, Arquivo, Erro, Permissoes, Sistema};

fn s(t: &str) -> String {
    String::from(t)
}

fn p755() -> Permissoes {
    permissoes_de_octal(7, 5, 5).unwrap()
}

fn arquivo(nome: &str) -> Arquivo {
    Arquivo::new(s(nome), 10, p755(), 1, 1)
}

#[test]
fn fim_a_fim() {
    let mut sis = Sistema::new();
    assert_eq!(sis.criar_grupo(s("staff"), 10), Ok(()));
    assert_eq!(sis.criar_usuario(s("ana"), 5, &s("staff")), Ok(()));
    let rwxr_xr_x = permissoes_de_octal(7, 5, 5).unwrap();
    assert_eq!(sis.criar_arquivo(Arquivo::new(s("report.txt"), 120, rwxr_xr_x, 5, 10)), Ok(()));
    assert_eq!(sis.criar_diretorio(s("docs"), p755(), s("ana")), Ok(()));
    assert_eq!(sis.adicionar_arquivo_ao_diretorio(&s("docs"), &s("report.txt")), Ok(()));
    assert_eq!(sis.listar_conteudo(&s("docs")), Ok(vec![s("report.txt")]));
    let e = sis.stat_arquivo(&s("report.txt")).unwrap();
    assert_eq!(e.permissao, "755");
    assert_eq!(e.nome, "report.txt");
    assert_eq!(e.tamanho, 120);
    assert_eq!(e.uid, 5);
    assert_eq!(e.gid, 10);
    assert_eq!(sis.usuarios.itens[0].grupo.gid, 10);
}

#[test]
fn nome_duplicado_em_cada_repositorio() {
    let mut sis = Sistema::new();
    assert_eq!(sis.criar_arquivo(arquivo("a")), Ok(()));
    assert_eq!(sis.criar_arquivo(Arquivo::new(s("a"), 99, p755(), 2, 2)), Err(Erro::NomeDuplicado));
    assert_eq!(sis.arquivos.len(), 1);
    assert_eq!(sis.arquivos.itens[0].tamanho, 10);

    assert_eq!(sis.criar_diretorio(s("d"), p755(), s("x")), Ok(()));
    assert_eq!(sis.criar_diretorio(s("d"), p755(), s("y")), Err(Erro::NomeDuplicado));
    assert_eq!(sis.diretorios.len(), 1);

    assert_eq!(sis.criar_grupo(s("g"), 1), Ok(()));
    assert_eq!(sis.criar_grupo(s("g"), 2), Err(Erro::NomeDuplicado));
    assert_eq!(sis.grupos.len(), 1);

    assert_eq!(sis.criar_usuario(s("u"), 1, &s("g")), Ok(()));
    assert_eq!(sis.criar_usuario(s("u"), 2, &s("g")), Err(Erro::NomeDuplicado));
    assert_eq!(sis.usuarios.len(), 1);
    assert_eq!(sis.usuarios.itens[0].uid, 1);
}

#[test]
fn usuario_sem_grupo_principal() {
    let mut sis = Sistema::new();
    assert_eq!(sis.criar_usuario(s("u"), 1, &s("nenhum")), Err(Erro::GrupoNaoEncontrado));
    assert_eq!(sis.usuarios.len(), 0);
}

#[test]
fn anexar_o_mesmo_arquivo_duas_vezes() {
    let mut sis = Sistema::new();
    sis.criar_arquivo(arquivo("a")).unwrap();
    sis.criar_diretorio(s("d"), p755(), s("x")).unwrap();
    assert_eq!(sis.adicionar_arquivo_ao_diretorio(&s("d"), &s("a")), Ok(()));
    assert_eq!(
        sis.adicionar_arquivo_ao_diretorio(&s("d"), &s("a")),
        Err(Erro::ArquivoJaNoDiretorio)
    );
    assert_eq!(sis.diretorios.itens[0].arquivos.len(), 1);
}

#[test]
fn anexar_sem_diretorio_ou_sem_arquivo() {
    let mut sis = Sistema::new();
    sis.criar_arquivo(arquivo("a")).unwrap();
    assert_eq!(
        sis.adicionar_arquivo_ao_diretorio(&s("d"), &s("a")),
        Err(Erro::DiretorioNaoEncontrado)
    );
    sis.criar_diretorio(s("d"), p755(), s("x")).unwrap();
    assert_eq!(
        sis.adicionar_arquivo_ao_diretorio(&s("d"), &s("b")),
        Err(Erro::ArquivoNaoEncontrado)
    );
    assert!(sis.diretorios.itens[0].arquivos.is_empty());
}

#[test]
fn remover_arquivo_ausente_do_diretorio() {
    let mut sis = Sistema::new();
    sis.criar_arquivo(arquivo("a")).unwrap();
    sis.criar_diretorio(s("d"), p755(), s("x")).unwrap();
    sis.adicionar_arquivo_ao_diretorio(&s("d"), &s("a")).unwrap();
    assert_eq!(sis.remover_arquivo_do_diretorio(&s("d"), &s("outro")), Ok(()));
    assert_eq!(sis.diretorios.itens[0].arquivos.len(), 1);
    assert_eq!(sis.remover_arquivo_do_diretorio(&s("e"), &s("a")), Err(Erro::DiretorioNaoEncontrado));
}

#[test]
fn remover_arquivo_do_diretorio_nao_apaga_do_repositorio() {
    let mut sis = Sistema::new();
    sis.criar_arquivo(arquivo("a")).unwrap();
    sis.criar_arquivo(arquivo("b")).unwrap();
    sis.criar_diretorio(s("d"), p755(), s("x")).unwrap();
    sis.adicionar_arquivo_ao_diretorio(&s("d"), &s("a")).unwrap();
    sis.adicionar_arquivo_ao_diretorio(&s("d"), &s("b")).unwrap();
    assert_eq!(sis.remover_arquivo_do_diretorio(&s("d"), &s("a")), Ok(()));
    assert_eq!(sis.listar_conteudo(&s("d")), Ok(vec![s("b")]));
    assert_eq!(sis.arquivos.len(), 2);
}

#[test]
fn apagar_arquivo_nao_afeta_diretorio() {
    let mut sis = Sistema::new();
    sis.criar_arquivo(arquivo("a")).unwrap();
    sis.criar_diretorio(s("d"), p755(), s("x")).unwrap();
    sis.adicionar_arquivo_ao_diretorio(&s("d"), &s("a")).unwrap();
    assert_eq!(sis.arquivos.remover(&s("a")), Ok(()));
    assert_eq!(sis.arquivos.remover(&s("a")), Err(Erro::NaoEncontrado));
    assert_eq!(sis.listar_conteudo(&s("d")), Ok(vec![s("a")]));
}

#[test]
fn grupo_secundario_duas_vezes() {
    let mut sis = Sistema::new();
    sis.criar_grupo(s("staff"), 10).unwrap();
    sis.criar_grupo(s("dev"), 11).unwrap();
    sis.criar_usuario(s("ana"), 5, &s("staff")).unwrap();
    assert_eq!(sis.adicionar_grupo_ao_usuario(&s("ana"), &s("dev")), Ok(()));
    assert_eq!(sis.adicionar_grupo_ao_usuario(&s("ana"), &s("dev")), Ok(()));
    assert_eq!(sis.listar_grupos_do_usuario(&s("ana")), Ok(vec![s("dev"), s("dev")]));
    assert_eq!(sis.remover_grupo_do_usuario(&s("ana"), &s("dev")), Ok(()));
    assert_eq!(sis.listar_grupos_do_usuario(&s("ana")), Ok(vec![]));
}

#[test]
fn erros_de_grupo_secundario() {
    let mut sis = Sistema::new();
    sis.criar_grupo(s("staff"), 10).unwrap();
    assert_eq!(
        sis.adicionar_grupo_ao_usuario(&s("ana"), &s("staff")),
        Err(Erro::UsuarioNaoEncontrado)
    );
    sis.criar_usuario(s("ana"), 5, &s("staff")).unwrap();
    assert_eq!(
        sis.adicionar_grupo_ao_usuario(&s("ana"), &s("dev")),
        Err(Erro::GrupoNaoEncontrado)
    );
    assert_eq!(sis.remover_grupo_do_usuario(&s("bia"), &s("staff")), Err(Erro::UsuarioNaoEncontrado));
    assert_eq!(sis.remover_grupo_do_usuario(&s("ana"), &s("dev")), Ok(()));
    assert_eq!(sis.listar_grupos_do_usuario(&s("bia")), Err(Erro::UsuarioNaoEncontrado));
}

#[test]
fn copia_no_diretorio_nao_muda() {
    let mut sis = Sistema::new();
    sis.criar_arquivo(arquivo("a")).unwrap();
    sis.criar_diretorio(s("d"), p755(), s("x")).unwrap();
    sis.adicionar_arquivo_ao_diretorio(&s("d"), &s("a")).unwrap();
    let nova = permissoes_de_octal(6, 0, 0).unwrap();
    assert_eq!(sis.alterar_permissao_arquivo(&s("a"), nova), Ok(()));
    assert_eq!(sis.stat_arquivo(&s("a")).unwrap().permissao, "600");
    assert_eq!(sis.diretorios.itens[0].arquivos[0].stat().permissao, "755");
    assert_eq!(sis.alterar_permissao_arquivo(&s("b"), nova), Err(Erro::ArquivoNaoEncontrado));
}

#[test]
fn grupo_principal_fora_da_lista() {
    let mut sis = Sistema::new();
    sis.criar_grupo(s("staff"), 10).unwrap();
    sis.criar_usuario(s("ana"), 5, &s("staff")).unwrap();
    assert_eq!(sis.listar_grupos_do_usuario(&s("ana")), Ok(vec![]));
    sis.adicionar_grupo_ao_usuario(&s("ana"), &s("staff")).unwrap();
    assert_eq!(sis.listar_grupos_do_usuario(&s("ana")), Ok(vec![s("staff")]));
}

#[test]
fn membros_de_grupo() {
    let mut sis = Sistema::new();
    sis.criar_grupo(s("staff"), 10).unwrap();
    sis.criar_usuario(s("ana"), 5, &s("staff")).unwrap();
    sis.criar_usuario(s("bia"), 6, &s("staff")).unwrap();
    assert_eq!(sis.adicionar_membro_ao_grupo(&s("staff"), &s("bia")), Ok(()));
    assert_eq!(sis.adicionar_membro_ao_grupo(&s("staff"), &s("ana")), Ok(()));
    assert_eq!(sis.adicionar_membro_ao_grupo(&s("staff"), &s("ana")), Ok(()));
    assert_eq!(
        sis.listar_membros_do_grupo(&s("staff")),
        Ok(vec![s("bia"), s("ana"), s("ana")])
    );
    assert_eq!(sis.remover_membro_do_grupo(&s("staff"), &s("ana")), Ok(()));
    assert_eq!(sis.listar_membros_do_grupo(&s("staff")), Ok(vec![s("bia")]));
    assert_eq!(sis.adicionar_membro_ao_grupo(&s("x"), &s("ana")), Err(Erro::GrupoNaoEncontrado));
    assert_eq!(sis.adicionar_membro_ao_grupo(&s("staff"), &s("zé")), Err(Erro::UsuarioNaoEncontrado));
    assert_eq!(sis.remover_membro_do_grupo(&s("x"), &s("ana")), Err(Erro::GrupoNaoEncontrado));
    assert_eq!(sis.listar_membros_do_grupo(&s("x")), Err(Erro::GrupoNaoEncontrado));
    // the user's copy of its primary group was taken before these members came
    assert!(sis.usuarios.itens[0].grupo.membros.is_empty());
}

#[test]
fn listagem_na_ordem_de_criacao() {
    let mut sis = Sistema::new();
    sis.criar_arquivo(arquivo("zeta")).unwrap();
    sis.criar_arquivo(arquivo("alfa")).unwrap();
    sis.criar_arquivo(arquivo("meio")).unwrap();
    assert_eq!(sis.arquivos.listar(), vec![s("zeta"), s("alfa"), s("meio")]);
    assert_eq!(sis.arquivos.remover(&s("alfa")), Ok(()));
    assert_eq!(sis.arquivos.listar(), vec![s("zeta"), s("meio")]);
    assert_eq!(sis.arquivos.buscar(&s("meio")).map(|a| a.tamanho), Some(10));
    assert!(sis.arquivos.buscar(&s("Meio")).is_none());
}

#[test]
fn permissao_de_diretorio() {
    let mut sis = Sistema::new();
    sis.criar_diretorio(s("d"), p755(), s("x")).unwrap();
    let nova = permissoes_de_octal(7, 0, 0).unwrap();
    assert_eq!(sis.alterar_permissao_diretorio(&s("d"), nova), Ok(()));
    assert_eq!(sis.diretorios.itens[0].permissoes, nova);
    assert_eq!(sis.alterar_permissao_diretorio(&s("e"), nova), Err(Erro::DiretorioNaoEncontrado));
    assert_eq!(sis.listar_conteudo(&s("e")), Err(Erro::DiretorioNaoEncontrado));
    assert_eq!(sis.stat_arquivo(&s("a")), Err(Erro::ArquivoNaoEncontrado));
}
