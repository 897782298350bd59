use vstd::prelude::*;

use crate::erro::Erro;

verus! {

/// One read/write/execute capability triple.
#[derive(Debug, Clone, Copy, PartialEq, Eq, Structural)]
pub struct Permissao {
    pub r: bool,
    pub w: bool,
    pub x: bool,
}

/// Owner, group and other permissions, in that order.
pub type Permissoes = (Permissao, Permissao, Permissao);

/// The octal digit of a permission: read counts 4, write 2, execute 1.
pub open spec fn valor_octal(p: Permissao) -> nat {
    (if p.r { 4nat } else { 0nat }) + (if p.w { 2nat } else { 0nat }) + (if p.x { 1nat } else { 0nat })
}

/// The permission whose octal digit is `d` (meaningful for `d <= 7`).
pub open spec fn permissao_de_octal(d: nat) -> Permissao {
    Permissao { r: d >= 4, w: d % 4 >= 2, x: d % 2 == 1 }
}

/// The character of an octal digit.
pub open spec fn caractere_octal(d: nat) -> char {
    if d == 0 {
        '0'
    } else if d == 1 {
        '1'
    } else if d == 2 {
        '2'
    } else if d == 3 {
        '3'
    } else if d == 4 {
        '4'
    } else if d == 5 {
        '5'
    } else if d == 6 {
        '6'
    } else {
        '7'
    }
}

/// A permission set rendered as three octal digits, owner first ("754").
pub open spec fn texto_octal(p: Permissoes) -> Seq<char> {
    seq![
        caractere_octal(valor_octal(p.0)),
        caractere_octal(valor_octal(p.1)),
        caractere_octal(valor_octal(p.2)),
    ]
}

impl Permissao {
    pub fn new(r: bool, w: bool, x: bool) -> (p: Permissao)
        ensures
            p == (Permissao { r, w, x }),
    {
        Permissao { r, w, x }
    }

    /// Encodes the permission as one octal digit.
    pub fn octal(&self) -> (d: u8)
        ensures
            d as nat == valor_octal(*self),
            d <= 7,
    {
        let r: u8 = 4;
        let w: u8 = 2;
        let x: u8 = 1;
        let mut soma: u8 = 0;
        if self.r {
            soma += r;
        }
        if self.w {
            soma += w;
        }
        if self.x {
            soma += x;
        }
        soma
    }

    /// Decodes one octal digit; digits above 7 are rejected.
    pub fn de_octal(d: u8) -> (res: Result<Permissao, Erro>)
        ensures
            d <= 7 ==> res == Ok::<Permissao, Erro>(permissao_de_octal(d as nat)),
            d > 7 ==> res == Err::<Permissao, Erro>(Erro::OctalInvalido),
    {
        if d > 7 {
            Err(Erro::OctalInvalido)
        } else {
            Ok(Permissao { r: d >= 4, w: d % 4 >= 2, x: d % 2 == 1 })
        }
    }
}

/// Decodes a permission set from its three octal digits (owner, group, other).
/// Fails when any one of the digits is above 7.
pub fn permissoes_de_octal(dono: u8, grupo: u8, outros: u8) -> (res: Result<Permissoes, Erro>)
    ensures
        dono <= 7 && grupo <= 7 && outros <= 7 ==> res == Ok::<Permissoes, Erro>(
            (
                permissao_de_octal(dono as nat),
                permissao_de_octal(grupo as nat),
                permissao_de_octal(outros as nat),
            ),
        ),
        dono > 7 || grupo > 7 || outros > 7 ==> res == Err::<Permissoes, Erro>(Erro::OctalInvalido),
{
    let d = Permissao::de_octal(dono)?;
    let g = Permissao::de_octal(grupo)?;
    let o = Permissao::de_octal(outros)?;
    Ok((d, g, o))
}

/// The digit string of one octal value.
fn digito(d: u8) -> (s: &'static str)
    requires
        d <= 7,
    ensures
        s@ == seq![caractere_octal(d as nat)],
{
    proof {
        reveal_strlit("0");
        reveal_strlit("1");
        reveal_strlit("2");
        reveal_strlit("3");
        reveal_strlit("4");
        reveal_strlit("5");
        reveal_strlit("6");
        reveal_strlit("7");
    }
    if d == 0 {
        "0"
    } else if d == 1 {
        "1"
    } else if d == 2 {
        "2"
    } else if d == 3 {
        "3"
    } else if d == 4 {
        "4"
    } else if d == 5 {
        "5"
    } else if d == 6 {
        "6"
    } else {
        "7"
    }
}

/// Renders a permission set as three octal digits, owner first.
pub fn octal_permissoes(p: &Permissoes) -> (s: String)
    ensures
        s@ == texto_octal(*p),
{
    let mut s = String::new();
    s.append(digito(p.0.octal()));
    s.append(digito(p.1.octal()));
    s.append(digito(p.2.octal()));
    assert(s@ =~= texto_octal(*p));
    s
}

/// Builds a permission from three answers, one per bit; an answer grants the
/// bit exactly when it is "1".
pub fn criar_permissao_individual(r: &String, w: &String, x: &String) -> (p: Permissao)
    ensures
        p.r == (r@ == seq!['1']),
        p.w == (w@ == seq!['1']),
        p.x == (x@ == seq!['1']),
{
    let um = "1".to_string();
    proof {
        broadcast use vstd::string::to_string_from_display_ensures_for_str;

        reveal_strlit("1");
        assert(um@ =~= seq!['1']);
    }
    Permissao::new(*r == um, *w == um, *x == um)
}

} // verus!
