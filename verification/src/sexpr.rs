//! The concrete-syntax tree a declaration renders to, and its textual
//! form.

use vstd::prelude::*;

verus! {

/// The ghost view of a rendered node.
pub enum SExprV {
    List { items: Seq<SExprV> },
    Word { text: Seq<char> },
    Ident { text: Seq<char> },
    Quote { text: Seq<char> },
    Annot { text: Seq<char> },
}

/// One node of the concrete syntax: a parenthesized list, a bare word,
/// a `$`-prefixed identifier, a quoted string, or an `@`-prefixed
/// annotation.
pub enum SExpr {
    List(Vec<SExpr>),
    Word(String),
    Ident(String),
    Quote(String),
    Annot(String),
}

/// The ghost view of a node.
pub open spec fn sexpr_view(s: SExpr) -> SExprV
    decreases s,
{
    match s {
        SExpr::List(items) => SExprV::List { items: sexpr_views(items@) },
        SExpr::Word(t) => SExprV::Word { text: t@ },
        SExpr::Ident(t) => SExprV::Ident { text: t@ },
        SExpr::Quote(t) => SExprV::Quote { text: t@ },
        SExpr::Annot(t) => SExprV::Annot { text: t@ },
    }
}

/// The ghost views of a list of nodes.
pub open spec fn sexpr_views(items: Seq<SExpr>) -> Seq<SExprV>
    decreases items,
{
    if items.len() == 0 {
        Seq::empty()
    } else {
        sexpr_views(items.drop_last()).push(sexpr_view(items.last()))
    }
}

impl View for SExpr {
    type V = SExprV;

    open spec fn view(&self) -> SExprV {
        sexpr_view(*self)
    }
}

/// The text of one node: lists are parenthesized with their items
/// separated by single spaces.
pub open spec fn render_sv(s: SExprV) -> Seq<char>
    decreases s,
{
    match s {
        SExprV::List { items } => seq!['('] + render_sv_items(items) + seq![')'],
        SExprV::Word { text } => text,
        SExprV::Ident { text } => seq!['$'] + text,
        SExprV::Quote { text } => seq!['"'] + text + seq!['"'],
        SExprV::Annot { text } => seq!['@'] + text,
    }
}

/// The items of a list joined by single spaces.
pub open spec fn render_sv_items(items: Seq<SExprV>) -> Seq<char>
    decreases items,
{
    if items.len() == 0 {
        Seq::empty()
    } else if items.len() == 1 {
        render_sv(items[0])
    } else {
        render_sv_items(items.drop_last()) + seq![' '] + render_sv(items.last())
    }
}

/// The views of a node list match it element by element.
pub proof fn lemma_sexpr_views(items: Seq<SExpr>)
    ensures
        sexpr_views(items).len() == items.len(),
        forall|i: int|
            0 <= i < items.len() ==> #[trigger] sexpr_views(items)[i] == sexpr_view(items[i]),
    decreases items,
{
    if items.len() > 0 {
        lemma_sexpr_views(items.drop_last());
        assert forall|i: int| 0 <= i < items.len() implies #[trigger] sexpr_views(items)[i]
            == sexpr_view(items[i]) by {
            if i < items.len() - 1 {
                assert(sexpr_views(items)[i] == sexpr_views(items.drop_last())[i]);
                assert(items.drop_last()[i] == items[i]);
            }
        }
    }
}

/// The digit character of one decimal digit.
pub open spec fn dec_digit(d: nat) -> char {
    if d == 0 {
        '0'
    } else if d == 1 {
        '1'
    } else if d == 2 {
        '2'
    } else if d == 3 {
        '3'
    } else if d == 4 {
        '4'
    } else if d == 5 {
        '5'
    } else if d == 6 {
        '6'
    } else if d == 7 {
        '7'
    } else if d == 8 {
        '8'
    } else {
        '9'
    }
}

/// The decimal digits of a number, most significant first.
pub open spec fn dec_digits(n: nat) -> Seq<char>
    decreases n,
{
    if n < 10 {
        seq![dec_digit(n)]
    } else {
        dec_digits(n / 10) + seq![dec_digit(n % 10)]
    }
}

/// The digit character of one decimal digit.
fn dec_digit_str(d: u64) -> (r: &'static str)
    requires
        d < 10,
    ensures
        r@ == seq![dec_digit(d as nat)],
{
    let r: &'static str = if d == 0 {
        "0"
    } else if d == 1 {
        "1"
    } else if d == 2 {
        "2"
    } else if d == 3 {
        "3"
    } else if d == 4 {
        "4"
    } else if d == 5 {
        "5"
    } else if d == 6 {
        "6"
    } else if d == 7 {
        "7"
    } else if d == 8 {
        "8"
    } else {
        "9"
    };
    proof {
        reveal_strlit("0");
        reveal_strlit("1");
        reveal_strlit("2");
        reveal_strlit("3");
        reveal_strlit("4");
        reveal_strlit("5");
        reveal_strlit("6");
        reveal_strlit("7");
        reveal_strlit("8");
        reveal_strlit("9");
        assert(r@ =~= seq![dec_digit(d as nat)]);
    }
    r
}

/// The decimal text of a number.
pub fn dec_string(n: u64) -> (r: String)
    ensures
        r@ == dec_digits(n as nat),
    decreases n,
{
    if n < 10 {
        let mut s = String::new();
        s.append(dec_digit_str(n));
        proof {
            assert(s@ =~= dec_digits(n as nat));
        }
        s
    } else {
        let mut s = dec_string(n / 10);
        s.append(dec_digit_str(n % 10));
        proof {
            assert(s@ =~= dec_digits(n as nat));
        }
        s
    }
}

/// A prefix followed by a decimal number, as one identifier text.
pub open spec fn pref_num(prefix: Seq<char>, i: int) -> Seq<char> {
    prefix + dec_digits(i as nat)
}

/// Builds the text of a numbered identifier.
pub fn make_text(prefix: &str, i: usize) -> (r: String)
    ensures
        r@ == pref_num(prefix@, i as int),
{
    let mut s = String::new();
    s.append(prefix);
    let d = dec_string(i as u64);
    s.append(d.as_str());
    proof {
        assert(s@ =~= pref_num(prefix@, i as int));
    }
    s
}

impl SExpr {
    /// The text of this node.
    pub fn render(&self) -> (r: String)
        ensures
            r@ == render_sv(self@),
        decreases *self, 1int,
    {
        match self {
            SExpr::List(items) => {
                let mut out = String::new();
                out.append("(");
                let inner = render_list(items, items.len());
                out.append(inner.as_str());
                out.append(")");
                proof {
                    reveal_strlit("(");
                    reveal_strlit(")");
                    assert(items@.take(items@.len() as int) =~= items@);
                    assert(out@ =~= render_sv(self@));
                }
                out
            },
            SExpr::Word(t) => t.clone(),
            SExpr::Ident(t) => {
                let mut out = String::new();
                out.append("$");
                out.append(t.as_str());
                proof {
                    reveal_strlit("$");
                    assert(out@ =~= render_sv(self@));
                }
                out
            },
            SExpr::Quote(t) => {
                let mut out = String::new();
                out.append("\"");
                out.append(t.as_str());
                out.append("\"");
                proof {
                    reveal_strlit("\"");
                    assert(out@ =~= render_sv(self@));
                }
                out
            },
            SExpr::Annot(t) => {
                let mut out = String::new();
                out.append("@");
                out.append(t.as_str());
                proof {
                    reveal_strlit("@");
                    assert(out@ =~= render_sv(self@));
                }
                out
            },
        }
    }
}

/// The text of the first `n` nodes of a list, joined by single spaces.
fn render_list(items: &Vec<SExpr>, n: usize) -> (r: String)
    requires
        n <= items@.len(),
    ensures
        r@ == render_sv_items(sexpr_views(items@.take(n as int))),
    decreases items@, n,
{
    proof {
        lemma_sexpr_views(items@.take(n as int));
    }
    if n == 0 {
        let r = String::new();
        proof {
            assert(items@.take(0) =~= Seq::<SExpr>::empty());
        }
        r
    } else if n == 1 {
        let r = items[0].render();
        proof {
            assert(items@.take(1).last() == items@[0]);
            assert(sexpr_views(items@.take(1))[0] == sexpr_view(items@[0]));
        }
        r
    } else {
        let mut r = render_list(items, n - 1);
        r.append(" ");
        let piece = items[n - 1].render();
        r.append(piece.as_str());
        proof {
            reveal_strlit(" ");
            lemma_sexpr_views(items@.take(n - 1));
            let full = sexpr_views(items@.take(n as int));
            assert(items@.take(n as int).drop_last() =~= items@.take(n - 1));
            assert(full.drop_last() =~= sexpr_views(items@.take(n - 1)));
            assert(full.last() == sexpr_view(items@[n - 1]));
            assert(r@ =~= render_sv_items(full));
        }
        r
    }
}

} // verus!
