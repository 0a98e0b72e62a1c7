//! The canonical text of a type, as diagnostics show it.

use vstd::prelude::*;
use vstd::string::StringExecFns;
use crate::dtype::{Dtype, DtypeView};
use crate::named::NamedView;

verus! {

/// The character of a decimal digit.
pub open spec fn digit(d: nat) -> char {
    if d == 0 {
        '0'
    } else if d == 1 {
        '1'
    } else if d == 2 {
        '2'
    } else if d == 3 {
        '3'
    } else if d == 4 {
        '4'
    } else if d == 5 {
        '5'
    } else if d == 6 {
        '6'
    } else if d == 7 {
        '7'
    } else if d == 8 {
        '8'
    } else {
        '9'
    }
}

/// A number in decimal, without leading zeros.
pub open spec fn decimal(n: nat) -> Seq<char>
    decreases n,
{
    if n < 10 {
        seq![digit(n)]
    } else {
        decimal(n / 10).push(digit(n % 10))
    }
}

/// `const` and a space for a constant type, nothing for another.
pub open spec fn const_prefix(is_const: bool) -> Seq<char> {
    if is_const {
        "const "@
    } else {
        Seq::empty()
    }
}

/// `const` for a constant type, nothing for another.
pub open spec fn const_suffix(is_const: bool) -> Seq<char> {
    if is_const {
        "const"@
    } else {
        Seq::empty()
    }
}

/// A name, or `%anonymous` in its place.
pub open spec fn name_or_anonymous(name: Option<Seq<char>>) -> Seq<char> {
    match name {
        Some(n) => n,
        None => "%anonymous"@,
    }
}

impl DtypeView {
    /// The canonical text of this type: `unit`; `i32`, `u8`; `f64`; `T*` and
    /// `T*const`; `[n x T]`; ` struct s:<a:T, b:U>`; `R (T, U)`; a typedef
    /// name as it is. `const ` goes before a constant scalar or typedef name,
    /// `const` before the space of a constant struct.
    pub open spec fn render(self) -> Seq<char>
        decreases self,
    {
        match self {
            DtypeView::Unit { is_const } => const_prefix(is_const) + "unit"@,
            DtypeView::Int { width, is_signed, is_const } => const_prefix(is_const) + (
            if is_signed {
                "i"@
            } else {
                "u"@
            }) + decimal(width as nat),
            DtypeView::Float { width, is_const } => const_prefix(is_const) + "f"@ + decimal(
                width as nat,
            ),
            DtypeView::Pointer { inner, is_const } => inner.render() + "*"@ + const_suffix(
                is_const,
            ),
            DtypeView::Array { inner, size } => "["@ + decimal(size as nat) + " x "@
                + inner.render() + "]"@,
            DtypeView::Struct { name, fields, is_const } => const_suffix(is_const) + " struct "@
                + name_or_anonymous(name) + ":<"@ + render_fields(fields) + ">"@,
            DtypeView::Function { ret, params } => ret.render() + " ("@ + render_all(params)
                + ")"@,
            DtypeView::Typedef { name, is_const } => const_prefix(is_const) + name,
        }
    }
}

/// The text of one field: its name, a colon, its type.
pub open spec fn render_field(field: NamedView<DtypeView>) -> Seq<char>
    decreases field,
{
    name_or_anonymous(field.name) + ":"@ + field.inner.render()
}

/// The texts of the fields, with a comma and a space between two.
pub open spec fn render_fields(fields: Seq<NamedView<DtypeView>>) -> Seq<char>
    decreases fields,
{
    if fields.len() == 0 {
        Seq::empty()
    } else if fields.len() == 1 {
        render_field(fields[0])
    } else {
        render_fields(fields.drop_last()) + ", "@ + render_field(fields.last())
    }
}

/// The texts of the types, with a comma and a space between two.
pub open spec fn render_all(dtypes: Seq<DtypeView>) -> Seq<char>
    decreases dtypes,
{
    if dtypes.len() == 0 {
        Seq::empty()
    } else if dtypes.len() == 1 {
        dtypes[0].render()
    } else {
        render_all(dtypes.drop_last()) + ", "@ + dtypes.last().render()
    }
}

/// The text of a decimal digit.
fn digit_text(d: usize) -> (r: &'static str)
    requires
        d < 10,
    ensures
        r@ == seq![digit(d as nat)],
{
    proof {
        reveal_strlit("0");
        reveal_strlit("1");
        reveal_strlit("2");
        reveal_strlit("3");
        reveal_strlit("4");
        reveal_strlit("5");
        reveal_strlit("6");
        reveal_strlit("7");
        reveal_strlit("8");
        reveal_strlit("9");
    }
    let r = if d == 0 {
        "0"
    } else if d == 1 {
        "1"
    } else if d == 2 {
        "2"
    } else if d == 3 {
        "3"
    } else if d == 4 {
        "4"
    } else if d == 5 {
        "5"
    } else if d == 6 {
        "6"
    } else if d == 7 {
        "7"
    } else if d == 8 {
        "8"
    } else {
        "9"
    };
    assert(r@ =~= seq![digit(d as nat)]);
    r
}

/// The text of a number in decimal.
fn decimal_text(n: usize) -> (r: String)
    ensures
        r@ == decimal(n as nat),
    decreases n,
{
    if n < 10 {
        digit_text(n).to_owned()
    } else {
        let mut text = decimal_text(n / 10);
        text.append(digit_text(n % 10));
        assert(text@ =~= decimal(n as nat));
        text
    }
}

impl Dtype {
    /// The canonical text of this type.
    #[verifier::loop_isolation(false)]
    pub fn to_string(&self) -> (r: String)
        ensures
            r@ == self@.render(),
        decreases self,
    {
        let mut text = String::new();
        match self {
            Self::Unit { is_const } => {
                if *is_const {
                    text.append("const ");
                }
                text.append("unit");
            },
            Self::Int { width, is_signed, is_const } => {
                if *is_const {
                    text.append("const ");
                }
                if *is_signed {
                    text.append("i");
                } else {
                    text.append("u");
                }
                text.append(decimal_text(*width).as_str());
            },
            Self::Float { width, is_const } => {
                if *is_const {
                    text.append("const ");
                }
                text.append("f");
                text.append(decimal_text(*width).as_str());
            },
            Self::Pointer { inner, is_const } => {
                text.append(inner.to_string().as_str());
                text.append("*");
                if *is_const {
                    text.append("const");
                }
            },
            Self::Array { inner, size } => {
                text.append("[");
                text.append(decimal_text(*size).as_str());
                text.append(" x ");
                text.append(inner.to_string().as_str());
                text.append("]");
            },
            Self::Struct { name, fields, is_const } => {
                let ghost all = self@->Struct_fields;
                let mut inside = String::new();
                let mut i: usize = 0;
                while i < fields.len()
                    invariant
                        i <= fields.len(),
                        inside@ == render_fields(all.take(i as int)),
                    decreases fields.len() - i,
                {
                    proof {
                        assert(all.take(i + 1).drop_last() =~= all.take(i as int));
                        assert(all.take(i + 1).last() == all[i as int]);
                        assert(all[i as int] == fields@[i as int]@);
                    }
                    let ghost before = inside@;
                    let mut entry = String::new();
                    match &fields[i].name {
                        Some(n) => {
                            entry.append(n.as_str());
                        },
                        None => {
                            entry.append("%anonymous");
                        },
                    }
                    entry.append(":");
                    entry.append(fields[i].inner.to_string().as_str());
                    assert(entry@ =~= render_field(all[i as int]));
                    if i > 0 {
                        inside.append(", ");
                    }
                    inside.append(entry.as_str());
                    assert(inside@ =~= render_fields(all.take(i + 1))) by {
                        if i > 0 {
                            assert(inside@ =~= before + ", "@ + entry@);
                        } else {
                            assert(inside@ =~= entry@);
                            assert(all.take(i + 1)[0] == all[i as int]);
                        }
                    }
                    i += 1;
                }
                proof {
                    assert(all.take(i as int) =~= all);
                }
                if *is_const {
                    text.append("const");
                }
                text.append(" struct ");
                match name {
                    Some(n) => {
                        text.append(n.as_str());
                    },
                    None => {
                        text.append("%anonymous");
                    },
                }
                text.append(":<");
                text.append(inside.as_str());
                text.append(">");
            },
            Self::Function { ret, params } => {
                let ghost all = self@->params;
                let mut inside = String::new();
                let mut i: usize = 0;
                while i < params.len()
                    invariant
                        i <= params.len(),
                        inside@ == render_all(all.take(i as int)),
                    decreases params.len() - i,
                {
                    proof {
                        assert(all.take(i + 1).drop_last() =~= all.take(i as int));
                        assert(all.take(i + 1).last() == all[i as int]);
                        assert(all[i as int] == params@[i as int]@);
                    }
                    if i > 0 {
                        inside.append(", ");
                    }
                    inside.append(params[i].to_string().as_str());
                    assert(inside@ =~= render_all(all.take(i + 1)));
                    i += 1;
                }
                proof {
                    assert(all.take(i as int) =~= all);
                }
                text.append(ret.to_string().as_str());
                text.append(" (");
                text.append(inside.as_str());
                text.append(")");
            },
            Self::Typedef { name, is_const } => {
                if *is_const {
                    text.append("const ");
                }
                text.append(name.as_str());
            },
        }
        assert(text@ =~= self@.render());
        text
    }
}

} // verus!
