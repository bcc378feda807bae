//! The expansion of `#[derive(Builder)]`: for a struct with named fields it
//! writes a companion `<Name>Builder` struct whose fields are the struct's
//! fields wrapped in `Option`, and a `builder()` constructor on the struct
//! that starts every field at `None`. The expansion is Rust source text.
use vstd::prelude::*;

use crate::text::push_str;
use crate::text::push_string;

verus! {

/// A named field of the input: its name and its type as source text.
#[derive(Debug, Clone)]
pub struct Field {
    pub ident: String,
    pub ty: String,
}

/// What the derive reads of the item it is attached to.
#[derive(Debug, Clone)]
pub struct DeriveInput {
    pub ident: String,
    /// The fields when the item is a struct with named fields; `None` for
    /// enums, unions, tuple structs and unit structs.
    pub named_fields: Option<Vec<Field>>,
}

/// The derive only applies to structs with named fields.
#[derive(Debug, Clone, Copy, PartialEq, Eq, Structural)]
pub enum BuilderError {
    NotNamedStruct,
}

/// The text of the error.
pub open spec fn builder_error_text(e: BuilderError) -> Seq<char> {
    "Must Define On Struct, Not On Enum"@
}

impl BuilderError {
    /// The message that the compiler shows for this error.
    pub fn message(&self) -> (r: String)
        ensures
            r@ == builder_error_text(*self),
    {
        "Must Define On Struct, Not On Enum".to_owned()
    }
}

/// The pieces, separated by `sep`.
pub open spec fn join(pieces: Seq<Seq<char>>, sep: Seq<char>) -> Seq<char>
    decreases pieces.len(),
{
    if pieces.len() == 0 {
        seq![]
    } else if pieces.len() == 1 {
        pieces[0]
    } else {
        join(pieces.drop_last(), sep) + sep + pieces.last()
    }
}

/// The name of the generated builder struct.
pub open spec fn builder_name(ident: Seq<char>) -> Seq<char> {
    ident + "Builder"@
}

/// `name: std::option::Option<Type>` for one field.
pub open spec fn field_def(f: Field) -> Seq<char> {
    f.ident@ + ": std::option::Option<"@ + f.ty@ + ">"@
}

/// `name: std::option::Option::None` for one field.
pub open spec fn init_clause(f: Field) -> Seq<char> {
    f.ident@ + ": std::option::Option::None"@
}

/// A setter for one field.
pub open spec fn setter(f: Field) -> Seq<char> {
    "fn "@ + f.ident@ + "(&mut self, "@ + f.ident@ + ": "@ + f.ty@ + ") -> &mut Self { self."@ + f.ident@
        + " = std::option::Option::Some("@ + f.ident@ + "); }"@
}

/// The optional-field declarations of the builder, comma-separated.
pub open spec fn field_defs(fields: Seq<Field>) -> Seq<char> {
    join(fields.map_values(|f: Field| field_def(f)), ", "@)
}

/// The whole expansion for a struct named `ident` with the given fields.
pub open spec fn expansion(ident: Seq<char>, fields: Seq<Field>) -> Seq<char> {
    "pub struct "@ + builder_name(ident) + " { "@ + field_defs(fields) + " } impl "@ + ident
        + " { pub fn builder() -> "@ + builder_name(ident) + " { "@ + builder_name(ident) + " { "@
        + join(fields.map_values(|f: Field| init_clause(f)), ", "@) + " } } }"@
}

/// The named fields of the input, or the error when it is not a struct
/// with named fields.
pub fn get_fields_from_derive_input(st: &DeriveInput) -> (r: Result<&Vec<Field>, BuilderError>)
    ensures
        match st.named_fields {
            Some(fields) => r == Ok::<&Vec<Field>, BuilderError>(&fields),
            None => r == Err::<&Vec<Field>, BuilderError>(BuilderError::NotNamedStruct),
        },
{
    match &st.named_fields {
        Some(named) => Ok(named),
        None => Err(BuilderError::NotNamedStruct),
    }
}

/// Appends the pieces, separated by `sep`, to `out`.
fn push_joined(out: &mut String, pieces: &Vec<String>, sep: &str)
    ensures
        final(out)@ == old(out)@ + join(pieces@.map_values(|p: String| p@), sep@),
{
    let ghost start = out@;
    let ghost views = pieces@.map_values(|p: String| p@);
    let mut i: usize = 0;
    while i < pieces.len()
        invariant
            i <= pieces.len(),
            views == pieces@.map_values(|p: String| p@),
            out@ == start + join(views.take(i as int), sep@),
        decreases pieces.len() - i,
    {
        proof {
            assert(views.take(i + 1).drop_last() =~= views.take(i as int));
            assert(views.take(i + 1).last() == pieces@[i as int]@);
        }
        if i > 0 {
            push_str(out, sep);
        }
        push_string(out, &pieces[i]);
        proof {
            if i == 0 {
                assert(views.take(1) =~= seq![pieces@[0]@]);
            }
        }
        i = i + 1;
    }
    assert(views.take(pieces.len() as int) =~= views);
}

/// One `name: std::option::Option<Type>` declaration per field.
pub fn gen_builder_struct_field_def(st: &DeriveInput) -> (r: Result<Vec<String>, BuilderError>)
    ensures
        match st.named_fields {
            Some(fields) => r matches Ok(defs) && defs@.map_values(|p: String| p@) == fields@.map_values(
                |f: Field| field_def(f),
            ),
            None => r == Err::<Vec<String>, BuilderError>(BuilderError::NotNamedStruct),
        },
{
    let fields = get_fields_from_derive_input(st)?;
    let mut defs: Vec<String> = Vec::new();
    let mut i: usize = 0;
    while i < fields.len()
        invariant
            i <= fields.len(),
            defs@.len() == i,
            forall|k: int| 0 <= k < i ==> #[trigger] defs@[k]@ == field_def(fields@[k]),
        decreases fields.len() - i,
    {
        let f = &fields[i];
        let mut d = String::new();
        push_string(&mut d, &f.ident);
        push_str(&mut d, ": std::option::Option<");
        push_string(&mut d, &f.ty);
        push_str(&mut d, ">");
        defs.push(d);
        i = i + 1;
    }
    assert(defs@.map_values(|p: String| p@) =~= fields@.map_values(|f: Field| field_def(f)));
    Ok(defs)
}

/// One `name: std::option::Option::None` initialiser per field.
pub fn gen_builder_struct_factory_init_clauses(st: &DeriveInput) -> (r: Result<Vec<String>, BuilderError>)
    ensures
        match st.named_fields {
            Some(fields) => r matches Ok(clauses) && clauses@.map_values(|p: String| p@)
                == fields@.map_values(|f: Field| init_clause(f)),
            None => r == Err::<Vec<String>, BuilderError>(BuilderError::NotNamedStruct),
        },
{
    let fields = get_fields_from_derive_input(st)?;
    let mut clauses: Vec<String> = Vec::new();
    let mut i: usize = 0;
    while i < fields.len()
        invariant
            i <= fields.len(),
            clauses@.len() == i,
            forall|k: int| 0 <= k < i ==> #[trigger] clauses@[k]@ == init_clause(fields@[k]),
        decreases fields.len() - i,
    {
        let mut c = String::new();
        push_string(&mut c, &fields[i].ident);
        push_str(&mut c, ": std::option::Option::None");
        clauses.push(c);
        i = i + 1;
    }
    assert(clauses@.map_values(|p: String| p@) =~= fields@.map_values(|f: Field| init_clause(f)));
    Ok(clauses)
}

/// A setter per field, one after the other.
pub fn gen_setter_functions(st: &DeriveInput) -> (r: Result<String, BuilderError>)
    ensures
        match st.named_fields {
            Some(fields) => r matches Ok(text) && text@ == join(
                fields@.map_values(|f: Field| setter(f)),
                ""@,
            ),
            None => r == Err::<String, BuilderError>(BuilderError::NotNamedStruct),
        },
{
    let fields = get_fields_from_derive_input(st)?;
    let mut setters: Vec<String> = Vec::new();
    let mut i: usize = 0;
    while i < fields.len()
        invariant
            i <= fields.len(),
            setters@.len() == i,
            forall|k: int| 0 <= k < i ==> #[trigger] setters@[k]@ == setter(fields@[k]),
        decreases fields.len() - i,
    {
        let f = &fields[i];
        let mut s = String::new();
        push_str(&mut s, "fn ");
        push_string(&mut s, &f.ident);
        push_str(&mut s, "(&mut self, ");
        push_string(&mut s, &f.ident);
        push_str(&mut s, ": ");
        push_string(&mut s, &f.ty);
        push_str(&mut s, ") -> &mut Self { self.");
        push_string(&mut s, &f.ident);
        push_str(&mut s, " = std::option::Option::Some(");
        push_string(&mut s, &f.ident);
        push_str(&mut s, "); }");
        setters.push(s);
        i = i + 1;
    }
    assert(setters@.map_values(|p: String| p@) =~= fields@.map_values(|f: Field| setter(f)));
    let mut out = String::new();
    push_joined(&mut out, &setters, "");
    Ok(out)
}

/// The expansion of `#[derive(Builder)]` on `st`.
pub fn do_extend(st: &DeriveInput) -> (r: Result<String, BuilderError>)
    ensures
        match st.named_fields {
            Some(fields) => r matches Ok(text) && text@ == expansion(st.ident@, fields@),
            None => r == Err::<String, BuilderError>(BuilderError::NotNamedStruct),
        },
{
    let build_struct_field = gen_builder_struct_field_def(st)?;
    let init_clauses = gen_builder_struct_factory_init_clauses(st)?;
    let mut builder_name = String::new();
    push_string(&mut builder_name, &st.ident);
    push_str(&mut builder_name, "Builder");
    let mut out = String::new();
    push_str(&mut out, "pub struct ");
    push_string(&mut out, &builder_name);
    push_str(&mut out, " { ");
    push_joined(&mut out, &build_struct_field, ", ");
    push_str(&mut out, " } impl ");
    push_string(&mut out, &st.ident);
    push_str(&mut out, " { pub fn builder() -> ");
    push_string(&mut out, &builder_name);
    push_str(&mut out, " { ");
    push_string(&mut out, &builder_name);
    push_str(&mut out, " { ");
    push_joined(&mut out, &init_clauses, ", ");
    push_str(&mut out, " } } }");
    Ok(out)
}

/// The total length of the pieces.
pub open spec fn pieces_len(pieces: Seq<Seq<char>>) -> nat
    decreases pieces.len(),
{
    if pieces.len() == 0 {
        0
    } else {
        pieces_len(pieces.drop_last()) + pieces.last().len()
    }
}

/// Adding a piece at the end of a nonempty list adds one separator and the
/// piece: neighbouring pieces are always separated by `sep`.
pub proof fn law_join_append(pieces: Seq<Seq<char>>, q: Seq<char>, sep: Seq<char>)
    requires
        pieces.len() > 0,
    ensures
        join(pieces.push(q), sep) == join(pieces, sep) + sep + q,
{
    assert(pieces.push(q).drop_last() =~= pieces);
}

/// Adding a piece at the front of a nonempty list adds the piece and one
/// separator.
pub proof fn law_join_prepend(p: Seq<char>, pieces: Seq<Seq<char>>, sep: Seq<char>)
    requires
        pieces.len() > 0,
    ensures
        join(seq![p] + pieces, sep) == p + sep + join(pieces, sep),
    decreases pieces.len(),
{
    let all = seq![p] + pieces;
    if pieces.len() == 1 {
        assert(all.drop_last() =~= seq![p]);
        assert(join(all.drop_last(), sep) == p);
        assert(all.last() == pieces[0]);
        assert(join(pieces, sep) == pieces[0]);
        assert(join(all, sep) == join(all.drop_last(), sep) + sep + all.last());
    } else {
        law_join_prepend(p, pieces.drop_last(), sep);
        assert(all.drop_last() =~= seq![p] + pieces.drop_last());
        assert(all.last() == pieces.last());
        assert(all.len() > 1);
        assert(join(all, sep) == join(all.drop_last(), sep) + sep + all.last());
        assert(join(pieces, sep) == join(pieces.drop_last(), sep) + sep + pieces.last());
        assert(join(all, sep) =~= p + sep + join(pieces, sep));
    }
}

/// A join of `n` pieces holds the pieces and `n - 1` separators, and nothing
/// else.
pub proof fn law_join_len(pieces: Seq<Seq<char>>, sep: Seq<char>)
    requires
        pieces.len() > 0,
    ensures
        join(pieces, sep).len() == pieces_len(pieces) + (pieces.len() - 1) * sep.len(),
    decreases pieces.len(),
{
    if pieces.len() > 1 {
        law_join_len(pieces.drop_last(), sep);
        let n = pieces.len() as int;
        let l = sep.len() as int;
        assert((n - 1) * l == (n - 2) * l + l) by (nonlinear_arith);
        assert(join(pieces, sep) == join(pieces.drop_last(), sep) + sep + pieces.last());
        assert(pieces_len(pieces) == pieces_len(pieces.drop_last()) + pieces.last().len());
    } else {
        assert(pieces_len(pieces.drop_last()) == 0);
        assert(pieces.last() == pieces[0]);
    }
}

} // verus!
