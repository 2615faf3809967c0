use vstd::prelude::*;
use crate::model::{
    BindingShape, DeclShape, ExportName, HandlerView, HttpMethod, SpecifierShape, TopLevelItem,
    handlers_view,
};

verus! {

/// The name a variable export contributes: that of its last declarator
/// that binds a plain identifier; other declarators are skipped.
pub open spec fn var_export_name(decls: Seq<BindingShape>) -> Option<Seq<char>>
    decreases decls.len(),
{
    if decls.len() == 0 {
        None
    } else {
        match decls.last() {
            BindingShape::Ident(name) => Some(name@),
            BindingShape::Other => var_export_name(decls.drop_last()),
        }
    }
}

/// The record for a name, if there is a name and it is not empty.
pub open spec fn named_handler(name: Option<Seq<char>>, pos: Option<u32>) -> Seq<HandlerView> {
    match name {
        Some(n) => if n.len() > 0 {
            seq![HandlerView { method: n, pos }]
        } else {
            Seq::empty()
        },
        None => Seq::empty(),
    }
}

pub open spec fn decl_handlers(decl: DeclShape, start: u32) -> Seq<HandlerView> {
    match decl {
        DeclShape::Function(name) => named_handler(Some(name@), Some(start)),
        DeclShape::Variables(decls) => named_handler(var_export_name(decls@), Some(start)),
        DeclShape::Other => Seq::empty(),
    }
}

pub open spec fn export_name_text(n: ExportName) -> Seq<char> {
    match n {
        ExportName::Ident(s) => s@,
        ExportName::Str(s) => s@,
    }
}

/// The externally visible name of an export specifier: the alias when there
/// is one, else the original identifier. Type-only specifiers have none.
pub open spec fn specifier_name(s: SpecifierShape) -> Option<Seq<char>> {
    match s {
        SpecifierShape::Named { orig, exported, type_only } => if type_only {
            None
        } else {
            match exported {
                Some(alias) => Some(export_name_text(alias)),
                None => match orig {
                    ExportName::Ident(name) => Some(name@),
                    ExportName::Str(_) => None,
                },
            }
        },
        SpecifierShape::Other => None,
    }
}

pub open spec fn specifier_handlers(specs: Seq<SpecifierShape>) -> Seq<HandlerView>
    decreases specs.len(),
{
    if specs.len() == 0 {
        Seq::empty()
    } else {
        specifier_handlers(specs.drop_last()) + named_handler(specifier_name(specs.last()), None)
    }
}

pub open spec fn item_handlers(item: TopLevelItem) -> Seq<HandlerView> {
    match item {
        TopLevelItem::ExportDecl { decl, start } => decl_handlers(decl, start),
        TopLevelItem::NamedExport { specifiers, type_only } => if type_only {
            Seq::empty()
        } else {
            specifier_handlers(specifiers@)
        },
        TopLevelItem::Other => Seq::empty(),
    }
}

/// The handler exports of a module, in declaration order.
pub open spec fn handlers_of(items: Seq<TopLevelItem>) -> Seq<HandlerView>
    decreases items.len(),
{
    if items.len() == 0 {
        Seq::empty()
    } else {
        handlers_of(items.drop_last()) + item_handlers(items.last())
    }
}

/// `export function NAME() {}` yields exactly one handler, named NAME and
/// placed at the start of the export.
pub proof fn lemma_function_export(name: String, start: u32)
    requires
        name@.len() > 0,
    ensures
        item_handlers(TopLevelItem::ExportDecl { decl: DeclShape::Function(name), start })
            == seq![HandlerView { method: name@, pos: Some(start) }],
{
}

/// `export const NAME = ...` yields exactly one handler, named NAME and
/// placed at the start of the export.
pub proof fn lemma_variable_export(decls: Vec<BindingShape>, name: String, start: u32)
    requires
        decls@ == seq![BindingShape::Ident(name)],
        name@.len() > 0,
    ensures
        item_handlers(TopLevelItem::ExportDecl { decl: DeclShape::Variables(decls), start })
            == seq![HandlerView { method: name@, pos: Some(start) }],
{
    assert(decls@.last() == BindingShape::Ident(name));
}

/// No handler is recorded under an empty name.
pub proof fn lemma_handler_names_nonempty(items: Seq<TopLevelItem>)
    ensures
        forall|i: int|
            0 <= i < handlers_of(items).len() ==> (#[trigger] handlers_of(items)[i]).method.len()
                > 0,
    decreases items.len(),
{
    if items.len() > 0 {
        lemma_handler_names_nonempty(items.drop_last());
        let prefix = handlers_of(items.drop_last());
        let last = item_handlers(items.last());
        match items.last() {
            TopLevelItem::NamedExport { specifiers, type_only } => {
                lemma_specifier_names_nonempty(specifiers@);
            },
            _ => {},
        }
        assert forall|i: int| 0 <= i < handlers_of(items).len() implies (#[trigger] handlers_of(
            items,
        )[i]).method.len() > 0 by {
            if i >= prefix.len() {
                assert(handlers_of(items)[i] == last[i - prefix.len()]);
            } else {
                assert(handlers_of(items)[i] == prefix[i]);
            }
        }
    }
}

proof fn lemma_specifier_names_nonempty(specs: Seq<SpecifierShape>)
    ensures
        forall|i: int|
            0 <= i < specifier_handlers(specs).len() ==> (#[trigger] specifier_handlers(
                specs,
            )[i]).method.len() > 0,
    decreases specs.len(),
{
    if specs.len() > 0 {
        lemma_specifier_names_nonempty(specs.drop_last());
        let prefix = specifier_handlers(specs.drop_last());
        let last = named_handler(specifier_name(specs.last()), None);
        assert forall|i: int| 0 <= i < specifier_handlers(specs).len() implies (
        #[trigger] specifier_handlers(specs)[i]).method.len() > 0 by {
            if i >= prefix.len() {
                assert(specifier_handlers(specs)[i] == last[i - prefix.len()]);
            } else {
                assert(specifier_handlers(specs)[i] == prefix[i]);
            }
        }
    }
}

proof fn lemma_push_view(v: Seq<HttpMethod>, h: HttpMethod)
    ensures
        handlers_view(v.push(h)) == handlers_view(v).push(h@),
{
    assert(handlers_view(v.push(h)) =~= handlers_view(v).push(h@));
}

fn push_named(out: &mut Vec<HttpMethod>, name: Option<String>, pos: Option<u32>)
    ensures
        handlers_view(final(out)@) == handlers_view(old(out)@) + named_handler(
            match name {
                Some(n) => Some(n@),
                None => None,
            },
            pos,
        ),
{
    if let Some(method_type) = name {
        if method_type.as_str().unicode_len() > 0 {
            let h = HttpMethod { method_type, pos };
            proof {
                lemma_push_view(out@, h);
            }
            out.push(h);
            assert(handlers_view(out@) =~= handlers_view(old(out)@) + seq![h@]);
            return;
        }
    }
    assert(handlers_view(out@) =~= handlers_view(old(out)@) + Seq::<HandlerView>::empty());
}

/// Name of a variable export: that of the last identifier declarator.
pub fn var_export_name_of(decls: &Vec<BindingShape>) -> (r: Option<String>)
    ensures
        match r {
            Some(s) => var_export_name(decls@) == Some(s@),
            None => var_export_name(decls@) is None,
        },
{
    let mut i: usize = decls.len();
    assert(decls@.subrange(0, i as int) =~= decls@);
    while i > 0
        invariant
            i <= decls@.len(),
            var_export_name(decls@) == var_export_name(decls@.subrange(0, i as int)),
        decreases i,
    {
        assert(decls@.subrange(0, i as int).drop_last() =~= decls@.subrange(0, i - 1));
        match &decls[i - 1] {
            BindingShape::Ident(name) => {
                return Some(name.clone());
            },
            BindingShape::Other => {},
        }
        i = i - 1;
    }
    None
}

/// Name of an export specifier: the alias wins over the original name;
/// type-only specifiers have none.
pub fn specifier_name_of(s: &SpecifierShape) -> (r: Option<String>)
    ensures
        match r {
            Some(n) => specifier_name(*s) == Some(n@),
            None => specifier_name(*s) is None,
        },
{
    match s {
        SpecifierShape::Named { orig, exported, type_only } => {
            if *type_only {
                return None;
            }
            match exported {
                Some(ExportName::Ident(alias)) => Some(alias.clone()),
                Some(ExportName::Str(alias)) => Some(alias.clone()),
                None => match orig {
                    ExportName::Ident(name) => Some(name.clone()),
                    ExportName::Str(_) => None,
                },
            }
        },
        SpecifierShape::Other => None,
    }
}

fn push_item_handlers(out: &mut Vec<HttpMethod>, item: &TopLevelItem)
    ensures
        handlers_view(final(out)@) == handlers_view(old(out)@) + item_handlers(*item),
{
    match item {
        TopLevelItem::ExportDecl { decl, start } => match decl {
            DeclShape::Function(name) => {
                push_named(out, Some(name.clone()), Some(*start));
            },
            DeclShape::Variables(decls) => {
                push_named(out, var_export_name_of(decls), Some(*start));
            },
            DeclShape::Other => {
                assert(handlers_view(out@) =~= handlers_view(old(out)@) + item_handlers(*item));
            },
        },
        TopLevelItem::NamedExport { specifiers, type_only } => {
            if *type_only {
                assert(handlers_view(out@) =~= handlers_view(old(out)@) + item_handlers(*item));
                return;
            }
            let ghost base = handlers_view(out@);
            let mut i: usize = 0;
            while i < specifiers.len()
                invariant
                    i <= specifiers@.len(),
                    handlers_view(out@) == base + specifier_handlers(
                        specifiers@.subrange(0, i as int),
                    ),
                decreases specifiers@.len() - i,
            {
                proof {
                    assert(specifiers@.subrange(0, i + 1).drop_last() =~= specifiers@.subrange(
                        0,
                        i as int,
                    ));
                }
                push_named(out, specifier_name_of(&specifiers[i]), None);
                assert(handlers_view(out@) =~= base + specifier_handlers(
                    specifiers@.subrange(0, i + 1),
                ));
                i = i + 1;
            }
            assert(specifiers@.subrange(0, specifiers@.len() as int) =~= specifiers@);
        },
        TopLevelItem::Other => {
            assert(handlers_view(out@) =~= handlers_view(old(out)@) + item_handlers(*item));
        },
    }
}

/// The handler exports of a module's top-level items, in declaration order.
/// Nested scopes are never inspected; items that export no handler are skipped.
pub fn extract_handlers(items: &Vec<TopLevelItem>) -> (r: Vec<HttpMethod>)
    ensures
        handlers_view(r@) == handlers_of(items@),
{
    let mut out: Vec<HttpMethod> = Vec::new();
    let mut i: usize = 0;
    while i < items.len()
        invariant
            i <= items@.len(),
            handlers_view(out@) == handlers_of(items@.subrange(0, i as int)),
        decreases items@.len() - i,
    {
        proof {
            assert(items@.subrange(0, i + 1).drop_last() =~= items@.subrange(0, i as int));
        }
        push_item_handlers(&mut out, &items[i]);
        i = i + 1;
    }
    assert(items@.subrange(0, items@.len() as int) =~= items@);
    out
}

} // verus!
