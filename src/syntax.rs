use vstd::prelude::*;
use vstd::string::StringSliceAdditionalSpecFns;
use swc_common::comments::{Comments, SingleThreadedComments};
use swc_common::BytePos;
use swc_ecma_ast::{
    Decl, ExportDecl, ExportSpecifier, Module, ModuleDecl, ModuleExportName, ModuleItem,
    NamedExport, Pat, VarDeclarator,
};
use swc_ecma_parser::{Parser, StringInput, Syntax};
use crate::model::{BindingShape, DeclShape, ExportName, SpecifierShape, TopLevelItem};

verus! {

#[verifier::external_type_specification]
#[verifier::external_body]
pub struct ExModule(Module);

#[verifier::external_type_specification]
#[verifier::external_body]
pub struct ExModuleItem(ModuleItem);

#[verifier::external_type_specification]
#[verifier::external_body]
pub struct ExExportDecl(ExportDecl);

#[verifier::external_type_specification]
#[verifier::external_body]
pub struct ExNamedExport(NamedExport);

#[verifier::external_type_specification]
#[verifier::external_body]
pub struct ExVarDeclarator(VarDeclarator);

#[verifier::external_type_specification]
#[verifier::external_body]
pub struct ExExportSpecifier(ExportSpecifier);

#[verifier::external_type_specification]
#[verifier::external_body]
pub struct ExModuleExportName(ModuleExportName);

#[verifier::external_type_specification]
#[verifier::external_body]
pub struct ExSingleThreadedComments(SingleThreadedComments);

#[verifier::external_type_specification]
#[verifier::external_body]
pub struct ExParseError(swc_ecma_parser::error::Error);

/// A parsed module together with the comments its tokenizer collected.
pub struct ParsedModule {
    module: Module,
    comments: SingleThreadedComments,
}

/// One comment: its start and end byte positions and its text.
pub type CommentSpan = (u32, u32, Seq<char>);

pub open spec fn spans_view(v: Seq<(u32, u32, String)>) -> Seq<CommentSpan> {
    v.map_values(|c: (u32, u32, String)| (c.0, c.1, c.2@))
}

/// Whether the TypeScript grammar accepts `src` as a module.
pub uninterp spec fn parses(src: Seq<char>) -> bool;

/// The comment index the tokenizer fills while reading `src` laid out from
/// byte position `start`: for a token position, the comments before it.
pub uninterp spec fn comments_of(src: Seq<char>, start: u32) -> Map<u32, Seq<CommentSpan>>;

/// What a comment store holds: for a token position, the comments before it.
pub uninterp spec fn comment_index(c: SingleThreadedComments) -> Map<u32, Seq<CommentSpan>>;

/// Relies on `swc_ecma_parser::Parser::parse_module` (TypeScript syntax) over
/// the text placed at byte positions `start..end`: succeeds exactly on the
/// texts the grammar accepts, and records the comments it reads in the store.
#[verifier::external_body]
fn parse_typescript(src: &str, start: u32, end: u32) -> (r: Result<
    (Module, SingleThreadedComments),
    swc_ecma_parser::error::Error,
>)
    requires
        end == start + src.spec_bytes().len(),
    ensures
        r is Ok <==> parses(src@),
        r matches Ok((m, c)) ==> comment_index(c) == comments_of(src@, start),
{
    let comments = SingleThreadedComments::default();
    let input = StringInput::new(src, BytePos(start), BytePos(end));
    let parsed = Parser::new(Syntax::Typescript(Default::default()), input, Some(&comments))
        .parse_module();
    parsed.map(|module| (module, comments))
}

/// Relies on the `body` field of `swc_ecma_ast::Module`: its top-level items.
#[verifier::external_body]
fn module_body(m: &Module) -> &Vec<ModuleItem> {
    &m.body
}

/// Relies on `swc_ecma_ast::ModuleItem`: the `export <declaration>` variant.
#[verifier::external_body]
fn as_export_decl(item: &ModuleItem) -> Option<&ExportDecl> {
    match item {
        ModuleItem::ModuleDecl(ModuleDecl::ExportDecl(e)) => Some(e),
        _ => None,
    }
}

/// Relies on `swc_ecma_ast::ModuleItem`: the `export { ... }` variant.
#[verifier::external_body]
fn as_named_export(item: &ModuleItem) -> Option<&NamedExport> {
    match item {
        ModuleItem::ModuleDecl(ModuleDecl::ExportNamed(n)) => Some(n),
        _ => None,
    }
}

/// Relies on the span of `swc_ecma_ast::ExportDecl`: its start position.
#[verifier::external_body]
fn export_start(e: &ExportDecl) -> u32 {
    e.span.lo.0
}

/// Relies on `swc_ecma_ast::Decl::Fn`: the declared function's identifier.
#[verifier::external_body]
fn exported_function_name(e: &ExportDecl) -> Option<String> {
    match &e.decl {
        Decl::Fn(f) => Some(f.ident.sym.to_string()),
        _ => None,
    }
}

/// Relies on `swc_ecma_ast::Decl::Var`: the declarators of a variable declaration.
#[verifier::external_body]
fn exported_declarators(e: &ExportDecl) -> Option<&Vec<VarDeclarator>> {
    match &e.decl {
        Decl::Var(v) => Some(&v.decls),
        _ => None,
    }
}

/// Relies on `swc_ecma_ast::Pat::Ident`: the identifier a declarator binds.
#[verifier::external_body]
fn binding_ident(d: &VarDeclarator) -> Option<String> {
    match &d.name {
        Pat::Ident(b) => Some(b.id.sym.to_string()),
        _ => None,
    }
}

/// Relies on the `specifiers` field of `swc_ecma_ast::NamedExport`.
#[verifier::external_body]
fn export_specifiers(n: &NamedExport) -> &Vec<ExportSpecifier> {
    &n.specifiers
}

/// Relies on `swc_ecma_ast::ExportSpecifier::Named`: its original name.
#[verifier::external_body]
fn specifier_orig(s: &ExportSpecifier) -> Option<&ModuleExportName> {
    match s {
        ExportSpecifier::Named(n) => Some(&n.orig),
        _ => None,
    }
}

/// Relies on `swc_ecma_ast::ExportSpecifier::Named`: its alias, if any.
#[verifier::external_body]
fn specifier_alias(s: &ExportSpecifier) -> Option<&ModuleExportName> {
    match s {
        ExportSpecifier::Named(n) => n.exported.as_ref(),
        _ => None,
    }
}

/// Relies on `swc_ecma_ast::ModuleExportName`: an identifier or a string
/// literal (whose unpaired surrogates `to_atom_lossy` replaces).
#[verifier::external_body]
fn export_name(n: &ModuleExportName) -> ExportName {
    match n {
        ModuleExportName::Ident(i) => ExportName::Ident(i.sym.to_string()),
        ModuleExportName::Str(s) => ExportName::Str(s.value.to_atom_lossy().to_string()),
    }
}

/// Relies on the `type_only` field of `swc_ecma_ast::NamedExport`.
#[verifier::external_body]
fn named_export_type_only(n: &NamedExport) -> bool {
    n.type_only
}

/// Relies on the `is_type_only` field of `swc_ecma_ast::ExportNamedSpecifier`.
#[verifier::external_body]
fn specifier_type_only(s: &ExportSpecifier) -> bool {
    match s {
        ExportSpecifier::Named(n) => n.is_type_only,
        _ => false,
    }
}

/// Relies on `SingleThreadedComments::get_leading`, a lookup in its map of
/// leading comments: the comments recorded before the token at `pos`, in
/// source order, each with its span.
#[verifier::external_body]
fn leading_comment_spans(c: &SingleThreadedComments, pos: u32) -> (r: Option<
    Vec<(u32, u32, String)>,
>)
    ensures
        r is Some <==> comment_index(*c).contains_key(pos),
        r matches Some(v) ==> spans_view(v@) == comment_index(*c)[pos],
{
    c.get_leading(BytePos(pos)).map(
        |v| v.into_iter().map(|c| (c.span.lo.0, c.span.hi.0, c.text.to_string())).collect(),
    )
}

fn lower_decl(e: &ExportDecl) -> DeclShape {
    if let Some(name) = exported_function_name(e) {
        return DeclShape::Function(name);
    }
    match exported_declarators(e) {
        Some(decls) => {
            let mut out: Vec<BindingShape> = Vec::new();
            let mut i: usize = 0;
            while i < decls.len()
                invariant
                    i <= decls@.len(),
                    out@.len() == i,
                decreases decls@.len() - i,
            {
                match binding_ident(&decls[i]) {
                    Some(name) => out.push(BindingShape::Ident(name)),
                    None => out.push(BindingShape::Other),
                }
                i = i + 1;
            }
            DeclShape::Variables(out)
        },
        None => DeclShape::Other,
    }
}

fn lower_specifier(s: &ExportSpecifier) -> SpecifierShape {
    match specifier_orig(s) {
        Some(orig) => {
            let exported = match specifier_alias(s) {
                Some(alias) => Some(export_name(alias)),
                None => None,
            };
            SpecifierShape::Named {
                orig: export_name(orig),
                exported,
                type_only: specifier_type_only(s),
            }
        },
        None => SpecifierShape::Other,
    }
}

fn lower_item(item: &ModuleItem) -> TopLevelItem {
    if let Some(e) = as_export_decl(item) {
        return TopLevelItem::ExportDecl { decl: lower_decl(e), start: export_start(e) };
    }
    match as_named_export(item) {
        Some(n) => {
            let specs = export_specifiers(n);
            let mut out: Vec<SpecifierShape> = Vec::new();
            let mut i: usize = 0;
            while i < specs.len()
                invariant
                    i <= specs@.len(),
                    out@.len() == i,
                decreases specs@.len() - i,
            {
                out.push(lower_specifier(&specs[i]));
                i = i + 1;
            }
            TopLevelItem::NamedExport { specifiers: out, type_only: named_export_type_only(n) }
        },
        None => TopLevelItem::Other,
    }
}

/// Byte position at which a module's text is laid out.
pub const SOURCE_START: u32 = 1;

impl ParsedModule {
    /// Parses TypeScript module source; `None` exactly when the grammar
    /// rejects it, or when the text does not fit in `u32` byte positions.
    pub fn from_source(src: &str) -> (r: Option<ParsedModule>)
        ensures
            r is Some <==> (parses(src@) && SOURCE_START + src.spec_bytes().len()
                <= u32::MAX),
            r matches Some(m) ==> m.comment_index() == comments_of(src@, SOURCE_START),
    {
        let len = src.as_bytes().len();
        if len > (u32::MAX - SOURCE_START) as usize {
            return None;
        }
        match parse_typescript(src, SOURCE_START, SOURCE_START + len as u32) {
            Ok((module, comments)) => Some(ParsedModule { module, comments }),
            Err(_) => None,
        }
    }

    /// What the module's comment store holds.
    pub closed spec fn comment_index(&self) -> Map<u32, Seq<CommentSpan>> {
        comment_index(self.comments)
    }

    /// The module's top-level items, one shape per item, in source order.
    pub fn top_level_items(&self) -> Vec<TopLevelItem> {
        let body = module_body(&self.module);
        let mut out: Vec<TopLevelItem> = Vec::new();
        let mut i: usize = 0;
        while i < body.len()
            invariant
                i <= body@.len(),
                out@.len() == i,
            decreases body@.len() - i,
        {
            out.push(lower_item(&body[i]));
            i = i + 1;
        }
        out
    }

    /// The comments recorded immediately before the token at `pos`.
    pub fn leading_comments(&self, pos: u32) -> (r: Option<Vec<(u32, u32, String)>>)
        ensures
            r is Some <==> self.comment_index().contains_key(pos),
            r matches Some(v) ==> spans_view(v@) == self.comment_index()[pos],
    {
        leading_comment_spans(&self.comments, pos)
    }
}

} // verus!
