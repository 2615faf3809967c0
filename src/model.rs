use vstd::prelude::*;

verus! {

/// The binding of one variable declarator.
pub enum BindingShape {
    /// A plain identifier binding, `const NAME = ...`.
    Ident(String),
    /// Any other pattern (destructuring, ...).
    Other,
}

/// A module export name as written in an export clause.
pub enum ExportName {
    Ident(String),
    /// A string-literal export name, `"GET"`.
    Str(String),
}

/// One specifier of an `export { ... }` clause.
pub enum SpecifierShape {
    /// `orig` or `orig as exported`; `type_only` for `type orig`.
    Named { orig: ExportName, exported: Option<ExportName>, type_only: bool },
    /// Namespace and default specifiers.
    Other,
}

/// The declaration carried by an `export <declaration>` item.
pub enum DeclShape {
    Function(String),
    /// `export const/let/var ...`, one entry per declarator.
    Variables(Vec<BindingShape>),
    Other,
}

/// One top-level item of a module, reduced to what handler discovery reads.
pub enum TopLevelItem {
    /// `export <declaration>`, starting at byte position `start`.
    ExportDecl { decl: DeclShape, start: u32 },
    /// `export { ... }`; `type_only` for `export type { ... }`.
    NamedExport { specifiers: Vec<SpecifierShape>, type_only: bool },
    Other,
}

/// A discovered handler export.
#[derive(Debug)]
pub struct HttpMethod {
    pub method_type: String,
    /// Start of the exporting declaration; absent for export specifiers.
    pub pos: Option<u32>,
}

pub struct HandlerView {
    pub method: Seq<char>,
    pub pos: Option<u32>,
}

impl View for HttpMethod {
    type V = HandlerView;

    open spec fn view(&self) -> HandlerView {
        HandlerView { method: self.method_type@, pos: self.pos }
    }
}

/// A handler together with its documentation comment lines.
#[derive(Debug)]
pub struct MethodMetadata {
    pub method_type: String,
    pub comment: Option<Vec<String>>,
}

pub struct MetadataView {
    pub method: Seq<char>,
    pub comment: Option<Seq<Seq<char>>>,
}

pub open spec fn strings_view(v: Seq<String>) -> Seq<Seq<char>> {
    v.map_values(|s: String| s@)
}

pub open spec fn lines_view(c: Option<Vec<String>>) -> Option<Seq<Seq<char>>> {
    match c {
        Some(v) => Some(strings_view(v@)),
        None => None,
    }
}

impl View for MethodMetadata {
    type V = MetadataView;

    open spec fn view(&self) -> MetadataView {
        MetadataView { method: self.method_type@, comment: lines_view(self.comment) }
    }
}

/// The handlers found in one file.
#[derive(Debug)]
pub struct ParseResult {
    pub path: String,
    pub method_metadata: Vec<MethodMetadata>,
}

pub struct FileView {
    pub path: Seq<char>,
    pub methods: Seq<MetadataView>,
}

pub open spec fn handlers_view(v: Seq<HttpMethod>) -> Seq<HandlerView> {
    v.map_values(|h: HttpMethod| h@)
}

pub open spec fn metadata_view(v: Seq<MethodMetadata>) -> Seq<MetadataView> {
    v.map_values(|m: MethodMetadata| m@)
}

pub open spec fn results_view(v: Seq<ParseResult>) -> Seq<FileView> {
    v.map_values(|r: ParseResult| r@)
}

impl View for ParseResult {
    type V = FileView;

    open spec fn view(&self) -> FileView {
        FileView { path: self.path@, methods: metadata_view(self.method_metadata@) }
    }
}

} // verus!
