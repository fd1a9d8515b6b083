//! What a disassembler backend reports about a binary, and the interface through which the
//! loaders ask for it.

use vstd::prelude::*;

verus! {

/// Kind of a symbol, as the backend classifies it.
#[derive(Clone, Copy, Debug, PartialEq, Eq, Hash, Structural)]
pub enum LSymbolType {
    Notype,
    Obj,
    Func,
    Section,
    File,
    Common,
    Loos,
    Hios,
    Loproc,
    SectionEnd,
    Unknown,
}

/// One entry of the symbol table.
#[derive(Clone, Debug, Default)]
pub struct LSymbolInfo {
    pub demname: Option<String>,
    pub flagname: Option<String>,
    pub name: Option<String>,
    pub paddr: Option<u64>,
    pub size: Option<u64>,
    pub stype: Option<LSymbolType>,
    pub vaddr: Option<u64>,
}

/// One section of the binary.
#[derive(Clone, Debug, Default)]
pub struct LSectionInfo {
    pub flags: Option<String>,
    pub name: Option<String>,
    pub paddr: Option<u64>,
    pub size: Option<u64>,
    pub vaddr: Option<u64>,
    pub vsize: Option<u64>,
}

/// One imported symbol.
#[derive(Clone, Debug, Default)]
pub struct LImportInfo {
    pub bind: Option<String>,
    pub name: Option<String>,
    pub ordinal: Option<u64>,
    pub plt: Option<u64>,
    pub itype: Option<String>,
}

/// One exported symbol.
#[derive(Clone, Debug, Default)]
pub struct LExportInfo {
    pub demname: Option<String>,
    pub flagname: Option<String>,
    pub name: Option<String>,
    pub paddr: Option<u64>,
    pub size: Option<u64>,
    pub etype: Option<String>,
    pub vaddr: Option<u64>,
}

/// One relocation.
#[derive(Clone, Debug, Default)]
pub struct LRelocInfo {
    pub is_ifunc: Option<bool>,
    pub name: Option<String>,
    pub paddr: Option<u64>,
    pub rtype: Option<String>,
    pub vaddr: Option<u64>,
}

/// One entry point of the binary.
#[derive(Clone, Debug, Default)]
pub struct LEntryInfo {
    pub vaddr: Option<u64>,
    pub paddr: Option<u64>,
    pub baddr: Option<u64>,
    pub laddr: Option<u64>,
    pub haddr: Option<u64>,
    pub etype: Option<String>,
}

/// One disassembled instruction.
#[derive(Clone, Debug, Default)]
pub struct LOpInfo {
    pub esil: Option<String>,
    pub offset: Option<u64>,
    pub opcode: Option<String>,
    pub optype: Option<String>,
    pub size: Option<u64>,
}

/// A register role (`A0`, `SN`, ...) and the physical register that plays it.
#[derive(Clone, Debug, Default)]
pub struct LAliasInfo {
    pub reg: String,
    pub role: u64,
    pub role_str: String,
}

/// One register of the architecture.
#[derive(Clone, Debug, Default)]
pub struct LRegProfile {
    pub name: String,
    pub offset: usize,
    pub size: usize,
    pub type_str: String,
    pub regtype: usize,
}

/// The register profile of the architecture: roles and registers.
#[derive(Clone, Debug, Default)]
pub struct LRegInfo {
    pub alias_info: Vec<LAliasInfo>,
    pub reg_info: Vec<LRegProfile>,
}

/// One call made by a function: where it goes to and where it is made.
#[derive(Clone, Debug, Default)]
pub struct LCallInfo {
    pub target: Option<u64>,
    pub call_type: Option<String>,
    pub source: Option<u64>,
}

/// What the backend's own analysis knows about one function.
#[derive(Clone, Debug, Default)]
pub struct FunctionInfo {
    pub callrefs: Option<Vec<LCallInfo>>,
    pub calltype: Option<String>,
    pub datarefs: Option<Vec<u64>>,
    pub name: Option<String>,
    pub offset: Option<u64>,
    pub size: Option<u64>,
    pub ftype: Option<String>,
}

/// Why a backend could not answer a query.
#[derive(Clone, Debug, Default)]
pub struct SourceErr {
    pub reason: String,
}

/// A disassembler backend. Every query may fail, and nothing is assumed of what it answers:
/// two calls of one query may give different answers.
pub trait Source {
    fn functions(&self) -> Result<Vec<FunctionInfo>, SourceErr>;

    fn disassemble_n_bytes(&self, n: u64, at: u64) -> Result<Vec<LOpInfo>, SourceErr>;

    fn register_profile(&self) -> Result<LRegInfo, SourceErr>;

    fn symbols(&self) -> Result<Vec<LSymbolInfo>, SourceErr>;

    fn sections(&self) -> Result<Vec<LSectionInfo>, SourceErr>;

    fn imports(&self) -> Result<Vec<LImportInfo>, SourceErr>;

    fn exports(&self) -> Result<Vec<LExportInfo>, SourceErr>;

    fn relocs(&self) -> Result<Vec<LRelocInfo>, SourceErr>;

    fn libraries(&self) -> Result<Vec<String>, SourceErr>;

    fn entrypoint(&self) -> Result<Vec<LEntryInfo>, SourceErr>;
}

/// A shared handle to a backend.
#[derive(Clone, Copy)]
pub struct SourceRef<'a> {
    pub backend: &'a dyn Source,
}


} // verus!
