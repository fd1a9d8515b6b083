//! Containers that hold the results of analysing a binary, and the loaders that fill them: a
//! project holds modules, a module holds functions, imports and a call graph.

pub mod bindings;
pub mod callgraph;
pub mod floader;
pub mod function;
pub mod imports;
pub mod index;
pub mod keys;
pub mod llanalyzer;
pub mod loader_defaults;
pub mod mloader;
pub mod module;
pub mod passes;
pub mod project;
pub mod regfile;
pub mod source;
pub mod ssa;
