//! The container of a whole analysis, and its loader.

use vstd::prelude::*;
use std::sync::Arc;
use crate::mloader::{LoadError, ModuleLoader};
use crate::module::RadecoModule;
use crate::regfile::{profile_view, SubRegisterFile};
use crate::source::{LRegInfo, SourceErr, SourceRef};
use crate::ssa::SSAConstruct;

verus! {

/// Everything known about the binaries under analysis: the modules, in the order in which
/// they were loaded, and the register file of the architecture.
pub struct RadecoProject<'a> {
    /// The loaded modules.
    pub modules: Vec<RadecoModule<'a>>,
    /// The register file of the architecture, shared with whoever asks for it.
    pub reginfo: Arc<SubRegisterFile>,
}

impl<'a> RadecoProject<'a> {
    /// A project without modules, with an empty register file.
    pub fn new() -> (r: RadecoProject<'a>)
        ensures
            r.modules@.len() == 0,
            r.reginfo@.aliases.len() == 0,
            r.reginfo@.names.len() == 0,
    {
        RadecoProject { modules: Vec::new(), reginfo: Arc::new(SubRegisterFile::default()) }
    }

    /// The register file of the architecture.
    pub fn regfile(&self) -> (r: &Arc<SubRegisterFile>)
        ensures
            *r == self.reginfo,
    {
        &self.reginfo
    }

    /// The module loaded as number `idx`, if there is one.
    pub fn nth_module(&self, idx: usize) -> (r: Option<&RadecoModule<'a>>)
        ensures
            match r {
                Some(m) => idx < self.modules@.len() && *m == self.modules@[idx as int],
                None => idx >= self.modules@.len(),
            },
    {
        if self.modules.len() > idx {
            Some(&self.modules[idx])
        } else {
            None
        }
    }

    /// The module loaded as number `idx`, to be changed in place. The project stays as it is
    /// but for that module.
    pub fn nth_module_mut(&mut self, idx: usize) -> (r: Option<&mut RadecoModule<'a>>)
        ensures
            final(self).reginfo == old(self).reginfo,
            match r {
                Some(m) => {
                    &&& idx < old(self).modules@.len()
                    &&& *m == old(self).modules@[idx as int]
                    &&& final(self).modules@ == old(self).modules@.update(idx as int, *final(m))
                },
                None => idx >= old(self).modules@.len() && final(self).modules@ == old(
                    self,
                ).modules@,
            },
    {
        if self.modules.len() > idx {
            Some(&mut self.modules[idx])
        } else {
            None
        }
    }

    /// A cursor at the first module.
    pub fn iter<'m>(&'m self) -> (r: ModuleIter<'m, 'a>)
        ensures
            r.project == self,
            r.pos == 0,
    {
        ModuleIter { project: self, pos: 0 }
    }
}

/// A module together with the project that it belongs to.
pub struct ZippedModule<'m, 'a> {
    pub project: &'m RadecoProject<'a>,
    pub module: &'m RadecoModule<'a>,
}

/// A cursor over the modules of a project, in the order in which they were loaded.
pub struct ModuleIter<'m, 'a> {
    pub project: &'m RadecoProject<'a>,
    pub pos: usize,
}

impl<'m, 'a> ModuleIter<'m, 'a> {
    /// The module under the cursor, which then moves on; `None` once all have been given.
    pub fn next(&mut self) -> (r: Option<ZippedModule<'m, 'a>>)
        ensures
            final(self).project == old(self).project,
            match r {
                Some(z) => {
                    &&& old(self).pos < old(self).project.modules@.len()
                    &&& final(self).pos == old(self).pos + 1
                    &&& z.project == old(self).project
                    &&& *z.module == old(self).project.modules@[old(self).pos as int]
                },
                None => {
                    &&& old(self).pos >= old(self).project.modules@.len()
                    &&& final(self).pos == old(self).pos
                },
            },
    {
        if self.pos < self.project.modules.len() {
            let rmod = &self.project.modules[self.pos];
            self.pos = self.pos + 1;
            Some(ZippedModule { project: self.project, module: rmod })
        } else {
            None
        }
    }
}

/// A module, to be changed in place. The project that it belongs to is borrowed meanwhile
/// and cannot be had with it.
pub struct ZippedModuleMut<'m, 'a> {
    pub module: &'m mut RadecoModule<'a>,
}

/// A cursor over the modules of a project that hands them out to be changed in place.
pub struct ModuleIterMut<'m, 'a> {
    pub project: &'m mut RadecoProject<'a>,
    pub pos: usize,
}

impl<'m, 'a> ModuleIterMut<'m, 'a> {
    /// The module under the cursor, which then moves on; `None` once all have been given.
    /// The project stays as it is but for that module.
    pub fn next<'s>(&'s mut self) -> (r: Option<ZippedModuleMut<'s, 'a>>)
        ensures
            final(self).project.reginfo == old(self).project.reginfo,
            match r {
                Some(z) => {
                    &&& old(self).pos < old(self).project.modules@.len()
                    &&& final(self).pos == old(self).pos + 1
                    &&& *z.module == old(self).project.modules@[old(self).pos as int]
                    &&& final(self).project.modules@ == old(self).project.modules@.update(
                        old(self).pos as int,
                        *final(z.module),
                    )
                },
                None => {
                    &&& old(self).pos >= old(self).project.modules@.len()
                    &&& final(self).pos == old(self).pos
                    &&& final(self).project.modules@ == old(self).project.modules@
                },
            },
    {
        let i = self.pos;
        if i < self.project.modules.len() {
            self.pos = i + 1;
            Some(ZippedModuleMut { module: &mut self.project.modules[i] })
        } else {
            None
        }
    }
}

impl<'a> RadecoProject<'a> {
    /// A cursor at the first module that hands the modules out to be changed in place.
    pub fn iter_mut<'m>(&'m mut self) -> (r: ModuleIterMut<'m, 'a>)
        ensures
            *r.project == *old(self),
            r.pos == 0,
            *final(self) == *final(r.project),
    {
        ModuleIterMut { project: self, pos: 0 }
    }
}

/// Decides which modules a project keeps.
pub trait ModuleFilter {
    /// Whether `rmod` is to be kept.
    fn keep(&self, rmod: &RadecoModule) -> bool;
}

/// Loads a project, as configured.
pub struct ProjectLoader<'a> {
    /// Load the libraries that the binary needs, too. Kept for later: only the binary itself
    /// is loaded.
    pub load_libs: bool,
    /// Path of the binary.
    pub path: String,
    /// Where to look for libraries.
    pub load_library_path: Option<String>,
    /// Which modules are kept. Kept for later: it is not asked.
    pub filter_modules: Option<&'a dyn ModuleFilter>,
    /// The backend to load from.
    pub source: Option<SourceRef<'a>>,
    /// The module loader; if there is none, one that asks for nothing is used.
    pub mloader: Option<ModuleLoader<'a>>,
}

impl<'a> Default for ProjectLoader<'a> {
    fn default() -> (r: ProjectLoader<'a>)
        ensures
            !r.load_libs,
            r.path@.len() == 0,
            r.load_library_path is None,
            r.filter_modules is None,
            r.source is None,
            r.mloader is None,
    {
        ProjectLoader {
            load_libs: false,
            path: String::new(),
            load_library_path: None,
            filter_modules: None,
            source: None,
            mloader: None,
        }
    }
}

impl<'a> ProjectLoader<'a> {
    /// Asks for the libraries to be loaded, too.
    pub fn load_libs(self) -> (r: ProjectLoader<'a>)
        ensures
            r == (ProjectLoader { load_libs: true, ..self }),
    {
        let mut this = self;
        this.load_libs = true;
        this
    }

    /// Sets the path of the binary.
    pub fn path(self, path: &str) -> (r: ProjectLoader<'a>)
        ensures
            r == (ProjectLoader { path: r.path, ..self }),
            r.path@ == path@,
    {
        let mut this = self;
        this.path = path.to_owned();
        this
    }

    /// Sets the module loader.
    pub fn module_loader(self, mloader: ModuleLoader<'a>) -> (r: ProjectLoader<'a>)
        ensures
            r == (ProjectLoader { mloader: Some(mloader), ..self }),
    {
        let mut this = self;
        this.mloader = Some(mloader);
        this
    }

    /// Sets the backend to load from. A module loader without a backend of its own loads
    /// from it, too.
    pub fn source(self, source: SourceRef<'a>) -> (r: ProjectLoader<'a>)
        ensures
            r == (ProjectLoader { source: Some(source), ..self }),
    {
        let mut this = self;
        this.source = Some(source);
        this
    }

    /// Sets where to look for libraries.
    pub fn load_library_path(self, path: &'static str) -> (r: ProjectLoader<'a>)
        ensures
            r == (ProjectLoader { load_library_path: r.load_library_path, ..self }),
            r.load_library_path is Some,
            r.load_library_path.unwrap()@ == path@,
    {
        let mut this = self;
        this.load_library_path = Some(path.to_owned());
        this
    }

    /// Sets the filter that decides which modules are kept.
    pub fn filter_modules(self, f: &'a dyn ModuleFilter) -> (r: ProjectLoader<'a>)
        ensures
            r == (ProjectLoader { filter_modules: Some(f), ..self }),
    {
        let mut this = self;
        this.filter_modules = Some(f);
        this
    }

    /// The module loader that `load` uses: the one that was set, or one that asks for
    /// nothing and loads from the backend of the project loader.
    pub open spec fn effective_loader(&self) -> ModuleLoader<'a>
        recommends
            self.source is Some,
    {
        match self.mloader {
            Some(m) => m,
            None => ModuleLoader {
                source: self.source,
                floader: None,
                filter: None,
                build_callgraph: false,
                build_ssa: false,
                load_datarefs: false,
                load_locals: false,
                parallel: false,
                assume_cc: false,
                stub_imports: false,
            },
        }
    }

    /// Loads the binary as the one module of a project, and the register file of the
    /// architecture. Without a backend there is nothing to load from; otherwise loading fails
    /// where loading the module fails, and if the backend gives no register profile.
    pub fn load(self, engine: &dyn SSAConstruct) -> (r: Result<RadecoProject<'a>, LoadError>)
        ensures
            self.source is None ==> r == Err::<RadecoProject<'a>, LoadError>(LoadError::NoSource),
            match r {
                Ok(project) => {
                    &&& self.source is Some
                    &&& project.modules@.len() == 1
                    &&& self.effective_loader().has_loaded(
                        self.source.unwrap(),
                        &project.modules@[0],
                    )
                },
                Err(e) => if e == LoadError::NoSource {
                    self.source is None
                } else {
                    self.source is Some && self.effective_loader().may_fail_with(e)
                },
            },
    {
        let source = match self.source {
            Some(source) => source,
            None => {
                return Err(LoadError::NoSource);
            },
        };
        let mut mod_loader = match self.mloader {
            Some(m) => m,
            None => ModuleLoader::default().source(source),
        };
        let rmod = match mod_loader.load(source, engine) {
            Ok(rmod) => rmod,
            Err(e) => {
                return Err(e);
            },
        };
        RadecoProject::assemble(rmod, source.backend.register_profile())
    }
}

impl<'a> RadecoProject<'a> {
    /// The project of the one module `rmod`, with the register file that the backend's
    /// register profile describes. Without a profile there is no project.
    pub fn assemble(rmod: RadecoModule<'a>, profile: Result<LRegInfo, SourceErr>) -> (r: Result<
        RadecoProject<'a>,
        LoadError,
    >)
        ensures
            match profile {
                Ok(reg_p) => {
                    &&& r is Ok
                    &&& r.unwrap().modules@ == seq![rmod]
                    &&& r.unwrap().reginfo@ == profile_view(reg_p)
                },
                Err(_) => r == Err::<RadecoProject<'a>, LoadError>(LoadError::NoRegisterProfile),
            },
    {
        match profile {
            Ok(reg_p) => {
                let mut mod_map: Vec<RadecoModule<'a>> = Vec::new();
                mod_map.push(rmod);
                assert(mod_map@ =~= seq![rmod]);
                Ok(
                    RadecoProject {
                        modules: mod_map,
                        reginfo: Arc::new(SubRegisterFile::new(&reg_p)),
                    },
                )
            },
            Err(_) => Err(LoadError::NoRegisterProfile),
        }
    }
}

} // verus!
