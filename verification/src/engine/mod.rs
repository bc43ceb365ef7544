//! The programs that packages are run with.

pub mod source;

use crate::version::{Version, VersionParts, VersionReq};
use vstd::prelude::*;

verus! {

/// The programs whose versions are managed.
#[derive(Debug, PartialEq, Eq, Clone, Copy, Structural)]
pub enum EngineKind {
    Pesde,
    Lune,
}

/// The programs that can run Luau.
#[derive(Debug, PartialEq, Eq, Clone, Copy, Structural)]
pub enum RuntimeKind {
    Lune,
}

/// The name of an engine.
pub open spec fn engine_name(kind: EngineKind) -> Seq<char> {
    match kind {
        EngineKind::Pesde => "pesde"@,
        EngineKind::Lune => "lune"@,
    }
}

/// The runtime that an engine is, if it is one.
pub open spec fn runtime_of(kind: EngineKind) -> Option<RuntimeKind> {
    match kind {
        EngineKind::Pesde => None,
        EngineKind::Lune => Some(RuntimeKind::Lune),
    }
}

/// The engine that a runtime is.
pub open spec fn engine_of(kind: RuntimeKind) -> EngineKind {
    match kind {
        RuntimeKind::Lune => EngineKind::Lune,
    }
}

impl EngineKind {
    /// All engines, each once.
    pub fn variants() -> (r: Vec<EngineKind>)
        ensures
            r@ == seq![EngineKind::Pesde, EngineKind::Lune],
            r@.no_duplicates(),
            forall|kind: EngineKind| #[trigger] r@.contains(kind),
    {
        let mut r: Vec<EngineKind> = Vec::new();
        r.push(EngineKind::Pesde);
        r.push(EngineKind::Lune);
        assert(r@ =~= seq![EngineKind::Pesde, EngineKind::Lune]);
        assert forall|kind: EngineKind| #[trigger] r@.contains(kind) by {
            assert(r@[0] == EngineKind::Pesde && r@[1] == EngineKind::Lune);
        }
        r
    }

    /// The name of the engine.
    pub fn name(&self) -> (r: &'static str)
        ensures
            r@ == engine_name(*self),
    {
        match self {
            EngineKind::Pesde => "pesde",
            EngineKind::Lune => "lune",
        }
    }

    /// The runtime that the engine is, if it is one.
    pub fn as_runtime(&self) -> (r: Option<RuntimeKind>)
        ensures
            r == runtime_of(*self),
    {
        match self {
            EngineKind::Pesde => None,
            EngineKind::Lune => Some(RuntimeKind::Lune),
        }
    }
}

impl RuntimeKind {
    /// The engine that the runtime is.
    pub fn engine(&self) -> (r: EngineKind)
        ensures
            r == engine_of(*self),
    {
        match self {
            RuntimeKind::Lune => EngineKind::Lune,
        }
    }
}

/// A runtime in one version.
#[derive(Debug)]
pub struct Runtime {
    pub kind: RuntimeKind,
    pub version: Version,
}

impl View for Runtime {
    type V = (RuntimeKind, VersionParts);

    open spec fn view(&self) -> (RuntimeKind, VersionParts) {
        (self.kind, self.version@)
    }
}

/// Which engines there are, each in one version.
#[derive(Debug)]
pub struct Engines {
    pub pesde: Option<Version>,
    pub lune: Option<Version>,
}

impl View for Engines {
    type V = spec_fn(EngineKind) -> Option<VersionParts>;

    open spec fn view(&self) -> spec_fn(EngineKind) -> Option<VersionParts> {
        |kind: EngineKind|
            {
                let version = match kind {
                    EngineKind::Pesde => self.pesde,
                    EngineKind::Lune => self.lune,
                };
                match version {
                    Some(v) => Some(v@),
                    None => None,
                }
            }
    }
}

impl Engines {
    /// No engines.
    pub fn none() -> (r: Engines)
        ensures
            r.pesde is None,
            r.lune is None,
    {
        Engines { pesde: None, lune: None }
    }

    /// The version in which there is that engine.
    pub fn get(&self, kind: EngineKind) -> (r: Option<&Version>)
        ensures
            match r {
                Some(v) => (self@)(kind) == Some(v@),
                None => (self@)(kind) is None,
            },
    {
        match kind {
            EngineKind::Pesde => self.pesde.as_ref(),
            EngineKind::Lune => self.lune.as_ref(),
        }
    }

    /// Sets the version of an engine.
    pub fn insert(&mut self, kind: EngineKind, version: Version)
        ensures
            (final(self)@)(kind) == Some(version@),
            forall|other: EngineKind|
                other != kind ==> #[trigger] (final(self)@)(other) == (old(self)@)(other),
    {
        match kind {
            EngineKind::Pesde => {
                self.pesde = Some(version);
            },
            EngineKind::Lune => {
                self.lune = Some(version);
            },
        }
    }
}

/// Which versions of the engines are asked for.
#[derive(Debug)]
pub struct EngineReqs {
    pub pesde: Option<VersionReq>,
    pub lune: Option<VersionReq>,
}

impl EngineReqs {
    /// Which versions are asked for of that engine.
    pub open spec fn of(&self, kind: EngineKind) -> Option<VersionReq> {
        match kind {
            EngineKind::Pesde => self.pesde,
            EngineKind::Lune => self.lune,
        }
    }
}

} // verus!
