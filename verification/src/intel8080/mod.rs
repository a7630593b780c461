//! The Intel 8080 family: the 8080 itself, the Zilog Z80 and the Sharp
//! LR35902. Only the choice of processor exists so far.
use vstd::prelude::*;

verus! {

/// Which member of the family a processor is.
#[derive(Debug, Clone, Copy, PartialEq, Eq, Hash, Structural)]
pub enum Intel8080Kind {
    Intel8080,
    Zilog80,
    SharpLr35902,
}

impl Default for Intel8080Kind {
    fn default() -> (r: Self)
        ensures
            r == Intel8080Kind::Intel8080,
    {
        Intel8080Kind::Intel8080
    }
}

/// How an 8080 family processor is set up.
#[derive(Debug, Clone, Copy, PartialEq, Eq, Structural)]
pub struct Intel8080Config {
    pub kind: Intel8080Kind,
}

impl Default for Intel8080Config {
    fn default() -> (r: Self)
        ensures
            r.kind == Intel8080Kind::Intel8080,
    {
        Intel8080Config { kind: Intel8080Kind::default() }
    }
}

impl Intel8080Config {
    /// A Sharp LR35902, as in the Game Boy.
    pub fn lr35902() -> (r: Self)
        ensures
            r.kind == Intel8080Kind::SharpLr35902,
    {
        Intel8080Config { kind: Intel8080Kind::SharpLr35902 }
    }

    /// A Zilog Z80.
    pub fn z80() -> (r: Self)
        ensures
            r.kind == Intel8080Kind::Zilog80,
    {
        Intel8080Config { kind: Intel8080Kind::Zilog80 }
    }

    /// An Intel 8080.
    pub fn i8080() -> (r: Self)
        ensures
            r.kind == Intel8080Kind::Intel8080,
    {
        Intel8080Config { kind: Intel8080Kind::Intel8080 }
    }
}

/// An 8080 family processor.
#[derive(Debug)]
pub struct Intel8080 {
    config: Intel8080Config,
}

impl Intel8080 {
    pub closed spec fn config_view(&self) -> Intel8080Config {
        self.config
    }

    /// The processor's setup.
    pub fn config(&self) -> (r: Intel8080Config)
        ensures
            r == self.config_view(),
    {
        self.config
    }
}

} // verus!
