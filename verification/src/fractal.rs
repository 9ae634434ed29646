//! The seven kernels a task can name, with their parameters.

use crate::text::str_eq;
use crate::types::Complex;
use vstd::prelude::*;

verus! {

/// `z <- z^2 + c`, until `|z|^2` reaches the threshold.
#[derive(Clone, Copy, Debug, PartialEq, Eq, Structural)]
pub struct JuliaDescriptor {
    pub c: Complex,
    /// Binary64 bit pattern of the squared divergence threshold.
    pub divergence_threshold_square: u64,
}

/// `z <- z^2 + p` from `z = 0`, where `p` is the pixel.
#[derive(Clone, Copy, Debug, PartialEq, Eq, Structural)]
pub struct Mandelbrot {}

/// `z <- sin(z) * c`.
#[derive(Clone, Copy, Debug, PartialEq, Eq, Structural)]
pub struct IteratedSinZ {
    pub c: Complex,
}

/// Newton's method on `z^3 - 1`.
#[derive(Clone, Copy, Debug, PartialEq, Eq, Structural)]
pub struct NewtonRaphsonZ3 {}

/// Newton's method on `z^4 - 1`.
#[derive(Clone, Copy, Debug, PartialEq, Eq, Structural)]
pub struct NewtonRaphsonZ4 {}

/// Newton's method on `z^3 - 1`, shifted by the pixel at each step.
#[derive(Clone, Copy, Debug, PartialEq, Eq, Structural)]
pub struct NovaNewtonRaphsonZ3 {}

/// Newton's method on `z^4 - 1`, shifted by the pixel at each step.
#[derive(Clone, Copy, Debug, PartialEq, Eq, Structural)]
pub struct NovaNewtonRaphsonZ4 {}

/// Which kernel to run, and with which parameters.
#[derive(Clone, Copy, Debug, PartialEq, Eq, Structural)]
pub enum FractalDescriptor {
    Julia(JuliaDescriptor),
    Mandelbrot(Mandelbrot),
    IteratedSinZ(IteratedSinZ),
    NewtonRaphsonZ3(NewtonRaphsonZ3),
    NewtonRaphsonZ4(NewtonRaphsonZ4),
    NovaNewtonRaphsonZ3(NovaNewtonRaphsonZ3),
    NovaNewtonRaphsonZ4(NovaNewtonRaphsonZ4),
}

/// The seven kernels by name, without parameters.
#[derive(Clone, Copy, Debug, PartialEq, Eq, Structural)]
pub enum FractalName {
    Julia,
    Mandelbrot,
    IteratedSinZ,
    NewtonRaphsonZ3,
    NewtonRaphsonZ4,
    NovaNewtonRaphsonZ3,
    NovaNewtonRaphsonZ4,
}

impl FractalDescriptor {
    /// The name of the kernel.
    pub open spec fn spec_name(self) -> FractalName {
        match self {
            FractalDescriptor::Julia(_) => FractalName::Julia,
            FractalDescriptor::Mandelbrot(_) => FractalName::Mandelbrot,
            FractalDescriptor::IteratedSinZ(_) => FractalName::IteratedSinZ,
            FractalDescriptor::NewtonRaphsonZ3(_) => FractalName::NewtonRaphsonZ3,
            FractalDescriptor::NewtonRaphsonZ4(_) => FractalName::NewtonRaphsonZ4,
            FractalDescriptor::NovaNewtonRaphsonZ3(_) => FractalName::NovaNewtonRaphsonZ3,
            FractalDescriptor::NovaNewtonRaphsonZ4(_) => FractalName::NovaNewtonRaphsonZ4,
        }
    }

    /// The name of the kernel.
    pub fn name(&self) -> (n: FractalName)
        ensures
            n == self.spec_name(),
    {
        match self {
            FractalDescriptor::Julia(_) => FractalName::Julia,
            FractalDescriptor::Mandelbrot(_) => FractalName::Mandelbrot,
            FractalDescriptor::IteratedSinZ(_) => FractalName::IteratedSinZ,
            FractalDescriptor::NewtonRaphsonZ3(_) => FractalName::NewtonRaphsonZ3,
            FractalDescriptor::NewtonRaphsonZ4(_) => FractalName::NewtonRaphsonZ4,
            FractalDescriptor::NovaNewtonRaphsonZ3(_) => FractalName::NovaNewtonRaphsonZ3,
            FractalDescriptor::NovaNewtonRaphsonZ4(_) => FractalName::NovaNewtonRaphsonZ4,
        }
    }
}

impl FractalName {
    /// The name as it is written on the command line and in file names.
    pub open spec fn spec_text(self) -> Seq<char> {
        match self {
            FractalName::Julia => "Julia"@,
            FractalName::Mandelbrot => "Mandelbrot"@,
            FractalName::IteratedSinZ => "IteratedSinZ"@,
            FractalName::NewtonRaphsonZ3 => "NewtonRaphsonZ3"@,
            FractalName::NewtonRaphsonZ4 => "NewtonRaphsonZ4"@,
            FractalName::NovaNewtonRaphsonZ3 => "NovaNewtonRaphsonZ3"@,
            FractalName::NovaNewtonRaphsonZ4 => "NovaNewtonRaphsonZ4"@,
        }
    }

    /// The kernel that a text names; `None` for a text that is none of the
    /// seven names.
    pub open spec fn spec_parse(text: Seq<char>) -> Option<FractalName> {
        if text == "Julia"@ {
            Some(FractalName::Julia)
        } else if text == "Mandelbrot"@ {
            Some(FractalName::Mandelbrot)
        } else if text == "IteratedSinZ"@ {
            Some(FractalName::IteratedSinZ)
        } else if text == "NewtonRaphsonZ3"@ {
            Some(FractalName::NewtonRaphsonZ3)
        } else if text == "NewtonRaphsonZ4"@ {
            Some(FractalName::NewtonRaphsonZ4)
        } else if text == "NovaNewtonRaphsonZ3"@ {
            Some(FractalName::NovaNewtonRaphsonZ3)
        } else if text == "NovaNewtonRaphsonZ4"@ {
            Some(FractalName::NovaNewtonRaphsonZ4)
        } else {
            None
        }
    }

    /// The name as it is written.
    pub fn text(&self) -> (text: &'static str)
        ensures
            text@ == self.spec_text(),
    {
        match self {
            FractalName::Julia => "Julia",
            FractalName::Mandelbrot => "Mandelbrot",
            FractalName::IteratedSinZ => "IteratedSinZ",
            FractalName::NewtonRaphsonZ3 => "NewtonRaphsonZ3",
            FractalName::NewtonRaphsonZ4 => "NewtonRaphsonZ4",
            FractalName::NovaNewtonRaphsonZ3 => "NovaNewtonRaphsonZ3",
            FractalName::NovaNewtonRaphsonZ4 => "NovaNewtonRaphsonZ4",
        }
    }

    /// Reads a name.
    pub fn parse(text: &str) -> (name: Option<FractalName>)
        ensures
            name == Self::spec_parse(text@),
    {
        if str_eq(text, "Julia") {
            Some(FractalName::Julia)
        } else if str_eq(text, "Mandelbrot") {
            Some(FractalName::Mandelbrot)
        } else if str_eq(text, "IteratedSinZ") {
            Some(FractalName::IteratedSinZ)
        } else if str_eq(text, "NewtonRaphsonZ3") {
            Some(FractalName::NewtonRaphsonZ3)
        } else if str_eq(text, "NewtonRaphsonZ4") {
            Some(FractalName::NewtonRaphsonZ4)
        } else if str_eq(text, "NovaNewtonRaphsonZ3") {
            Some(FractalName::NovaNewtonRaphsonZ3)
        } else if str_eq(text, "NovaNewtonRaphsonZ4") {
            Some(FractalName::NovaNewtonRaphsonZ4)
        } else {
            None
        }
    }

    /// Reading a name as it is written gives the name back.
    pub proof fn lemma_parse_text(self)
        ensures
            Self::spec_parse(self.spec_text()) == Some(self),
    {
        reveal_strlit("Julia");
        reveal_strlit("Mandelbrot");
        reveal_strlit("IteratedSinZ");
        reveal_strlit("NewtonRaphsonZ3");
        reveal_strlit("NewtonRaphsonZ4");
        reveal_strlit("NovaNewtonRaphsonZ3");
        reveal_strlit("NovaNewtonRaphsonZ4");
        assert("Julia"@.len() == 5);
        assert("Mandelbrot"@.len() == 10);
        assert("IteratedSinZ"@.len() == 12);
        assert("NewtonRaphsonZ3"@.len() == 15);
        assert("NewtonRaphsonZ4"@.len() == 15);
        assert("NovaNewtonRaphsonZ3"@.len() == 19);
        assert("NovaNewtonRaphsonZ4"@.len() == 19);
        assert("NewtonRaphsonZ3"@[14] != "NewtonRaphsonZ4"@[14]);
        assert("NovaNewtonRaphsonZ3"@[18] != "NovaNewtonRaphsonZ4"@[18]);
    }
}

} // verus!
