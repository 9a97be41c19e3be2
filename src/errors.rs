use vstd::prelude::*;

verus! {

/// Why a read failed, or a label added while the failure travelled outward.
#[derive(Debug)]
pub enum ErrorKind {
    /// Not enough bytes left for a fixed-width field or a declared table.
    Truncation,
    /// A magic value or signature did not match.
    TagMismatch,
    /// A code outside a closed enumeration (machine type, directory kind, header magic).
    UnknownEnumeration,
    /// A value that was read but cannot be accepted, with a description.
    SemanticRejection(String),
    /// The name of the field or structure that enclosed the failure.
    Context(&'static str),
}

/// The class of a failure, as contracts speak of it.
#[derive(PartialEq, Eq, Structural, Debug, Clone, Copy)]
pub enum Fault {
    Truncation,
    TagMismatch,
    UnknownEnumeration,
    SemanticRejection,
}

/// A failed decode: the innermost failure first, then one label for each
/// enclosing field or structure. Each entry carries the byte position.
#[derive(Debug)]
pub struct PEError {
    pub errors: Vec<(usize, ErrorKind)>,
}

impl PEError {
    /// The class of the innermost failure.
    pub open spec fn fault(&self) -> Option<Fault> {
        if self.errors@.len() == 0 {
            None
        } else {
            match self.errors@[0].1 {
                ErrorKind::Truncation => Some(Fault::Truncation),
                ErrorKind::TagMismatch => Some(Fault::TagMismatch),
                ErrorKind::UnknownEnumeration => Some(Fault::UnknownEnumeration),
                ErrorKind::SemanticRejection(_) => Some(Fault::SemanticRejection),
                ErrorKind::Context(_) => None,
            }
        }
    }

    /// The byte position of the innermost failure.
    pub open spec fn position(&self) -> usize {
        self.errors@[0].0
    }

    /// A failure of the given class at `pos`, with nothing around it yet;
    /// a semantic rejection made here carries an empty message.
    pub fn new(pos: usize, fault: Fault) -> (r: PEError)
        ensures
            r.fault() == Some(fault),
            r.errors@.len() == 1,
            r.position() == pos,
    {
        let kind = match fault {
            Fault::Truncation => ErrorKind::Truncation,
            Fault::TagMismatch => ErrorKind::TagMismatch,
            Fault::UnknownEnumeration => ErrorKind::UnknownEnumeration,
            Fault::SemanticRejection => ErrorKind::SemanticRejection(String::new()),
        };
        let mut errors: Vec<(usize, ErrorKind)> = Vec::new();
        errors.push((pos, kind));
        PEError { errors }
    }

    /// A semantic rejection at `pos` with the message `s`.
    pub fn from_string(pos: usize, s: String) -> (r: PEError)
        ensures
            r.errors@ == seq![(pos, ErrorKind::SemanticRejection(s))],
            r.fault() == Some(Fault::SemanticRejection),
            r.position() == pos,
    {
        let mut errors: Vec<(usize, ErrorKind)> = Vec::new();
        errors.push((pos, ErrorKind::SemanticRejection(s)));
        proof {
            assert(errors@ =~= seq![(pos, ErrorKind::SemanticRejection(s))]);
        }
        PEError { errors }
    }

    /// Adds the label of an enclosing field or structure, outermost last.
    pub fn add_context(self, pos: usize, ctx: &'static str) -> (r: PEError)
        ensures
            r.errors@ == self.errors@.push((pos, ErrorKind::Context(ctx))),
            self.errors@.len() > 0 ==> r.fault() == self.fault() && r.position()
                == self.position(),
    {
        let mut errors = self.errors;
        errors.push((pos, ErrorKind::Context(ctx)));
        PEError { errors }
    }
}

} // verus!
